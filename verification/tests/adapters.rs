use selfoss_discord::config::Config;
use selfoss_discord::discord::adapter::{create_channel, discord_request, get_channels, post_message};
use selfoss_discord::discord::errors::{HttpFailure, RequestError};
use selfoss_discord::http::{Field, HttpMethod, HttpRequest};
use selfoss_discord::selfoss::adapter::{get_tree, mark_items_as_read};

fn config() -> Config {
    Config {
        discord_base_url: String::from("http://127.0.0.1:5000"),
        discord_token: String::from("test token"),
        discord_server_id: String::from("123"),
        selfoss_base_url: String::from("http://127.0.0.1:5000"),
        selfoss_username: String::from("test username"),
        selfoss_password: String::from("test password"),
    }
}

fn field(name: &str, value: &str) -> Field {
    Field { name: String::from(name), value: String::from(value) }
}

fn bot_headers() -> Vec<Field> {
    vec![field("authorization", "Bot test token")]
}

#[test]
fn test_create_channels() {
    let request = create_channel(&config(), "my_channel");
    assert_eq!(
        request,
        HttpRequest {
            method: HttpMethod::Post,
            url: String::from("http://127.0.0.1:5000/guilds/123/channels"),
            query: vec![],
            headers: bot_headers(),
            json: Some(vec![field("name", "my_channel")]),
        }
    );
}

#[test]
fn test_get_channels() {
    let request = get_channels(&config());
    assert_eq!(
        request,
        HttpRequest {
            method: HttpMethod::Get,
            url: String::from("http://127.0.0.1:5000/guilds/123/channels"),
            query: vec![],
            headers: bot_headers(),
            json: None,
        }
    );
}

#[test]
fn post_message_goes_to_the_channel() {
    let request = post_message(&config(), "my_channel_id", "My content");
    assert_eq!(
        request,
        HttpRequest {
            method: HttpMethod::Post,
            url: String::from("http://127.0.0.1:5000/channels/my_channel_id/messages"),
            query: vec![],
            headers: bot_headers(),
            json: Some(vec![field("content", "My content")]),
        }
    );
}

#[test]
fn discord_request_joins_base_and_endpoint() {
    let request = discord_request(&config(), HttpMethod::Get, "users/@me", None);
    assert_eq!(request.url, "http://127.0.0.1:5000/users/@me");
    assert_eq!(request.method, HttpMethod::Get);
    assert_eq!(request.headers, bot_headers());
    assert_eq!(request.json, None);

    let members = vec![field("a", "1"), field("b", "2")];
    let request = discord_request(&config(), HttpMethod::Post, "", Some(members.clone()));
    assert_eq!(request.url, "http://127.0.0.1:5000/");
    assert_eq!(request.json, Some(members));
}

#[test]
fn test_get_tree() {
    let request = get_tree(&config());
    assert_eq!(
        request,
        HttpRequest {
            method: HttpMethod::Get,
            url: String::from("http://127.0.0.1:5000/items"),
            query: vec![field("type", "unread"), field("items", "200")],
            headers: vec![field("accept", "application/json")],
            json: None,
        }
    );
}

#[test]
fn mark_items_as_read_names_the_item_and_the_user() {
    let request = mark_items_as_read(&config(), 187204);
    assert_eq!(
        request,
        HttpRequest {
            method: HttpMethod::Post,
            url: String::from("http://127.0.0.1:5000/mark/187204"),
            query: vec![field("username", "test username"), field("password", "test password")],
            headers: vec![field("accept", "application/json")],
            json: None,
        }
    );
    assert_eq!(mark_items_as_read(&config(), 0).url, "http://127.0.0.1:5000/mark/0");
}

#[test]
fn field_new_copies_name_and_value() {
    assert_eq!(Field::new("name", "value"), field("name", "value"));
}

#[test]
fn request_error_message_is_the_description() {
    let failure = HttpFailure { status: Some(429), message: String::from("too many requests") };
    assert_eq!(RequestError::Reqwest(failure).message(), "too many requests");
    assert_eq!(
        RequestError::ReqwestMiddleware(String::from("no retries left")).message(),
        "no retries left"
    );
    assert_eq!(RequestError::Serde(String::from("expected value")).message(), "expected value");
}
