use crate::config::Config;
use crate::http::{field_views, Field, HttpMethod, HttpRequest, RequestView};
use vstd::prelude::*;

verus! {

/// The address of an endpoint of the chat platform.
pub open spec fn discord_url(base_url: Seq<char>, endpoint: Seq<char>) -> Seq<char> {
    base_url + "/"@ + endpoint
}

/// The value of the authorization header that signs a bot in.
pub open spec fn bot_authorization(token: Seq<char>) -> Seq<char> {
    "Bot "@ + token
}

/// The endpoint of the channels of a server.
pub open spec fn guild_channels_endpoint(server_id: Seq<char>) -> Seq<char> {
    "guilds/"@ + server_id + "/channels"@
}

/// The endpoint of the messages of a channel.
pub open spec fn channel_messages_endpoint(channel_id: Seq<char>) -> Seq<char> {
    "channels/"@ + channel_id + "/messages"@
}

/// A request to the chat platform: to `endpoint` below the base address,
/// signed with the bot's token, with `json` as its body if there is one.
pub open spec fn discord_request_of(
    config: &Config,
    method: HttpMethod,
    endpoint: Seq<char>,
    json: Option<Seq<(Seq<char>, Seq<char>)>>,
) -> RequestView {
    RequestView {
        method,
        url: discord_url(config.discord_base_url@, endpoint),
        query: Seq::empty(),
        headers: seq![("authorization"@, bot_authorization(config.discord_token@))],
        json,
    }
}

/// Builds a request to the chat platform.
pub fn discord_request(
    config: &Config,
    method: HttpMethod,
    endpoint: &str,
    json: Option<Vec<Field>>,
) -> (request: HttpRequest)
    ensures
        request@ == discord_request_of(
            config,
            method,
            endpoint@,
            match json {
                Some(members) => Some(field_views(members@)),
                None => None,
            },
        ),
{
    let mut url = config.discord_base_url.clone();
    url.append("/");
    url.append(endpoint);
    let mut authorization = String::from_str("Bot ");
    authorization.append(config.discord_token.as_str());
    let mut headers: Vec<Field> = Vec::new();
    headers.push(Field { name: String::from_str("authorization"), value: authorization });
    let request = HttpRequest { method, url, query: Vec::new(), headers, json };
    assert(request@.query =~= Seq::empty());
    assert(request@.headers =~= seq![("authorization"@, bot_authorization(config.discord_token@))]);
    request
}

fn guild_channels(config: &Config) -> (endpoint: String)
    ensures
        endpoint@ == guild_channels_endpoint(config.discord_server_id@),
{
    let mut endpoint = String::from_str("guilds/");
    endpoint.append(config.discord_server_id.as_str());
    endpoint.append("/channels");
    endpoint
}

/// The request that lists the channels of the server.
pub fn get_channels(config: &Config) -> (request: HttpRequest)
    ensures
        request@ == discord_request_of(
            config,
            HttpMethod::Get,
            guild_channels_endpoint(config.discord_server_id@),
            None,
        ),
{
    let endpoint = guild_channels(config);
    discord_request(config, HttpMethod::Get, endpoint.as_str(), None)
}

/// The request that creates the channel `channel_name` on the server.
pub fn create_channel(config: &Config, channel_name: &str) -> (request: HttpRequest)
    ensures
        request@ == discord_request_of(
            config,
            HttpMethod::Post,
            guild_channels_endpoint(config.discord_server_id@),
            Some(seq![("name"@, channel_name@)]),
        ),
{
    let mut payload: Vec<Field> = Vec::new();
    payload.push(Field::new("name", channel_name));
    assert(field_views(payload@) =~= seq![("name"@, channel_name@)]);
    let endpoint = guild_channels(config);
    discord_request(config, HttpMethod::Post, endpoint.as_str(), Some(payload))
}

/// The request that posts `content` into the channel `channel_id`.
pub fn post_message(config: &Config, channel_id: &str, content: &str) -> (request: HttpRequest)
    ensures
        request@ == discord_request_of(
            config,
            HttpMethod::Post,
            channel_messages_endpoint(channel_id@),
            Some(seq![("content"@, content@)]),
        ),
{
    let mut payload: Vec<Field> = Vec::new();
    payload.push(Field::new("content", content));
    assert(field_views(payload@) =~= seq![("content"@, content@)]);
    let mut endpoint = String::from_str("channels/");
    endpoint.append(channel_id);
    endpoint.append("/messages");
    discord_request(config, HttpMethod::Post, endpoint.as_str(), Some(payload))
}

} // verus!
