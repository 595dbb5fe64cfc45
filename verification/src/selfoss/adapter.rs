use crate::config::Config;
use crate::http::{field_views, Field, HttpMethod, HttpRequest, RequestView};
use crate::text::{decimal_of, push_decimal};
use vstd::prelude::*;

verus! {

/// The header that asks the feed reader to answer in JSON.
pub open spec fn accept_json() -> Seq<(Seq<char>, Seq<char>)> {
    seq![("accept"@, "application/json"@)]
}

/// The request that fetches the unread items, 200 at most.
pub open spec fn get_tree_of(config: &Config) -> RequestView {
    RequestView {
        method: HttpMethod::Get,
        url: config.selfoss_base_url@ + "/items"@,
        query: seq![("type"@, "unread"@), ("items"@, "200"@)],
        headers: accept_json(),
        json: None,
    }
}

/// The request that marks the item `item_id` as read, in the name of the
/// configured user.
pub open spec fn mark_items_as_read_of(config: &Config, item_id: u64) -> RequestView {
    RequestView {
        method: HttpMethod::Post,
        url: config.selfoss_base_url@ + "/mark/"@ + decimal_of(item_id as nat),
        query: seq![
            ("username"@, config.selfoss_username@),
            ("password"@, config.selfoss_password@),
        ],
        headers: accept_json(),
        json: None,
    }
}

fn accept_json_headers() -> (headers: Vec<Field>)
    ensures
        field_views(headers@) == accept_json(),
{
    let mut headers: Vec<Field> = Vec::new();
    headers.push(Field::new("accept", "application/json"));
    headers
}

/// The request that fetches the unread items from the feed reader.
pub fn get_tree(config: &Config) -> (request: HttpRequest)
    ensures
        request@ == get_tree_of(config),
{
    let mut url = config.selfoss_base_url.clone();
    url.append("/items");
    let mut query: Vec<Field> = Vec::new();
    query.push(Field::new("type", "unread"));
    query.push(Field::new("items", "200"));
    assert(field_views(query@) =~= seq![("type"@, "unread"@), ("items"@, "200"@)]);
    HttpRequest { method: HttpMethod::Get, url, query, headers: accept_json_headers(), json: None }
}

/// The request that marks the item `item_id` as read in the feed reader.
pub fn mark_items_as_read(config: &Config, item_id: u64) -> (request: HttpRequest)
    ensures
        request@ == mark_items_as_read_of(config, item_id),
{
    let mut url = config.selfoss_base_url.clone();
    url.append("/mark/");
    push_decimal(&mut url, item_id);
    let mut query: Vec<Field> = Vec::new();
    query.push(Field { name: String::from_str("username"), value: config.selfoss_username.clone() });
    query.push(Field { name: String::from_str("password"), value: config.selfoss_password.clone() });
    assert(field_views(query@) =~= seq![
        ("username"@, config.selfoss_username@),
        ("password"@, config.selfoss_password@),
    ]);
    HttpRequest { method: HttpMethod::Post, url, query, headers: accept_json_headers(), json: None }
}

} // verus!
