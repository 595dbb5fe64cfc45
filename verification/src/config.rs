use vstd::prelude::*;

verus! {

/// Settings of one run: where the two services live and how to sign in.
#[derive(Clone, Debug)]
pub struct Config {
    pub discord_base_url: String,
    pub discord_token: String,
    pub discord_server_id: String,
    pub selfoss_base_url: String,
    pub selfoss_username: String,
    pub selfoss_password: String,
}

} // verus!
