use vstd::prelude::*;
use vstd::string::*;

use crate::{DISCORD_API, USER_AGENT_VAL};

verus! {

/// The headers that a REST request of the client carries.
#[derive(PartialEq, Eq, Structural, Debug, Clone, Copy)]
pub enum HeaderKind {
    UserAgent,
    Authorization,
    Accept,
}

/// One header: which one, and its value.
#[derive(Debug, Clone)]
pub struct Header {
    pub kind: HeaderKind,
    pub value: String,
}

/// The address of the endpoint that describes the gateway for a bot.
pub fn gateway_bot_url() -> (r: String)
    ensures
        r@ == DISCORD_API@ + "/gateway/bot"@,
{
    String::from_str(DISCORD_API).concat("/gateway/bot")
}

/// The value of the authorization header for a bot's token.
pub fn authorization_value(token: &str) -> (r: String)
    ensures
        r@ == "Bot "@ + token@,
{
    String::from_str("Bot ").concat(token)
}

/// The headers of a REST request for the bot `token`, in order: the user
/// agent, the authorization and the accepted format, JSON.
pub fn api_headers(token: &str) -> (r: Vec<Header>)
    ensures
        r@.len() == 3,
        r@[0].kind == HeaderKind::UserAgent && r@[0].value@ == USER_AGENT_VAL@,
        r@[1].kind == HeaderKind::Authorization && r@[1].value@ == "Bot "@ + token@,
        r@[2].kind == HeaderKind::Accept && r@[2].value@ == "application/json"@,
{
    let mut r: Vec<Header> = Vec::new();
    r.push(Header { kind: HeaderKind::UserAgent, value: String::from_str(USER_AGENT_VAL) });
    r.push(Header { kind: HeaderKind::Authorization, value: authorization_value(token) });
    r.push(Header { kind: HeaderKind::Accept, value: String::from_str("application/json") });
    r
}

} // verus!
