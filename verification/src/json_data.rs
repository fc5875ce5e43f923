use vstd::prelude::*;
use vstd::string::*;

verus! {

/// What the REST endpoint `/gateway/bot` answers.
#[derive(Debug, Clone)]
pub struct BotGateway {
    pub url: String,
    pub shards: i32,
    pub session_start_limit: SessionStartLimit,
}

/// Limits on how many sessions the bot may start.
#[derive(Debug, Clone)]
pub struct SessionStartLimit {
    pub total: i32,
    pub remaining: i32,
    pub reset_after: i32,
    pub max_concurrency: i32,
}

/// How the client describes itself when it identifies.
#[derive(Debug, Clone)]
pub struct Properties {
    pub os: String,
    pub browser: String,
    pub device: String,
}

/// The query that selects version 9 of the gateway with JSON encoding.
pub open spec fn gateway_query() -> Seq<char> {
    "/?v=9&encoding=json"@
}

/// The websocket address to connect to for a gateway answer.
pub open spec fn spec_gateway_url(url: Seq<char>) -> Seq<char> {
    url + gateway_query()
}

impl BotGateway {
    /// The websocket address: the gateway's url followed by the version and encoding query.
    pub fn connect_url(&self) -> (r: String)
        ensures
            r@ == spec_gateway_url(self.url@),
            r@ == self.url@ + "/?v=9&encoding=json"@,
    {
        let base = self.url.clone();
        base.concat("/?v=9&encoding=json")
    }
}

/// The connect address begins with the gateway's url, whatever it is, and
/// what follows is the version and encoding query.
pub proof fn connect_url_extends_gateway_url(url: Seq<char>)
    ensures
        spec_gateway_url(url).len() == url.len() + "/?v=9&encoding=json"@.len(),
        spec_gateway_url(url).subrange(0, url.len() as int) == url,
        spec_gateway_url(url).subrange(url.len() as int, spec_gateway_url(url).len() as int)
            == "/?v=9&encoding=json"@,
{
    assert(spec_gateway_url(url).subrange(0, url.len() as int) =~= url);
    assert(spec_gateway_url(url).subrange(url.len() as int, spec_gateway_url(url).len() as int)
        =~= "/?v=9&encoding=json"@);
}

} // verus!
