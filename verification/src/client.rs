use std::sync::Arc;

use vstd::prelude::*;

use crate::json_data::{spec_gateway_url, BotGateway};

verus! {

/// A bot client, made from the gateway description that the REST API gave.
#[derive(Debug)]
pub struct Client {
    bot_gateway: Arc<BotGateway>,
}

impl Client {
    /// The gateway description the client was made from.
    pub closed spec fn gateway(&self) -> BotGateway {
        *self.bot_gateway
    }

    /// A client for the gateway `bot_gateway`.
    pub fn new(bot_gateway: Arc<BotGateway>) -> (r: Self)
        ensures
            r.gateway() == *bot_gateway,
    {
        Client { bot_gateway }
    }

    /// The websocket address the client connects to.
    pub fn connect_url(&self) -> (r: String)
        ensures
            r@ == spec_gateway_url(self.gateway().url@),
    {
        self.bot_gateway.connect_url()
    }
}

} // verus!
