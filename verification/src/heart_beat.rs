use std::sync::Arc;

use vstd::prelude::*;

use crate::gateway::{heartbeat_payload, heartbeat_sequence};
use crate::handshake::{
    handshake_step, is_step_action, next_state, GatewayEvent, HandshakeAction, HandshakeState,
};
use crate::json_data::{spec_gateway_url, BotGateway};
use crate::ops::Op1;

verus! {

/// The state of a gateway connection that keeps itself alive: the gateway
/// it talks to, the last sequence number seen (-1 before any), how far the
/// handshake has come, and the session, once there is one.
#[derive(Debug)]
pub struct Heartbeat {
    bot_gateway: Arc<BotGateway>,
    seq: i32,
    handshake: HandshakeState,
    session_id: Option<String>,
}

impl Heartbeat {
    /// The gateway description the connection was made from.
    pub closed spec fn gateway(&self) -> BotGateway {
        *self.bot_gateway
    }

    /// The last sequence number seen, -1 before any.
    pub closed spec fn sequence(&self) -> i32 {
        self.seq
    }

    /// How far the handshake has come.
    pub closed spec fn handshake(&self) -> HandshakeState {
        self.handshake
    }

    /// The session's identifier, once there is one.
    pub closed spec fn session(&self) -> Option<String> {
        self.session_id
    }

    /// A connection to `bot_gateway` that has seen nothing yet.
    pub fn new(bot_gateway: Arc<BotGateway>) -> (r: Self)
        ensures
            r.gateway() == *bot_gateway,
            r.sequence() == -1,
            r.handshake() == HandshakeState::AwaitingHello,
            r.session() is None,
    {
        Heartbeat { bot_gateway, seq: -1, handshake: HandshakeState::AwaitingHello, session_id: None }
    }

    /// The websocket address to connect to.
    pub fn connect_url(&self) -> (r: String)
        ensures
            r@ == spec_gateway_url(self.gateway().url@),
    {
        self.bot_gateway.connect_url()
    }

    /// Takes in what the gateway sent during the handshake: the stage moves
    /// on as `handshake_step` says, and when heartbeats start, the sequence
    /// number of the accepted reply becomes the last one seen.
    pub fn on_gateway_event(&mut self, event: &GatewayEvent, token: &String, os: &String) -> (r: Option<
        HandshakeAction,
    >)
        ensures
            final(self).gateway() == old(self).gateway(),
            final(self).session() == old(self).session(),
            final(self).handshake() == next_state(old(self).handshake(), *event),
            is_step_action(old(self).handshake(), *event, token@, os@, r),
            final(self).sequence() == (match r {
                Some(HandshakeAction::StartHeartbeats { seq, .. }) => seq,
                _ => old(self).sequence(),
            }),
    {
        let (next, action) = handshake_step(self.handshake, event, token, os);
        self.handshake = next;
        if let Some(HandshakeAction::StartHeartbeats { seq, .. }) = &action {
            self.seq = *seq;
        }
        action
    }

    /// The next heartbeat to send, once the session is open; none before.
    pub fn heartbeat(&self) -> (r: Option<Op1>)
        ensures
            r is Some <==> self.handshake() is Established,
            r matches Some(p) ==> p == (Op1 { op: 1, d: None, s: heartbeat_sequence(self.sequence()) }),
    {
        match self.handshake {
            HandshakeState::Established { .. } => Some(heartbeat_payload(self.seq)),
            _ => None,
        }
    }
}

} // verus!
