use vstd::prelude::*;

use crate::gateway::{
    identify_payload, interval_delay_ms, is_identify_for, ready_sequence, spec_heartbeat_delay,
    spec_ready_sequence, HandshakeError,
};
use crate::ops::{Op0, Op10, Op2};

verus! {

/// How far the opening of a gateway session has come.
#[derive(PartialEq, Eq, Structural, Debug, Clone, Copy)]
pub enum HandshakeState {
    /// Connected; the gateway's hello has not come yet.
    AwaitingHello,
    /// The hello came and the identify was sent; its reply has not come yet.
    AwaitingReady { heartbeat_interval: i32 },
    /// The reply was accepted: the session is open and heartbeats run.
    Established { heartbeat_interval: i32 },
    /// The handshake failed for good.
    Failed(HandshakeError),
}

/// What the gateway sent, as the handshake reads it.
#[derive(Debug)]
pub enum GatewayEvent {
    /// The hello, the first frame of a connection.
    Hello(Op10),
    /// The reply to the identify: its text, and the dispatch it holds where
    /// it reads as one.
    IdentifyReply { text: String, dispatch: Option<Op0> },
}

/// What the client must do after a step of the handshake.
#[derive(Debug)]
pub enum HandshakeAction {
    /// Send this identify payload.
    SendIdentify(Op2),
    /// Start heartbeating: the last sequence number seen, and the pause
    /// between heartbeats in milliseconds.
    StartHeartbeats { seq: i32, delay_ms: u64 },
    /// Give up the connection.
    Abort(HandshakeError),
}

/// `e` is a reply to the identify that the gateway accepted.
pub open spec fn is_accepted_reply(e: GatewayEvent) -> bool {
    e matches GatewayEvent::IdentifyReply { text, dispatch } && spec_ready_sequence(
        text@,
        dispatch,
    ) is Ok
}

/// The stage that follows `state` when `event` comes. An event that does
/// not belong to the stage leaves it as it is.
pub open spec fn next_state(state: HandshakeState, event: GatewayEvent) -> HandshakeState {
    match state {
        HandshakeState::AwaitingHello => match event {
            GatewayEvent::Hello(h) => HandshakeState::AwaitingReady {
                heartbeat_interval: h.d.heartbeat_interval,
            },
            _ => state,
        },
        HandshakeState::AwaitingReady { heartbeat_interval } => match event {
            GatewayEvent::IdentifyReply { text, dispatch } => match spec_ready_sequence(
                text@,
                dispatch,
            ) {
                Ok(_) => HandshakeState::Established { heartbeat_interval },
                Err(e) => HandshakeState::Failed(e),
            },
            _ => state,
        },
        _ => state,
    }
}

/// `action` is what the client must do when `event` comes in `state`, for
/// the bot `token` on the operating system `os`: send the identify after the
/// hello; start heartbeating after an accepted reply; give up after a
/// refused one; nothing otherwise.
pub open spec fn is_step_action(
    state: HandshakeState,
    event: GatewayEvent,
    token: Seq<char>,
    os: Seq<char>,
    action: Option<HandshakeAction>,
) -> bool {
    match state {
        HandshakeState::AwaitingHello => match event {
            GatewayEvent::Hello(_) => action matches Some(HandshakeAction::SendIdentify(p))
                && is_identify_for(p, token, os),
            _ => action is None,
        },
        HandshakeState::AwaitingReady { heartbeat_interval } => match event {
            GatewayEvent::IdentifyReply { text, dispatch } => match spec_ready_sequence(
                text@,
                dispatch,
            ) {
                Ok(s) => action matches Some(HandshakeAction::StartHeartbeats { seq, delay_ms })
                    && seq == s && delay_ms as int == spec_heartbeat_delay(heartbeat_interval),
                Err(e) => action matches Some(HandshakeAction::Abort(f)) && f == e,
            },
            _ => action is None,
        },
        _ => action is None,
    }
}

/// One step of the handshake: the next stage and what to do.
pub fn handshake_step(state: HandshakeState, event: &GatewayEvent, token: &String, os: &String) -> (r: (
    HandshakeState,
    Option<HandshakeAction>,
))
    ensures
        r.0 == next_state(state, *event),
        is_step_action(state, *event, token@, os@, r.1),
        *event matches GatewayEvent::IdentifyReply { text, dispatch } ==> (state is AwaitingReady
            && spec_ready_sequence(text@, dispatch) is Err ==> (r.0 == HandshakeState::Failed(
            spec_ready_sequence(text@, dispatch)->Err_0,
        ) && r.1 == Some(HandshakeAction::Abort(spec_ready_sequence(text@, dispatch)->Err_0)))),
        *event matches GatewayEvent::IdentifyReply { text, .. } ==> (state is AwaitingReady && text@
            == "Disallowed intent(s)."@ ==> r.0 == HandshakeState::Failed(
            HandshakeError::DisallowedIntents,
        )),
{
    match state {
        HandshakeState::AwaitingHello => match event {
            GatewayEvent::Hello(h) => {
                let payload = identify_payload(token.clone(), os.clone());
                (
                    HandshakeState::AwaitingReady { heartbeat_interval: h.d.heartbeat_interval },
                    Some(HandshakeAction::SendIdentify(payload)),
                )
            },
            _ => (state, None),
        },
        HandshakeState::AwaitingReady { heartbeat_interval } => match event {
            GatewayEvent::IdentifyReply { text, dispatch } => match ready_sequence(text, dispatch) {
                Ok(s) => {
                    let delay_ms = interval_delay_ms(heartbeat_interval);
                    (
                        HandshakeState::Established { heartbeat_interval },
                        Some(HandshakeAction::StartHeartbeats { seq: s, delay_ms }),
                    )
                },
                Err(e) => (HandshakeState::Failed(e), Some(HandshakeAction::Abort(e))),
            },
            _ => (state, None),
        },
        _ => (state, None),
    }
}

/// The stage reached from `state` when `events` come in order.
pub open spec fn state_after(state: HandshakeState, events: Seq<GatewayEvent>) -> HandshakeState
    decreases events.len(),
{
    if events.len() == 0 {
        state
    } else {
        next_state(state_after(state, events.drop_last()), events.last())
    }
}

/// Heartbeats start only after an accepted reply: a step whose action is
/// to start them was taken while awaiting the reply, on a reply the gateway
/// accepted, and it opens the session with that reply's sequence number.
pub proof fn heartbeats_start_only_after_accepted_reply(
    state: HandshakeState,
    event: GatewayEvent,
    token: Seq<char>,
    os: Seq<char>,
    action: Option<HandshakeAction>,
)
    requires
        is_step_action(state, event, token, os, action),
        action matches Some(HandshakeAction::StartHeartbeats { .. }),
    ensures
        state is AwaitingReady,
        is_accepted_reply(event),
        next_state(state, event) is Established,
        event matches GatewayEvent::IdentifyReply { text, dispatch } && action matches Some(
            HandshakeAction::StartHeartbeats { seq, .. },
        ) && spec_ready_sequence(text@, dispatch) == Ok::<i32, HandshakeError>(seq),
{
}

/// The identify is sent only in answer to the hello, and only once: the
/// step that sends it was taken while awaiting the hello, and it leaves
/// that stage.
pub proof fn identify_follows_hello(
    state: HandshakeState,
    event: GatewayEvent,
    token: Seq<char>,
    os: Seq<char>,
    action: Option<HandshakeAction>,
)
    requires
        is_step_action(state, event, token, os, action),
        action matches Some(HandshakeAction::SendIdentify(_)),
    ensures
        state is AwaitingHello,
        event is Hello,
        next_state(state, event) is AwaitingReady,
{
}

/// An open or failed session stays as it is, and asks for nothing, whatever comes.
pub proof fn ended_handshake_stays(
    state: HandshakeState,
    event: GatewayEvent,
    token: Seq<char>,
    os: Seq<char>,
    action: Option<HandshakeAction>,
)
    requires
        state is Established || state is Failed,
        is_step_action(state, event, token, os, action),
    ensures
        next_state(state, event) == state,
        action is None,
{
}

/// Once the connection has left the stage of awaiting the hello, a hello
/// has come.
pub proof fn hello_came(events: Seq<GatewayEvent>)
    requires
        !(state_after(HandshakeState::AwaitingHello, events) is AwaitingHello),
    ensures
        exists|i: int| 0 <= i < events.len() && #[trigger] events[i] is Hello,
    decreases events.len(),
{
    if events.len() > 0 {
        let before = events.drop_last();
        if state_after(HandshakeState::AwaitingHello, before) is AwaitingHello {
            let last = events.len() - 1;
            assert(events[last] is Hello);
        } else {
            hello_came(before);
            let i = choose|i: int| 0 <= i < before.len() && #[trigger] before[i] is Hello;
            assert(events[i] == before[i]);
        }
    }
}

/// Whatever frames come, a session opens only after a hello followed,
/// later, by a reply that the gateway accepted.
pub proof fn session_opens_after_hello_then_accepted_reply(events: Seq<GatewayEvent>)
    requires
        state_after(HandshakeState::AwaitingHello, events) is Established,
    ensures
        exists|i: int, j: int|
            0 <= i < j < events.len() && #[trigger] events[i] is Hello && is_accepted_reply(
                #[trigger] events[j],
            ),
    decreases events.len(),
{
    let before = events.drop_last();
    let last = events.len() - 1;
    let prior = state_after(HandshakeState::AwaitingHello, before);
    if prior is Established {
        session_opens_after_hello_then_accepted_reply(before);
        let (i, j) = choose|i: int, j: int|
            0 <= i < j < before.len() && #[trigger] before[i] is Hello && is_accepted_reply(
                #[trigger] before[j],
            );
        assert(events[i] == before[i]);
        assert(events[j] == before[j]);
    } else {
        assert(prior is AwaitingReady);
        assert(is_accepted_reply(events[last]));
        hello_came(before);
        let i = choose|i: int| 0 <= i < before.len() && #[trigger] before[i] is Hello;
        assert(events[i] == before[i]);
        assert(events[i] is Hello);
    }
}

/// A reply that the gateway does not accept, while the reply is awaited,
/// fails the handshake with the reason it gives; a refusal of the intents
/// fails it as such, whatever the reply could also be read as.
pub proof fn unaccepted_reply_fails_handshake(heartbeat_interval: i32, event: GatewayEvent)
    requires
        event is IdentifyReply,
        !is_accepted_reply(event),
    ensures
        event matches GatewayEvent::IdentifyReply { text, dispatch } && spec_ready_sequence(
            text@,
            dispatch,
        ) matches Err(e) && next_state(HandshakeState::AwaitingReady { heartbeat_interval }, event)
            == HandshakeState::Failed(e),
        event matches GatewayEvent::IdentifyReply { text, .. } && (text@ == "Disallowed intent(s)."@
            ==> next_state(HandshakeState::AwaitingReady { heartbeat_interval }, event)
            == HandshakeState::Failed(HandshakeError::DisallowedIntents)),
{
}

/// A failed handshake stays failed, whatever frames come after.
pub proof fn failed_stays_failed(e: HandshakeError, events: Seq<GatewayEvent>)
    ensures
        state_after(HandshakeState::Failed(e), events) == HandshakeState::Failed(e),
    decreases events.len(),
{
    if events.len() > 0 {
        failed_stays_failed(e, events.drop_last());
    }
}

/// After a reply that the gateway does not accept, no later frame ever
/// opens the session.
pub proof fn no_session_after_unaccepted_reply(
    heartbeat_interval: i32,
    reply: GatewayEvent,
    later: Seq<GatewayEvent>,
)
    requires
        reply is IdentifyReply,
        !is_accepted_reply(reply),
    ensures
        !(state_after(next_state(HandshakeState::AwaitingReady { heartbeat_interval }, reply), later) is Established),
{
    unaccepted_reply_fails_handshake(heartbeat_interval, reply);
    let e = next_state(HandshakeState::AwaitingReady { heartbeat_interval }, reply)->Failed_0;
    failed_stays_failed(e, later);
}

} // verus!
