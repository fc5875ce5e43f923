use vstd::prelude::*;
use vstd::string::*;

use crate::gateway::{heartbeat_payload, heartbeat_sequence};
use crate::handshake::{
    handshake_step, is_step_action, next_state, GatewayEvent, HandshakeAction, HandshakeState,
};
use crate::ops::Op1;
use crate::requests::RequestTable;

verus! {

/// The name under which the heartbeat task waits for its acknowledgements.
pub const HEARTBEAT_TASK: &'static str = "heartbeat_loop";

/// The name under which the update task waits for its events.
pub const UPDATE_TASK: &'static str = "check_for_update";

/// The state that the tasks of a gateway connection share: the last
/// sequence number seen (-1 before any), how far the handshake has come,
/// and the requests they wait on.
#[derive(Debug)]
pub struct EventManager {
    seq: i32,
    handshake: HandshakeState,
    requests: RequestTable,
}

impl EventManager {
    /// The last sequence number seen, -1 before any.
    pub closed spec fn sequence(&self) -> i32 {
        self.seq
    }

    /// How far the handshake has come.
    pub closed spec fn handshake(&self) -> HandshakeState {
        self.handshake
    }

    /// The requests, by name: the answer so far and whether it is complete.
    pub closed spec fn requests(&self) -> Map<Seq<char>, (Seq<char>, bool)> {
        self.requests@
    }

    /// A manager that has seen nothing and waits on nothing.
    pub fn new() -> (r: Self)
        ensures
            r.sequence() == -1,
            r.handshake() == HandshakeState::AwaitingHello,
            r.requests() == Map::<Seq<char>, (Seq<char>, bool)>::empty(),
    {
        EventManager { seq: -1, handshake: HandshakeState::AwaitingHello, requests: RequestTable::new() }
    }

    /// Registers the two background tasks, each with an empty, incomplete answer.
    pub fn register_tasks(&mut self)
        ensures
            final(self).sequence() == old(self).sequence(),
            final(self).handshake() == old(self).handshake(),
            final(self).requests() == old(self).requests().insert(HEARTBEAT_TASK@, (Seq::empty(), false)).insert(
                UPDATE_TASK@,
                (Seq::empty(), false),
            ),
    {
        self.requests.insert(String::from_str(HEARTBEAT_TASK), String::new(), false);
        self.requests.insert(String::from_str(UPDATE_TASK), String::new(), false);
    }

    /// Whether a request named `key` is registered.
    pub fn has_request(&self, key: &str) -> (r: bool)
        ensures
            r == self.requests().contains_key(key@),
    {
        self.requests.contains_key(key)
    }

    /// The answer to the request named `key` once it is complete; `None` while it is not.
    pub fn poll_request(&self, key: &str) -> (r: Option<String>)
        requires
            self.requests().contains_key(key@),
        ensures
            match r {
                Some(answer) => self.requests()[key@].1 && answer@ == self.requests()[key@].0,
                None => !self.requests()[key@].1,
            },
    {
        match self.requests.get(key) {
            Some((answer, done)) => if done {
                Some(answer)
            } else {
                None
            },
            None => None,
        }
    }

    /// Takes in what the gateway sent during the handshake: the stage moves
    /// on as `handshake_step` says, and when heartbeats start, the sequence
    /// number of the accepted reply becomes the last one seen.
    pub fn on_gateway_event(&mut self, event: &GatewayEvent, token: &String, os: &String) -> (r: Option<
        HandshakeAction,
    >)
        ensures
            final(self).requests() == old(self).requests(),
            final(self).handshake() == next_state(old(self).handshake(), *event),
            is_step_action(old(self).handshake(), *event, token@, os@, r),
            final(self).sequence() == (match r {
                Some(HandshakeAction::StartHeartbeats { seq, .. }) => seq,
                _ => old(self).sequence(),
            }),
    {
        let (next, action) = handshake_step(self.handshake, event, token, os);
        self.handshake = next;
        if let Some(HandshakeAction::StartHeartbeats { seq, .. }) = &action {
            self.seq = *seq;
        }
        action
    }

    /// The next heartbeat to send, once the session is open; none before.
    pub fn heartbeat(&self) -> (r: Option<Op1>)
        ensures
            r is Some <==> self.handshake() is Established,
            r matches Some(p) ==> p == (Op1 { op: 1, d: None, s: heartbeat_sequence(self.sequence()) }),
    {
        match self.handshake {
            HandshakeState::Established { .. } => Some(heartbeat_payload(self.seq)),
            _ => None,
        }
    }
}

/// The two task names differ, so registering one never hides the other.
pub proof fn task_names_differ()
    ensures
        HEARTBEAT_TASK@ != UPDATE_TASK@,
{
    reveal_strlit("heartbeat_loop");
    reveal_strlit("check_for_update");
    assert(HEARTBEAT_TASK@.len() != UPDATE_TASK@.len());
}

/// Right after the tasks are registered, whatever was registered before,
/// both are known and neither has a complete answer: a task that polls
/// for its answer keeps waiting until one is recorded.
pub proof fn registered_tasks_are_pending(before: Map<Seq<char>, (Seq<char>, bool)>)
    ensures
        ({
            let after = before.insert(HEARTBEAT_TASK@, (Seq::empty(), false)).insert(
                UPDATE_TASK@,
                (Seq::empty(), false),
            );
            &&& after.contains_key(HEARTBEAT_TASK@)
            &&& !after[HEARTBEAT_TASK@].1
            &&& after.contains_key(UPDATE_TASK@)
            &&& !after[UPDATE_TASK@].1
        }),
{
    task_names_differ();
}

/// Registering the tasks a second time changes nothing.
pub proof fn registering_twice_is_registering_once(before: Map<Seq<char>, (Seq<char>, bool)>)
    ensures
        ({
            let once = before.insert(HEARTBEAT_TASK@, (Seq::empty(), false)).insert(
                UPDATE_TASK@,
                (Seq::empty(), false),
            );
            let twice = once.insert(HEARTBEAT_TASK@, (Seq::empty(), false)).insert(
                UPDATE_TASK@,
                (Seq::empty(), false),
            );
            twice == once
        }),
{
    task_names_differ();
    let once = before.insert(HEARTBEAT_TASK@, (Seq::<char>::empty(), false)).insert(
        UPDATE_TASK@,
        (Seq::<char>::empty(), false),
    );
    let twice = once.insert(HEARTBEAT_TASK@, (Seq::<char>::empty(), false)).insert(
        UPDATE_TASK@,
        (Seq::<char>::empty(), false),
    );
    assert(twice =~= once);
}

} // verus!
