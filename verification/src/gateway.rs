use vstd::prelude::*;
use vstd::string::*;

use crate::json_data::Properties;
use crate::ops::{Op0, Op1, Op10, Op2, Op2Data};

verus! {

/// The gateway intents the client asks for: bit 9 alone (`1 << 9`).
pub const IDENTIFY_INTENTS: i32 = 512;

/// The name under which the client presents itself, as browser and as device.
pub open spec fn client_name() -> Seq<char> {
    "Strife"@
}

/// What the gateway answers an identify whose intents it refuses.
pub open spec fn disallowed_intents_reply() -> Seq<char> {
    "Disallowed intent(s)."@
}

/// `p` is the identify payload for `token` on the operating system `os`.
pub open spec fn is_identify_for(p: Op2, token: Seq<char>, os: Seq<char>) -> bool {
    &&& p.op == 2
    &&& p.d matches Some(d) && {
        &&& d.token@ == token
        &&& d.properties.os@ == os
        &&& d.properties.browser@ == client_name()
        &&& d.properties.device@ == client_name()
        &&& d.compress is None
        &&& d.large_threshold is None
        &&& d.shards is None
        &&& d.intents == IDENTIFY_INTENTS
    }
}

/// The identify payload that answers the gateway's hello.
pub fn identify_payload(token: String, os: String) -> (r: Op2)
    ensures
        is_identify_for(r, token@, os@),
        r.op == 2,
        r.d matches Some(d) && d.token@ == token@ && d.properties.os@ == os@ && d.properties.browser@
            == "Strife"@ && d.properties.device@ == "Strife"@ && d.intents == 512,
{
    let browser = String::from_str("Strife");
    let device = String::from_str("Strife");
    Op2 {
        op: 2,
        d: Some(
            Op2Data {
                token,
                properties: Properties { os, browser, device },
                compress: None,
                large_threshold: None,
                shards: None,
                intents: IDENTIFY_INTENTS,
            },
        ),
    }
}

/// Why a handshake cannot go on.
#[derive(PartialEq, Eq, Structural, Debug, Clone, Copy)]
pub enum HandshakeError {
    /// The gateway refused the requested intents.
    DisallowedIntents,
    /// The reply to the identify is not a dispatch.
    MalformedReady,
}

/// The outcome of the reply to an identify: the sequence number of the
/// dispatch it holds, unless the gateway refused the intents or the reply is
/// not a dispatch (`dispatch` is the reply read as a dispatch, where it is one).
pub open spec fn spec_ready_sequence(reply: Seq<char>, dispatch: Option<Op0>) -> Result<
    i32,
    HandshakeError,
> {
    if reply == disallowed_intents_reply() {
        Err(HandshakeError::DisallowedIntents)
    } else {
        match dispatch {
            Some(d) => Ok(d.s),
            None => Err(HandshakeError::MalformedReady),
        }
    }
}

/// Reads the reply to an identify: the refusal of the intents is checked
/// first, then the dispatch's sequence number is taken.
pub fn ready_sequence(reply: &String, dispatch: &Option<Op0>) -> (r: Result<i32, HandshakeError>)
    ensures
        r == spec_ready_sequence(reply@, *dispatch),
{
    let refused = String::from_str("Disallowed intent(s).");
    if *reply == refused {
        Err(HandshakeError::DisallowedIntents)
    } else {
        match dispatch {
            Some(d) => Ok(d.s),
            None => Err(HandshakeError::MalformedReady),
        }
    }
}

/// The sequence number that a heartbeat reports: none while it is -1, the
/// value the client starts from before any dispatch.
pub open spec fn heartbeat_sequence(seq: i32) -> Option<i32> {
    if seq == -1 {
        None
    } else {
        Some(seq)
    }
}

/// The heartbeat to send when the last sequence number seen is `seq`.
pub fn heartbeat_payload(seq: i32) -> (r: Op1)
    ensures
        r == (Op1 { op: 1, d: None, s: heartbeat_sequence(seq) }),
        seq == -1 ==> r.s is None,
        seq != -1 ==> r.s == Some(seq),
{
    Op1 {
        op: 1,
        d: None,
        s: if seq == -1 {
            None
        } else {
            Some(seq)
        },
    }
}

/// The pause between two heartbeats, in milliseconds, as the hello gives it.
/// A negative interval wraps around as a cast to `u64` does.
pub open spec fn spec_heartbeat_delay(interval: i32) -> int {
    if interval >= 0 {
        interval as int
    } else {
        interval + 0x1_0000_0000_0000_0000
    }
}

/// How long to wait between heartbeats, in milliseconds.
pub fn heartbeat_delay_ms(hello: &Op10) -> (r: u64)
    ensures
        r as int == spec_heartbeat_delay(hello.d.heartbeat_interval),
        hello.d.heartbeat_interval >= 0 ==> r as int == hello.d.heartbeat_interval as int,
{
    interval_delay_ms(hello.d.heartbeat_interval)
}

/// The pause between heartbeats, in milliseconds, for an interval.
pub fn interval_delay_ms(interval: i32) -> (r: u64)
    ensures
        r as int == spec_heartbeat_delay(interval),
        interval >= 0 ==> r as int == interval as int,
        interval < 0 ==> r as int == interval as int + 0x1_0000_0000_0000_0000,
{
    let r: u64 = interval as u64;
    assert(r as int == spec_heartbeat_delay(interval)) by (bit_vector)
        requires
            r == interval as u64,
    ;
    r
}

/// A refusal of the intents ends the handshake whatever else the reply
/// could be read as.
pub proof fn refusal_wins(dispatch: Option<Op0>)
    ensures
        spec_ready_sequence(disallowed_intents_reply(), dispatch) == Err::<i32, HandshakeError>(
            HandshakeError::DisallowedIntents,
        ),
{
}

/// A reply that is not the refusal, and reads as a dispatch, is accepted
/// with the dispatch's sequence number.
pub proof fn dispatch_reply_is_accepted(reply: Seq<char>, d: Op0)
    requires
        reply != disallowed_intents_reply(),
    ensures
        spec_ready_sequence(reply, Some(d)) == Ok::<i32, HandshakeError>(d.s),
{
}

/// The identify reports the operating system it is given, and the token,
/// whatever they are.
pub proof fn identify_reports_given_os_and_token(p: Op2, token: Seq<char>, os: Seq<char>)
    requires
        is_identify_for(p, token, os),
    ensures
        p.op == 2,
        p.d matches Some(d) && d.properties.os@ == os && d.token@ == token && d.intents == 512,
{
}

/// A heartbeat reports the sequence number it is given, unchanged, and no
/// number at all for -1.
pub proof fn heartbeat_reports_sequence_unchanged(seq: i32)
    ensures
        seq == -1 ==> heartbeat_sequence(seq) is None,
        seq != -1 ==> heartbeat_sequence(seq) == Some(seq),
        heartbeat_sequence(seq) matches Some(s) ==> s == seq,
{
}

/// The pause between heartbeats is the hello's interval, in milliseconds,
/// for every interval that is not negative; a negative one wraps around
/// modulo 2^64.
pub proof fn delay_is_the_interval(interval: i32)
    ensures
        interval >= 0 ==> spec_heartbeat_delay(interval) == interval as int,
        interval < 0 ==> spec_heartbeat_delay(interval) == interval as int + 0x1_0000_0000_0000_0000,
        0 <= spec_heartbeat_delay(interval) < 0x1_0000_0000_0000_0000,
{
}

} // verus!
