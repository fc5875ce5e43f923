use vstd::prelude::*;

use crate::json_data::Properties;

verus! {

/// Opcode 0, a dispatched event. Only its header is kept here: the opcode,
/// the sequence number and the event name.
#[derive(Debug, Clone)]
pub struct Op0 {
    pub op: i32,
    pub s: i32,
    pub t: Option<String>,
}

/// Opcode 1, a heartbeat: it carries the last sequence number seen, if any.
#[derive(PartialEq, Eq, Structural, Debug, Clone, Copy)]
pub struct Op1 {
    pub op: i32,
    pub d: Option<i32>,
    pub s: Option<i32>,
}

/// Opcode 2, the identify payload sent after the hello.
#[derive(Debug, Clone)]
pub struct Op2 {
    pub op: i32,
    pub d: Option<Op2Data>,
}

/// The body of an identify payload.
#[derive(Debug, Clone)]
pub struct Op2Data {
    pub token: String,
    pub properties: Properties,
    pub compress: Option<bool>,
    pub large_threshold: Option<i32>,
    pub shards: Option<Vec<i32>>,
    pub intents: i32,
}

/// Opcode 10, the hello that the gateway sends first.
#[derive(Debug, Clone)]
pub struct Op10 {
    pub op: i32,
    pub d: Op10Data,
    pub s: Option<i32>,
}

/// The body of a hello: how often to send heartbeats, in milliseconds.
#[derive(Debug, Clone)]
pub struct Op10Data {
    pub heartbeat_interval: i32,
    pub _trace: Option<Vec<String>>,
}

/// Opcode 11, the acknowledgement of a heartbeat.
#[derive(Debug, Clone)]
pub struct Op11 {
    pub op: i32,
    pub d: Option<i32>,
}

} // verus!
