use vstd::prelude::*;

pub mod api;
pub mod client;
pub mod event_manager;
pub mod gateway;
pub mod handshake;
pub mod heart_beat;
pub mod json_data;
pub mod json_related;
pub mod ops;
pub mod requests;

verus! {

/// Base address of the REST API, version 9.
pub const DISCORD_API: &'static str = "https://discord.com/api/v9";

/// The user agent the client sends with each REST request.
pub const USER_AGENT_VAL: &'static str = "Strife (https://github.com/Citrus-Studios, 0.0.1)";

/// An identifier: a 64-bit number.
pub type Snowflake = u64;

/// A point in time, as the API writes it.
pub type Timestamp = String;

} // verus!
