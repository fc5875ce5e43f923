use vstd::prelude::*;

use super::user::User;
use crate::Snowflake;

verus! {

/// A guild that the bot belongs to and that is not loaded yet.
#[derive(Debug, Clone)]
pub struct UnavailableGuild {
    pub id: Snowflake,
    pub unavailable: bool,
}

/// The part of the bot's application that the ready event carries.
#[derive(Debug, Clone)]
pub struct PartialApplication {
    pub id: Snowflake,
    pub flags: Option<u64>,
}

/// The event that ends a successful identify.
#[derive(Debug, Clone)]
pub struct Ready {
    pub v: i32,
    pub user: User,
    pub guilds: Vec<UnavailableGuild>,
    pub session_id: String,
    pub shard: Option<Vec<i32>>,
    pub application: PartialApplication,
}

} // verus!
