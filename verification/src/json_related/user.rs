use vstd::prelude::*;

use crate::Snowflake;

verus! {

/// A user account, as the gateway describes it.
#[derive(Debug, Clone)]
pub struct User {
    pub id: Snowflake,
    pub username: String,
    pub discriminator: String,
    pub avatar: Option<String>,
    pub bot: Option<bool>,
}

} // verus!
