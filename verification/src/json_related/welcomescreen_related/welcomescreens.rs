use vstd::prelude::*;

use crate::Snowflake;

verus! {

/// The screen a guild shows to new members.
#[derive(Debug, Clone)]
pub struct WelcomeScreen {
    pub description: Option<String>,
    pub welcome_channels: Vec<WelcomeScreenChannel>,
}

/// A channel that a welcome screen points to.
#[derive(Debug, Clone)]
pub struct WelcomeScreenChannel {
    pub channel_id: Snowflake,
    pub description: String,
    pub emoji_id: Option<Snowflake>,
    pub emoji_name: Option<String>,
}

} // verus!
