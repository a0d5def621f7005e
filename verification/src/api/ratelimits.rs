//! Rate-limit buckets keyed by the object they apply to.
use vstd::prelude::*;

use super::types::Snowflake;

verus! {

/// The different types of rate limits that can apply to a request. Includes "Baseline"
/// variants for when the object's id is not yet known.
#[derive(Clone, Copy, Eq, PartialEq, Structural, Debug, Default, Hash)]
pub enum LimitType {
    AuthRegister,
    AuthLogin,
    #[default]
    Global,
    Ip,
    Channel(Snowflake),
    ChannelBaseline,
    Error,
    Guild(Snowflake),
    GuildBaseline,
    Webhook(Snowflake),
    WebhookBaseline,
}

/// The current state of a rate limit, either instance-wide or user-wide.
#[derive(Debug, Clone, Copy, PartialEq, Eq, Structural)]
pub struct Limit {
    pub bucket: LimitType,
    pub limit: u64,
    pub remaining: u64,
    pub reset: u64,
    pub window: u64,
}

} // verus!
