//! Reactions to a message.
use vstd::prelude::*;
use vstd::string::StringExecFns;

use crate::text::{decimal, decimal_string};
use super::types::Snowflake;

verus! {

/// The message whose reactions are read or changed, and the channel it was sent in.
#[derive(Debug, Clone, PartialEq, Eq)]
pub struct ReactionMeta {
    pub message_id: Snowflake,
    pub channel_id: Snowflake,
}

/// The path, below the API root, of the reactions to a message.
pub open spec fn spec_reactions_path(channel_id: Snowflake, message_id: Snowflake) -> Seq<char> {
    "/channels/"@ + decimal(channel_id.0 as nat) + "/messages/"@ + decimal(message_id.0 as nat)
        + "/reactions"@
}

impl ReactionMeta {
    /// The path, below the API root, of the reactions to the message:
    /// `/channels/<channel id>/messages/<message id>/reactions`.
    pub fn reactions_path(&self) -> (res: String)
        ensures
            res@ == spec_reactions_path(self.channel_id, self.message_id),
    {
        let mut path = String::from_str("/channels/");
        path.append(decimal_string(self.channel_id.0).as_str());
        path.append("/messages/");
        path.append(decimal_string(self.message_id.0).as_str());
        path.append("/reactions");
        path
    }
}

} // verus!
