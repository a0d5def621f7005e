//! The gateway: options of the connection, and the decisions taken on what it receives.
use vstd::prelude::*;

pub mod events;
pub mod heartbeat;
pub mod message;
pub mod options;

verus! {

} // verus!
