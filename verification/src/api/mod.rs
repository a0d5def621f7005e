use vstd::prelude::*;

pub mod common;
pub mod email;
pub mod limits;
pub mod messages;
pub mod mfa;
pub mod ratelimits;
pub mod reactions;
pub mod relationships;
pub mod types;
pub mod users;
pub mod schemas;

verus! {

} // verus!
