//! A Verus library for the decision logic of a Spacebar / Discord compatible chat client:
//! rate-limit bookkeeping, request schemas and their validation, gateway options and
//! gateway message handling, and the observer registry used for gateway events.
use vstd::prelude::*;

pub mod api;
pub mod voice;
pub mod errors;
pub mod gateway;
pub mod text;

verus! {

} // verus!
