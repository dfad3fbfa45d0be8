//! Resolution of joke requests: cache lookup, upstream call, keyword filter,
//! search of a local dataset, and cache write, as a verified state machine
//! that the serving program drives.
use vstd::prelude::*;

pub mod joke;
pub mod text;
pub mod keys;
pub mod resolve;
pub mod engine;
pub mod laws;

verus! {

} // verus!
