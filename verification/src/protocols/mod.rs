//! The data that travels over the two APIs, each type with its mathematical model.

use vstd::prelude::*;

pub mod chat;
pub mod common;
pub mod responses;

verus! {

/// Stands in for the model of a request that names none.
pub const UNKNOWN_MODEL_ID: &'static str = "unknown";

} // verus!
