//! Protocol layer: definitions, errors, types and command frames.
use vstd::prelude::*;

pub mod commands;
pub mod definitions;
pub mod errors;
pub mod types;
pub mod wire;

verus! {

} // verus!
