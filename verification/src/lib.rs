use vstd::prelude::*;

pub mod text;
pub mod digest;
pub mod release_gate;
pub mod model;
pub mod capacity;
pub mod corpus;
pub mod seal;
pub mod cli;
pub mod report;

verus! {
} // verus!
