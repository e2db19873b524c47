use vstd::prelude::*;

verus! {

pub mod chars;
pub mod cli;
pub mod error;
pub mod json;
pub mod payload;
pub mod publish;
pub mod render;

} // verus!
