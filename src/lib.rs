use vstd::prelude::*;

pub mod config;
pub mod probe;
pub mod region;
pub mod driver;

verus! {

} // verus!
