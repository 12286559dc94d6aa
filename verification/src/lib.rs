use vstd::prelude::*;

pub mod arith;
pub mod controller;
pub mod text;
pub mod timer;
pub mod windows;

verus! {

} // verus!
