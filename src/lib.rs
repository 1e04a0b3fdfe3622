use vstd::prelude::*;

pub mod bus;
pub mod cpu;
pub mod ines;

verus! {

} // verus!
