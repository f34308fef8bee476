use vstd::prelude::*;

pub mod event;
pub mod laws;
pub mod picker;
pub mod report;

verus! {

} // verus!
