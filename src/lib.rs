use vstd::prelude::*;

pub mod app;
pub mod axis;
pub mod camera;
pub mod text;

verus! {

} // verus!
