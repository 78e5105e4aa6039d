use vstd::prelude::*;

pub mod geometry;
pub mod registry;
pub mod config;
pub mod systems;
pub mod simulation;
pub mod scene;

verus! {

} // verus!
