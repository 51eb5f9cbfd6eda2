//! A turntable widget for spatial interfaces: input classification, hover and
//! capture tracking, rotation with inertial coasting, and proximity shading of
//! the grip rails, all on fixed-point integers.
//!
//! Units: lengths are micrometres, angles microradians, time microseconds,
//! scroll amounts and shading intensities millionths of a unit.
use vstd::prelude::*;

pub mod action;
pub mod fixed;
pub mod input;
pub mod laws;
pub mod turntable;

verus! {

/// Command-line arguments of the viewer: the model file to show.
pub struct Args {
    pub file_path: String,
}

} // verus!
