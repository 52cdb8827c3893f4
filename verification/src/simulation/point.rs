//! A position on the simulation plane.

use vstd::prelude::*;

verus! {

/// A point with integer coordinates on the simulation plane.
#[derive(Copy, Clone, Debug, Default, PartialEq, Eq, Structural)]
pub struct Point {
    pub x: u32,
    pub y: u32,
}

} // verus!
