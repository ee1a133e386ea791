//! The space a cut is evaluated in.

use vstd::prelude::*;

verus! {

/// Where the plane equation is tested: against world positions or against
/// screen coordinates.
#[derive(Clone, Copy, Debug, PartialEq, Eq, Structural)]
pub enum Space {
    /// Test the fragment's world-space position.
    World,
    /// Test the fragment's screen coordinates; the plane then acts as a line.
    Screen,
}

impl Default for Space {
    fn default() -> (s: Self)
        ensures
            s == Space::World,
    {
        Space::World
    }
}

} // verus!
