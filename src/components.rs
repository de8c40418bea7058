use vstd::prelude::*;

verus! {

/// Marker for the one actor that the player controls.
#[derive(Clone, Copy, Debug, PartialEq, Eq, Structural)]
pub struct Player {}

/// Marker for an occupant that forbids any actor from entering its cell.
#[derive(Clone, Copy, Debug, PartialEq, Eq, Structural)]
pub struct Blocking {}

/// A grid cell: column `x` and row `y`, both counted from zero.
#[derive(Clone, Copy, Debug, PartialEq, Eq, Structural, Hash)]
pub struct Position {
    pub x: i32,
    pub y: i32,
}

} // verus!
