//! What the player asks of the character: a direction to move in, or a place
//! to walk to.

use vstd::prelude::*;

verus! {

/// The directions of the keys. `Up` asks the character to act on what is in
/// range.
#[derive(Clone, Copy, Debug, PartialEq, Eq, Structural)]
pub enum Direction {
    Left,
    Right,
    Up,
}

/// A place to walk to, and whether to act on arrival.
#[derive(Clone, Copy, Debug, PartialEq, Eq, Structural)]
pub struct Target {
    pub x: i32,
    pub action: bool,
}

/// One input of the player. An event carries a direction, a target, or
/// neither when the keys were released.
#[derive(Clone, Copy, Debug, PartialEq, Eq)]
pub struct InputEvent {
    pub direction: Option<Direction>,
    pub target: Option<Target>,
}

} // verus!
