//! The way a sprite faces.

use vstd::prelude::*;

verus! {

/// Left or right.
#[allow(non_camel_case_types)]
#[derive(Clone, Copy, Debug, PartialEq, Eq, Structural)]
pub enum HorizontalDirection {
    LEFT,
    RIGHT,
}

/// The way an entity faces. Sprites are drawn facing right.
#[derive(Clone, Copy, Debug, PartialEq, Eq, Structural)]
pub struct FacingDirection(pub HorizontalDirection);

impl Default for FacingDirection {
    /// Facing right.
    fn default() -> (facing: FacingDirection)
        ensures
            facing == FacingDirection(HorizontalDirection::RIGHT),
    {
        FacingDirection(HorizontalDirection::RIGHT)
    }
}

/// The way an entity faces once it moves: to the left when it moves left, to
/// the right when it moves right, and as before when it moves neither way.
pub open spec fn facing_after(
    facing: FacingDirection,
    moves_left: bool,
    moves_right: bool,
) -> FacingDirection {
    if moves_left {
        FacingDirection(HorizontalDirection::LEFT)
    } else if moves_right {
        FacingDirection(HorizontalDirection::RIGHT)
    } else {
        facing
    }
}

/// Turns an entity the way it moves.
pub fn change_direction(moves_left: bool, moves_right: bool, facing_direction: &mut FacingDirection)
    ensures
        *final(facing_direction) == facing_after(*old(facing_direction), moves_left, moves_right),
{
    if moves_left {
        facing_direction.0 = HorizontalDirection::LEFT;
    } else if moves_right {
        facing_direction.0 = HorizontalDirection::RIGHT;
    }
}

/// Whether the sprite of an entity is mirrored: it is when the entity faces
/// left.
pub fn flip_assets(facing_direction: &FacingDirection) -> (flip_x: bool)
    ensures
        flip_x == (facing_direction.0 == HorizontalDirection::LEFT),
{
    match facing_direction.0 {
        HorizontalDirection::LEFT => true,
        HorizontalDirection::RIGHT => false,
    }
}

} // verus!
