//! The player's movement keys.

use vstd::prelude::*;

verus! {

/// The way along one axis that two opposite keys ask for: forward where the
/// forward key is down, else backward where the backward key is down, else
/// neither.
pub open spec fn axis(forward: bool, backward: bool) -> int {
    if forward {
        1
    } else if backward {
        -1
    } else {
        0
    }
}

/// The direction that the movement keys ask for, as the steps to the right
/// and upwards, each of them -1, 0 or 1.
pub fn move_player(up: bool, down: bool, right: bool, left: bool) -> (direction: (i32, i32))
    ensures
        direction.0 == axis(right, left),
        direction.1 == axis(up, down),
{
    let mut x: i32 = 0;
    let mut y: i32 = 0;
    if up {
        y = 1;
    } else if down {
        y = -1;
    }
    if right {
        x = 1;
    } else if left {
        x = -1;
    }
    (x, y)
}

} // verus!
