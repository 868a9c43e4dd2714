//! What the player's keys ask for.

use vstd::prelude::*;
use crate::world::Direction;

verus! {

/// Horizontal thrust: left (`-1`) wins over right (`1`) when both are held.
pub open spec fn horizontal_thrust(left: bool, right: bool) -> int {
    if left {
        -1
    } else if right {
        1
    } else {
        0
    }
}

/// Vertical thrust: up (`1`) wins over down (`-1`) when both are held.
pub open spec fn vertical_thrust(up: bool, down: bool) -> int {
    if up {
        1
    } else if down {
        -1
    } else {
        0
    }
}

/// The player's thrust from the held movement keys, as the signs of its
/// horizontal and vertical parts: `left` (A) wins over `right` (D), and
/// `up` (W) wins over `down` (S).
pub fn player_acceleration(left: bool, right: bool, up: bool, down: bool) -> (a: (i8, i8))
    ensures
        a.0 == horizontal_thrust(left, right),
        a.1 == vertical_thrust(up, down),
        -1 <= a.0 <= 1,
        -1 <= a.1 <= 1,
{
    let x: i8 = if left {
        -1
    } else if right {
        1
    } else {
        0
    };
    let y: i8 = if up {
        1
    } else if down {
        -1
    } else {
        0
    };
    (x, y)
}

/// The sides toward which bullets leave the player's ship on a step: both,
/// left first, while the fire key is held; none otherwise.
pub fn bullets_to_fire(fire: bool) -> (sides: Vec<Direction>)
    ensures
        fire ==> sides@ == seq![Direction::Left, Direction::Right],
        !fire ==> sides@.len() == 0,
{
    let mut sides: Vec<Direction> = Vec::new();
    if fire {
        sides.push(Direction::Left);
        sides.push(Direction::Right);
    }
    sides
}

} // verus!
