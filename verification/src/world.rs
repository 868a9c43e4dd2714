//! The fixed layout of the play field, in whole game pixels.
//!
//! The window is drawn at twice the game's resolution, so the play field is
//! half the window in each direction, centred on the origin.

use vstd::prelude::*;

verus! {

/// Width of the window, in screen pixels.
pub const WINDOW_WIDTH: i32 = 1024;

/// Height of the window, in screen pixels.
pub const WINDOW_HEIGHT: i32 = 768;

/// Screen pixels per game pixel.
pub const SCALE: i32 = 2;

/// Width of the play field, in game pixels.
pub const GAME_WIDTH: i32 = 512;

/// Height of the play field, in game pixels.
pub const GAME_HEIGHT: i32 = 384;

/// Horizontal speed of a bullet, in game pixels per fixed step.
pub const BULLET_SPEED: i32 = 3;

/// How far inside the side edges, and below the bottom edge, the mirror
/// spawners stand.
pub const MIRROR_SPAWNER_INSET: i32 = 10;

/// Height of the player's ship above the bottom edge when the game starts.
pub const PLAYER_START_HEIGHT: i32 = 32;

/// How far above the top edge enemies appear.
pub const ENEMY_SPAWN_MARGIN: i32 = 16;

/// A side of the play field.
#[derive(Clone, Copy, Debug, PartialEq, Eq, Structural)]
pub enum Direction {
    Left,
    Right,
}

impl Direction {
    /// The sign of the horizontal axis toward this side.
    pub open spec fn sign(self) -> int {
        match self {
            Direction::Left => -1,
            Direction::Right => 1,
        }
    }

    /// The sign of the horizontal axis toward this side: `-1` or `1`.
    pub fn component(self) -> (c: i8)
        ensures
            c == self.sign(),
    {
        match self {
            Direction::Left => -1,
            Direction::Right => 1,
        }
    }
}

/// Half the width of the play field, less the mirror spawners' inset.
pub open spec fn mirror_spawner_offset() -> int {
    GAME_WIDTH / 2 - MIRROR_SPAWNER_INSET
}

/// Where the mirror spawner of a side stands: at the spawner offset toward
/// that side, just below the bottom edge.
pub open spec fn mirror_spawner_spot(direction: Direction) -> (int, int) {
    (
        match direction {
            Direction::Left => -mirror_spawner_offset(),
            Direction::Right => mirror_spawner_offset(),
        },
        -(GAME_HEIGHT / 2) - MIRROR_SPAWNER_INSET,
    )
}

/// Where the mirror spawner of a side stands: just inside that side edge,
/// just below the bottom edge.
pub fn mirror_spawner_position(direction: Direction) -> (p: (i32, i32))
    ensures
        p.0 == mirror_spawner_spot(direction).0,
        p.1 == mirror_spawner_spot(direction).1,
{
    let x: i32 = GAME_WIDTH / 2 - MIRROR_SPAWNER_INSET;
    let y: i32 = -(GAME_HEIGHT / 2) - MIRROR_SPAWNER_INSET;
    match direction {
        Direction::Left => (-x, y),
        Direction::Right => (x, y),
    }
}

/// The velocity of a bullet fired toward a side: bullet speed in the
/// direction of that side's sign, nothing vertical.
pub open spec fn bullet_motion(direction: Direction) -> (int, int) {
    (
        match direction {
            Direction::Left => -BULLET_SPEED,
            Direction::Right => BULLET_SPEED as int,
        },
        0,
    )
}

/// The velocity of a bullet fired toward a side: horizontal, at bullet
/// speed.
pub fn bullet_velocity(direction: Direction) -> (v: (i32, i32))
    ensures
        v.0 == bullet_motion(direction).0,
        v.1 == bullet_motion(direction).1,
{
    match direction {
        Direction::Left => (-BULLET_SPEED, 0),
        Direction::Right => (BULLET_SPEED, 0),
    }
}

/// Where the player's ship starts: centred, a little above the bottom edge.
pub fn player_start_position() -> (p: (i32, i32))
    ensures
        p.0 == 0,
        p.1 == PLAYER_START_HEIGHT - GAME_HEIGHT / 2,
{
    (0, PLAYER_START_HEIGHT - GAME_HEIGHT / 2)
}

/// The height at which enemies appear: a little above the top edge.
pub fn enemy_spawn_height() -> (y: i32)
    ensures
        y == GAME_HEIGHT / 2 + ENEMY_SPAWN_MARGIN,
{
    GAME_HEIGHT / 2 + ENEMY_SPAWN_MARGIN
}

/// The play field is the window scaled down.
pub proof fn lemma_field_is_scaled_window()
    ensures
        GAME_WIDTH == WINDOW_WIDTH / SCALE,
        GAME_HEIGHT == WINDOW_HEIGHT / SCALE,
{
}

/// The two mirror spawners stand as mirror images of each other across the
/// vertical centre line, both inside the play field's width.
pub proof fn lemma_mirror_spawners_symmetric()
    ensures
        mirror_spawner_spot(Direction::Left).0 == -mirror_spawner_spot(Direction::Right).0,
        mirror_spawner_spot(Direction::Left).1 == mirror_spawner_spot(Direction::Right).1,
        -(GAME_WIDTH / 2) < mirror_spawner_spot(Direction::Left).0 < 0,
        0 < mirror_spawner_spot(Direction::Right).0 < GAME_WIDTH / 2,
        mirror_spawner_spot(Direction::Left).1 < -(GAME_HEIGHT / 2),
        mirror_spawner_spot(Direction::Left).0 == Direction::Left.sign() * mirror_spawner_offset(),
        mirror_spawner_spot(Direction::Right).0 == Direction::Right.sign() * mirror_spawner_offset(),
{
}

/// Bullets fired toward the two sides move in opposite directions at the
/// same speed.
pub proof fn lemma_bullets_opposite(direction: Direction)
    ensures
        bullet_motion(Direction::Left).0 == -bullet_motion(Direction::Right).0,
        bullet_motion(direction).0 == BULLET_SPEED || bullet_motion(direction).0 == -BULLET_SPEED,
        bullet_motion(direction).1 == 0,
        bullet_motion(direction).0 == direction.sign() * BULLET_SPEED,
{
}

} // verus!
