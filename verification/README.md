# mirror_shooter

The rules of a small vertical shooter, verified with Verus. The game runs on
bevy and bevy_rapier2d. The library holds the decisions that do not depend on
floating-point physics:

- `timer`: countdown timers that pace the game. `bevy`'s `Timer` does the
  arithmetic of each tick. The contracts state that arithmetic, and laws
  cover how ticks compose.
- `gameplay`: lifetimes of mirrors, enemies and bullets, the two kinds of
  spawner, and how often the on-screen statistics refresh.
- `controls`: the player's thrust from the held keys, and which bullets a
  press of the fire key releases.
- `world`: the play field's size and the fixed positions and velocities
  derived from it.
- `hud`: the score line, written in decimal.

`app/main.rs` is the bevy program. It registers the systems, loads assets,
does the floating-point movement, clamping and off-screen checks, and hands
the library plain integers.
