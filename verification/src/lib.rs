//! Game rules of a small vertical shooter: timers that pace spawning and
//! despawning, the mapping from held keys to player thrust, the fixed layout
//! of the play field, and the heads-up score line.

pub mod timer;
pub mod world;
pub mod controls;
pub mod gameplay;
pub mod hud;
