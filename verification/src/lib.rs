//! Breakout's game rules as a verified library: the run's state machine,
//! scoring and lives, the brick-field geometry, the weighted power-up
//! spawner and the timed power-up effects. The engine side (rendering,
//! physics, input) drives these from outside.
pub mod timer;
pub mod random;
pub mod spawner;
pub mod powerups;
pub mod game_state;
pub mod layout;
pub mod hud;
