//! Headless core of a side-scrolling runner: procedural cactus obstacles,
//! hitbox collision against a scene arena, and the fall of struck parts.
//!
//! Lengths are whole thousandths of a world unit, time is whole
//! milliseconds, speeds are thousandths of a unit per millisecond and
//! angles are thousandths of a degree, so every rule is exact integer
//! arithmetic.
pub mod math;
pub mod rng;
pub mod components;
pub mod scene;
pub mod cactus;
pub mod collision;
pub mod movement;
pub mod spawner;
pub mod player;
pub mod background;
pub mod game;
pub mod texture;
