//! Core logic of a side-scrolling endless-runner game: player jump physics,
//! timer-driven obstacle spawning, score accrual with speed tiers, rectangle
//! collision, and the intro / playing / game-over stage machine.
//!
//! All gameplay quantities are integers: lengths are millipixels (one
//! thousandth of a pixel) and times are milliseconds, so every frame update
//! is exact arithmetic.

pub mod config;
pub mod game_over_stage;
pub mod geom;
pub mod intro_stage;
pub mod obstacle;
pub mod playing_stage;
pub mod score_type;
pub mod stages;
