//! Gameplay constants. Lengths are in millipixels (1/1000 of a pixel),
//! per-frame velocities in millipixels per frame, times in milliseconds,
//! and scroll speeds in pixels per second (so that a scroll distance of
//! `speed * dt_ms` is exactly a number of millipixels).

use vstd::prelude::*;

verus! {

/// Vertical coordinate of the floor line, in millipixels.
pub const FLOOR_Y_POSITION: i64 = 350_000;
/// Fixed horizontal position of the player's center, in millipixels.
pub const PLAYER_X_POSITION: i64 = 75_000;
/// Downward acceleration added to the vertical velocity every frame,
/// in millipixels per frame.
pub const GRAVITY: i64 = 1_000;
/// Vertical velocity set by a jump (negative is upward), in millipixels
/// per frame.
pub const JUMP_FORCE: i64 = -25_000;
/// Half the side of the player's square hurtbox, in millipixels.
pub const PLAYER_RADIUS: i64 = 40_000;
/// Vertical position of the player when a playing stage begins, in
/// millipixels.
pub const PLAYER_START_Y: i64 = 100_000;

/// Width of the two ground-level obstacle kinds, in millipixels.
pub const OBSTACLE_DEFAULT_WIDTH: i64 = 80_000;
/// Height of the two ground-level obstacle kinds, in millipixels.
pub const OBSTACLE_DEFAULT_HEIGHT: i64 = 60_000;
/// Width of the tall floating obstacle kind, in millipixels.
pub const OBJECT1_OWN_WIDTH: i64 = 70_000;
/// Height of the tall floating obstacle kind, in millipixels.
pub const OBJECT1_OWN_HEIGHT: i64 = 100_000;
/// Extra vertical gap the floating obstacle keeps above the top edge of
/// the ground-level kinds, in millipixels.
pub const OBJECT1_ADDITIONAL_CLEARANCE_ABOVE_OTHERS: i64 = 30_000;

/// Smallest delay between obstacle spawns, in milliseconds (inclusive).
pub const OBSTACLE_SPAWN_TIMER_MIN_MS: u32 = 1_500;
/// Largest delay between obstacle spawns, in milliseconds (exclusive).
pub const OBSTACLE_SPAWN_TIMER_MAX_MS: u32 = 3_000;
/// Value of the spawn countdown when a playing stage begins, in
/// milliseconds.
pub const OBSTACLE_SPAWN_TIMER_INITIAL_MS: i64 = 2_000;

/// Time the score timer must accumulate before the score goes up by one,
/// in milliseconds.
pub const SCORE_TICK_MS: i64 = 100;

/// Scroll speed below every tier threshold, in pixels per second.
pub const SCROLL_SPEED_INITIAL: u32 = 300;
/// Scroll speed from the first tier threshold on, in pixels per second.
pub const SCROLL_SPEED_TIER1: u32 = 400;
/// Scroll speed from the second tier threshold on, in pixels per second.
pub const SCROLL_SPEED_TIER2: u32 = 500;
/// Scroll speed from the third tier threshold on, in pixels per second.
pub const SCROLL_SPEED_TIER3: u32 = 600;
/// Scroll speed from the fourth tier threshold on, in pixels per second.
pub const SCROLL_SPEED_TIER4: u32 = 700;
/// Scroll speed from the fifth tier threshold on, in pixels per second.
pub const SCROLL_SPEED_TIER5: u32 = 800;

/// How long every intro slide after the first stays up before advancing,
/// in milliseconds.
pub const INTRO_SLIDE_DURATION_MS: i64 = 3_000;
/// Width of the intro start button, in millipixels.
pub const INTRO_BUTTON_WIDTH: i64 = 200_000;
/// Height of the intro start button, in millipixels.
pub const INTRO_BUTTON_HEIGHT: i64 = 50_000;

} // verus!
