//! The playing stage: per-frame vertical jump physics, score accrual,
//! speed tiers, timer-driven random obstacle spawning, scrolling and
//! culling, and collision against the player's hurtbox.
//!
//! Vertical physics is per frame, not per elapsed time: every update adds
//! the gravity constant to the velocity and the velocity to the position,
//! then clamps at the floor. Gravity is added even while grounded, giving
//! one frame of downward velocity that the floor clamp immediately zeroes
//! again; that is deliberate, observed behavior.

use vstd::prelude::*;
use crate::config;
use crate::geom;
use crate::geom::Rect;
use crate::obstacle::{Obstacle, spawn_obstacle, spec_spawned_obstacle};
use crate::score_type;
use crate::game_over_stage::GameOverStage;
use crate::stages::GameStage;
use crate::stages::PersistentData;
use crate::stages::StageTransition;

verus! {

/// All state a run of the game accumulates. Positions and velocities are
/// in millipixels (per frame), timers in milliseconds, the scroll speed
/// in pixels per second.
pub struct PlayingStage {
    /// Bottom edge of the player's hurtbox, millipixels; grows downward.
    pub player_y_position: i64,
    /// Vertical velocity, millipixels per frame; negative is upward.
    pub player_velocity_y: i64,
    /// Whether the previous frame ended with the player clamped to the floor.
    pub is_on_floor: bool,
    /// Live obstacles, in spawn order.
    pub obstacles: Vec<Obstacle>,
    /// Milliseconds until the next obstacle spawn.
    pub spawn_timer: i64,
    /// Current scroll speed, pixels per second.
    pub scroll_speed: u32,
    /// Score of this run.
    pub score: u32,
    /// Milliseconds accumulated toward the next score increment.
    pub score_timer: i64,
}

/// The vertical velocity after the input and gravity steps of one frame:
/// a jump from the floor replaces the velocity by the jump impulse, and
/// gravity is added unconditionally.
pub open spec fn spec_vel_step(v: int, on_floor: bool, jump: bool) -> int {
    (if jump && on_floor {
        config::JUMP_FORCE as int
    } else {
        v
    }) + config::GRAVITY
}

/// Whether integrating this frame's velocity carries the player to or
/// past the floor, so that the position is clamped there.
pub open spec fn spec_lands(y: int, v: int, on_floor: bool, jump: bool) -> bool {
    y + spec_vel_step(v, on_floor, jump) >= config::FLOOR_Y_POSITION
}

/// The invariant of the vertical physics: the player never sinks below
/// the floor line nor rises above the viewport origin, the velocity is a
/// multiple of the gravity constant bounded below by the jump impulse,
/// and, falling or rising, the velocity is bounded by the distance left
/// to travel (the two quadratic bounds), so it can never grow without
/// limit.
pub open spec fn spec_phys_inv(y: int, v: int, on_floor: bool) -> bool {
    &&& 0 <= y <= config::FLOOR_Y_POSITION
    &&& on_floor ==> y == config::FLOOR_Y_POSITION && v == 0
    &&& config::JUMP_FORCE <= v
    &&& v % (config::GRAVITY as int) == 0
    &&& v < 0 ==> 2 * (config::GRAVITY as int) * y >= v * v + (config::GRAVITY as int) * v
    &&& v >= 0 ==> v * v <= 2 * (config::GRAVITY as int) * y
}

/// The physics invariant bounds the velocity by a small constant.
pub proof fn lemma_phys_inv_bounds(y: int, v: int, on_floor: bool)
    requires
        spec_phys_inv(y, v, on_floor),
    ensures
        config::JUMP_FORCE <= v <= 27_000,
{
    if v >= 0 {
        assert(v * v <= 2 * 1000 * 350_000);
        assert(v <= 27_000) by (nonlinear_arith)
            requires
                v >= 0,
                v * v <= 700_000_000,
        ;
    }
}

/// One frame of vertical physics preserves the physics invariant.
pub proof fn lemma_phys_step(y: int, v: int, on_floor: bool, jump: bool)
    requires
        spec_phys_inv(y, v, on_floor),
    ensures
        ({
            let v1 = spec_vel_step(v, on_floor, jump);
            let lands = spec_lands(y, v, on_floor, jump);
            spec_phys_inv(
                if lands {
                    config::FLOOR_Y_POSITION as int
                } else {
                    y + v1
                },
                if lands {
                    0
                } else {
                    v1
                },
                lands,
            )
        }),
{
    let g = config::GRAVITY as int;
    let v_in = if jump && on_floor {
        config::JUMP_FORCE as int
    } else {
        v
    };
    let v1 = v_in + g;
    let lands = y + v1 >= config::FLOOR_Y_POSITION;
    assert(v1 % g == 0);
    if !lands {
        let y2 = y + v1;
        // lower velocity bound
        assert(v1 >= config::JUMP_FORCE + g);
        // the falling bound: v1 < 0 ==> 2*g*y2 >= v1*v1 + g*v1
        if v1 < 0 {
            if jump && on_floor {
                // concrete: y == floor, v1 == jump + gravity
                assert(2 * g * (y + v1) >= v1 * v1 + g * v1) by (nonlinear_arith)
                    requires
                        g == 1000,
                        y == 350_000,
                        v1 == -24_000,
                ;
            } else {
                // v1 == v + g and v < 0, so the bound for v carries over
                assert(v < 0);
                assert(2 * g * (y + v1) >= v1 * v1 + g * v1) by (nonlinear_arith)
                    requires
                        v1 == v + g,
                        2 * g * y >= v * v + g * v,
                ;
            }
        }
        // the rising-to-falling bound: v1 >= 0 ==> v1*v1 <= 2*g*y2
        if v1 >= 0 {
            assert(!(jump && on_floor));
            if v >= 0 {
                assert(v1 * v1 <= 2 * g * (y + v1)) by (nonlinear_arith)
                    requires
                        v1 == v + g,
                        g > 0,
                        v >= 0,
                        v * v <= 2 * g * y,
                ;
            } else {
                // v is a negative multiple of g with v + g >= 0, so v == -g
                assert(v == -g);
                assert(v1 == 0);
            }
        }
        // the player never leaves the viewport: y2 >= 0
        if v1 >= 0 {
            assert(y2 >= 0);
        } else {
            if jump && on_floor {
                assert(y2 == 350_000 - 24_000);
            } else {
                // v <= -2g, so 2*g*y2 >= v1*(v1 + g) >= 0
                assert(v < -g);
                assert(v <= -2 * g);
                assert(y2 >= 0) by (nonlinear_arith)
                    requires
                        v1 == v + g,
                        y2 == y + v1,
                        g == 1000,
                        v <= -2 * g,
                        2 * g * y >= v * v + g * v,
                ;
            }
        }
    }
}

/// Whether the score timer, after accumulating this frame's elapsed
/// time, reaches the tick length, so the score goes up by one and the
/// accumulator hard-resets to zero.
pub open spec fn spec_score_ticks(score_timer: int, dt: int) -> bool {
    score_timer + dt >= config::SCORE_TICK_MS
}

/// Whether the spawn countdown, after this frame's elapsed time, reaches
/// zero or below, so a new obstacle spawns and the countdown is reseeded.
pub open spec fn spec_spawn_triggered(spawn_timer: int, dt: int) -> bool {
    spawn_timer - dt <= 0
}

/// An obstacle is live while its right edge has not passed the left
/// viewport edge.
pub open spec fn spec_live(o: Obstacle) -> bool {
    o.rect.x + o.rect.w > 0
}

/// The obstacle moved left by the given scroll distance (millipixels).
pub open spec fn spec_scroll_obstacle(o: Obstacle, dist: int) -> Obstacle {
    Obstacle {
        rect: Rect { x: (o.rect.x - dist) as i64, y: o.rect.y, w: o.rect.w, h: o.rect.h },
        kind: o.kind,
    }
}

/// Every obstacle moved left by the same scroll distance; relative order
/// is kept.
pub open spec fn spec_scroll_all(obs: Seq<Obstacle>, dist: int) -> Seq<Obstacle> {
    obs.map_values(|o: Obstacle| spec_scroll_obstacle(o, dist))
}

/// The live obstacles, in unchanged relative order.
pub open spec fn spec_cull(obs: Seq<Obstacle>) -> Seq<Obstacle> {
    obs.filter(|o: Obstacle| spec_live(o))
}

/// The obstacle list after one frame's scrolling and culling.
pub open spec fn spec_obstacles_after(obs: Seq<Obstacle>, dist: int) -> Seq<Obstacle> {
    spec_cull(spec_scroll_all(obs, dist))
}

/// Culling one appended obstacle keeps it exactly when it is live.
proof fn lemma_cull_push(s: Seq<Obstacle>, x: Obstacle)
    ensures
        spec_cull(s.push(x)) == (if spec_live(x) {
            spec_cull(s).push(x)
        } else {
            spec_cull(s)
        }),
{
    reveal(Seq::filter);
    assert(s.push(x).drop_last() =~= s);
    assert(s.push(x).last() == x);
}

/// The player's square hurtbox for a given vertical position: centered
/// horizontally at the fixed player column, its bottom edge at `y`.
pub open spec fn spec_hurtbox(y: int) -> Rect {
    Rect {
        x: (config::PLAYER_X_POSITION - config::PLAYER_RADIUS) as i64,
        y: (y - 2 * config::PLAYER_RADIUS) as i64,
        w: (2 * config::PLAYER_RADIUS) as i64,
        h: (2 * config::PLAYER_RADIUS) as i64,
    }
}

/// Whether any live obstacle overlaps the player's hurtbox.
pub open spec fn spec_player_hit(y: int, obs: Seq<Obstacle>) -> bool {
    exists|i: int| 0 <= i < obs.len() && geom::spec_overlaps(spec_hurtbox(y), obs[i].rect)
}

/// The full frame relation of the playing stage, given the two random
/// draws `kind` (obstacle kind index) and `delay` (next spawn countdown,
/// milliseconds): how every field of the post state arises from the pre
/// state, and what transition and high-score update the frame produces.
/// When no spawn triggers, the draws are irrelevant.
pub open spec fn spec_update_post(
    pre: PlayingStage,
    post: PlayingStage,
    pd_pre: PersistentData,
    pd_post: PersistentData,
    t: StageTransition,
    dt: int,
    jump: bool,
    screen_width_px: int,
    kind: int,
    delay: int,
) -> bool {
    let v1 = spec_vel_step(pre.player_velocity_y as int, pre.is_on_floor, jump);
    let lands = spec_lands(
        pre.player_y_position as int,
        pre.player_velocity_y as int,
        pre.is_on_floor,
        jump,
    );
    let ticks = spec_score_ticks(pre.score_timer as int, dt);
    let new_score: int = if ticks {
        pre.score + 1
    } else {
        pre.score as int
    };
    let triggered = spec_spawn_triggered(pre.spawn_timer as int, dt);
    let spawned = if triggered {
        pre.obstacles@.push(spec_spawned_obstacle(screen_width_px * 1000, kind))
    } else {
        pre.obstacles@
    };
    let speed = score_type::spec_scroll_speed(new_score);
    let hit = spec_player_hit(post.player_y_position as int, post.obstacles@);
    &&& post.player_velocity_y as int == (if lands {
        0
    } else {
        v1
    })
    &&& post.player_y_position as int == (if lands {
        config::FLOOR_Y_POSITION as int
    } else {
        pre.player_y_position + v1
    })
    &&& post.is_on_floor == lands
    &&& post.score as int == new_score
    &&& post.score_timer as int == (if ticks {
        0
    } else {
        pre.score_timer + dt
    })
    &&& post.scroll_speed == speed
    &&& post.spawn_timer as int == (if triggered {
        delay
    } else {
        pre.spawn_timer - dt
    })
    &&& post.obstacles@ == spec_obstacles_after(spawned, speed * dt)
    &&& hit ==> (t matches StageTransition::Switch(GameStage::GameOver(go)) && go.final_score
        == post.score)
    &&& hit ==> pd_post.high_score as int == (if pd_pre.high_score >= post.score {
        pd_pre.high_score as int
    } else {
        post.score as int
    })
    &&& !hit ==> (t matches StageTransition::Stay)
    &&& !hit ==> pd_post == pd_pre
}

/// The frame relation of the playing stage with the random draws
/// abstracted away: the frame relation holds for some in-range kind
/// index and spawn delay.
pub open spec fn spec_playing_frame(
    pre: PlayingStage,
    post: PlayingStage,
    pd_pre: PersistentData,
    pd_post: PersistentData,
    t: StageTransition,
    dt: int,
    jump: bool,
    screen_width_px: int,
) -> bool {
    exists|kind: int, delay: int|
        0 <= kind < 3 && config::OBSTACLE_SPAWN_TIMER_MIN_MS <= delay
            < config::OBSTACLE_SPAWN_TIMER_MAX_MS && spec_update_post(
            pre,
            post,
            pd_pre,
            pd_post,
            t,
            dt,
            jump,
            screen_width_px,
            kind,
            delay,
        )
}

/// Relies on macroquad::rand::gen_range (quad-rand's integer instances):
/// it scales a 32-bit generator output into `[low, high)` through exact
/// f64 arithmetic and truncates, so for bounds up to 2^16 every
/// intermediate value is computed exactly and the result lies in
/// `[low, high)`.
#[verifier::external_body]
fn gen_range_u32(low: u32, high: u32) -> (r: u32)
    requires
        low < high,
        high <= 0x10000,
    ensures
        low <= r < high,
{
    macroquad::rand::gen_range(low, high)
}

/// A freshly constructed playing stage: fixed start height, zero
/// velocity, airborne, no obstacles, default spawn countdown, base
/// scroll speed, zero score.
pub open spec fn spec_is_initial(p: PlayingStage) -> bool {
    &&& p.player_y_position == config::PLAYER_START_Y
    &&& p.player_velocity_y == 0
    &&& !p.is_on_floor
    &&& p.obstacles@.len() == 0
    &&& p.spawn_timer == config::OBSTACLE_SPAWN_TIMER_INITIAL_MS
    &&& p.scroll_speed == config::SCROLL_SPEED_INITIAL
    &&& p.score == 0
    &&& p.score_timer == 0
}

impl PlayingStage {
    /// Well-formedness: the physics invariant, the timers inside their
    /// accumulation windows, the scroll speed inside the tier table's
    /// range, and every live obstacle well formed.
    pub open spec fn wf(self) -> bool {
        &&& spec_phys_inv(
            self.player_y_position as int,
            self.player_velocity_y as int,
            self.is_on_floor,
        )
        &&& 0 <= self.spawn_timer <= config::OBSTACLE_SPAWN_TIMER_MAX_MS
        &&& 0 <= self.score_timer < config::SCORE_TICK_MS
        &&& config::SCROLL_SPEED_INITIAL <= self.scroll_speed <= config::SCROLL_SPEED_TIER5
        &&& forall|i: int|
            0 <= i < self.obstacles@.len() ==> (#[trigger] self.obstacles@[i]).wf()
    }

    pub fn new(_screen_width: u32, _screen_height: u32) -> (s: PlayingStage)
        ensures
            spec_is_initial(s),
            s.wf(),
    {
        PlayingStage {
            player_y_position: config::PLAYER_START_Y,
            player_velocity_y: 0,
            is_on_floor: false,
            obstacles: Vec::new(),
            spawn_timer: config::OBSTACLE_SPAWN_TIMER_INITIAL_MS,
            scroll_speed: config::SCROLL_SPEED_INITIAL,
            score: 0,
            score_timer: 0,
        }
    }

    /// One frame of the playing stage with the two random draws supplied
    /// by the caller, so the whole step is deterministic: physics, score
    /// accrual, speed tier, spawning, scrolling and culling, then
    /// collision. On the first overlapping obstacle the persistent high
    /// score is raised to the final score and the stage asks to switch to
    /// a game-over stage carrying that score.
    #[verifier::loop_isolation(false)]
    pub fn update_with_draws(
        &mut self,
        dt_ms: u32,
        jump_pressed: bool,
        persistent_data: &mut PersistentData,
        screen_width: u32,
        screen_height: u32,
        spawn_kind_index: u32,
        spawn_delay_ms: u32,
    ) -> (t: StageTransition)
        requires
            old(self).wf(),
            old(self).score < u32::MAX,
            spawn_kind_index < 3,
            config::OBSTACLE_SPAWN_TIMER_MIN_MS <= spawn_delay_ms
                < config::OBSTACLE_SPAWN_TIMER_MAX_MS,
        ensures
            final(self).wf(),
            spec_update_post(
                *old(self),
                *final(self),
                *old(persistent_data),
                *final(persistent_data),
                t,
                dt_ms as int,
                jump_pressed,
                screen_width as int,
                spawn_kind_index as int,
                spawn_delay_ms as int,
            ),
    {
        proof {
            lemma_phys_inv_bounds(
                self.player_y_position as int,
                self.player_velocity_y as int,
                self.is_on_floor,
            );
            lemma_phys_step(
                self.player_y_position as int,
                self.player_velocity_y as int,
                self.is_on_floor,
                jump_pressed,
            );
        }
        // vertical physics: jump impulse, gravity, integration, floor clamp
        if jump_pressed && self.is_on_floor {
            self.player_velocity_y = config::JUMP_FORCE;
        }
        self.player_velocity_y = self.player_velocity_y + config::GRAVITY;
        self.player_y_position = self.player_y_position + self.player_velocity_y;
        if self.player_y_position >= config::FLOOR_Y_POSITION {
            self.player_y_position = config::FLOOR_Y_POSITION;
            self.player_velocity_y = 0;
            self.is_on_floor = true;
        } else {
            self.is_on_floor = false;
        }
        assert(spec_phys_inv(
            self.player_y_position as int,
            self.player_velocity_y as int,
            self.is_on_floor,
        ));
        // score accrual: hard reset of the accumulator, one increment at most
        let dt_i64 = dt_ms as i64;
        self.score_timer = self.score_timer + dt_i64;
        if self.score_timer >= config::SCORE_TICK_MS {
            self.score = self.score + 1;
            self.score_timer = 0;
        }
        // scroll speed follows the tier of the fresh absolute score
        self.scroll_speed = score_type::scroll_speed_for_score(self.score);
        // spawning: reseed the countdown and append a new obstacle
        self.spawn_timer = self.spawn_timer - dt_i64;
        if self.spawn_timer <= 0 {
            self.spawn_timer = spawn_delay_ms as i64;
            let new_obstacle = spawn_obstacle((screen_width as i64) * 1000, spawn_kind_index);
            self.obstacles.push(new_obstacle);
        }
        let ghost s0 = *self;
        let ghost obs_after_spawn = self.obstacles@;
        assert(forall|k: int|
            0 <= k < obs_after_spawn.len() ==> (#[trigger] obs_after_spawn[k]).wf());
        assert(config::SCROLL_SPEED_INITIAL <= self.scroll_speed <= config::SCROLL_SPEED_TIER5);
        // scrolling: every obstacle, the fresh one included, moves left
        proof {
            assert(0 <= (self.scroll_speed as i64) * dt_i64 <= 3_435_973_836_000i64)
                by (nonlinear_arith)
                requires
                    0 <= self.scroll_speed <= 800,
                    0 <= dt_i64 <= 4_294_967_295i64,
            ;
        }
        let dist: i64 = (self.scroll_speed as i64) * dt_i64;
        let n = self.obstacles.len();
        let mut i: usize = 0;
        while i < n
            invariant
                *self == (PlayingStage { obstacles: self.obstacles, ..s0 }),
                self.obstacles@.len() == n,
                i <= n,
                forall|k: int|
                    0 <= k < i ==> self.obstacles@[k] == spec_scroll_obstacle(
                        obs_after_spawn[k],
                        dist as int,
                    ),
                forall|k: int| i <= k < n ==> self.obstacles@[k] == obs_after_spawn[k],
            decreases n - i,
        {
            let o = self.obstacles[i];
            assert(obs_after_spawn[i as int].wf());
            self.obstacles.set(
                i,
                Obstacle {
                    rect: Rect { x: o.rect.x - dist, y: o.rect.y, w: o.rect.w, h: o.rect.h },
                    kind: o.kind,
                },
            );
            i = i + 1;
        }
        proof {
            assert(self.obstacles@ =~= spec_scroll_all(obs_after_spawn, dist as int));
        }
        // culling: only obstacles whose right edge is still past the left
        // viewport edge survive, in unchanged order
        let ghost moved = self.obstacles@;
        let mut kept: Vec<Obstacle> = Vec::new();
        let mut j: usize = 0;
        while j < n
            invariant
                self.obstacles@ == moved,
                moved.len() == n,
                j <= n,
                kept@ == spec_cull(moved.take(j as int)),
                forall|k: int| 0 <= k < kept@.len() ==> (#[trigger] kept@[k]).wf(),
            decreases n - j,
        {
            let o = self.obstacles[j];
            proof {
                assert(moved[j as int] == spec_scroll_obstacle(
                    obs_after_spawn[j as int],
                    dist as int,
                ));
                assert(obs_after_spawn[j as int].wf());
                assert(moved.take(j as int + 1) =~= moved.take(j as int).push(moved[j as int]));
                lemma_cull_push(moved.take(j as int), moved[j as int]);
            }
            if o.rect.x + o.rect.w > 0 {
                kept.push(o);
            }
            j = j + 1;
        }
        proof {
            assert(moved.take(n as int) =~= moved);
        }
        self.obstacles = kept;
        // collision: test obstacles in spawn order against the hurtbox
        let hurtbox = Rect {
            x: config::PLAYER_X_POSITION - config::PLAYER_RADIUS,
            y: self.player_y_position - 2 * config::PLAYER_RADIUS,
            w: 2 * config::PLAYER_RADIUS,
            h: 2 * config::PLAYER_RADIUS,
        };
        assert(hurtbox == spec_hurtbox(self.player_y_position as int));
        let mut c: usize = 0;
        let obstacle_count = self.obstacles.len();
        while c < obstacle_count
            invariant
                *persistent_data == *old(persistent_data),
                obstacle_count == self.obstacles@.len(),
                c <= obstacle_count,
                forall|m: int|
                    0 <= m < c ==> !geom::spec_overlaps(
                        spec_hurtbox(self.player_y_position as int),
                        self.obstacles@[m].rect,
                    ),
            decreases obstacle_count - c,
        {
            let ob = self.obstacles[c];
            if hurtbox.overlaps(&ob.rect) {
                if persistent_data.high_score < self.score {
                    persistent_data.high_score = self.score;
                }
                return StageTransition::Switch(
                    GameStage::GameOver(GameOverStage::new(self.score, screen_width, screen_height)),
                );
            }
            c = c + 1;
        }
        StageTransition::Stay
    }

    /// One frame of the playing stage, drawing the spawn randomness from
    /// the process-wide generator. Whatever the draws come out as, the
    /// frame satisfies the frame relation for some in-range kind index
    /// and spawn delay, and the laws below hold of every frame.
    pub fn update(
        &mut self,
        dt_ms: u32,
        jump_pressed: bool,
        persistent_data: &mut PersistentData,
        screen_width: u32,
        screen_height: u32,
    ) -> (t: StageTransition)
        requires
            old(self).wf(),
            old(self).score < u32::MAX,
        ensures
            final(self).wf(),
            spec_playing_frame(
                *old(self),
                *final(self),
                *old(persistent_data),
                *final(persistent_data),
                t,
                dt_ms as int,
                jump_pressed,
                screen_width as int,
            ),
            // on a frame with no spawn the draws are irrelevant, so the whole
            // frame is deterministic
            !spec_spawn_triggered(old(self).spawn_timer as int, dt_ms as int) ==> spec_update_post(
                *old(self),
                *final(self),
                *old(persistent_data),
                *final(persistent_data),
                t,
                dt_ms as int,
                jump_pressed,
                screen_width as int,
                0,
                config::OBSTACLE_SPAWN_TIMER_MIN_MS as int,
            ),
            // law: on a frame that starts and ends airborne with no jump input,
            // the vertical velocity grows by exactly the gravity constant
            !old(self).is_on_floor && !jump_pressed && !final(self).is_on_floor ==> final(self).player_velocity_y == old(self).player_velocity_y + config::GRAVITY,
            // law: when integration would carry the player to or past the floor,
            // the position is clamped exactly to it and the velocity zeroed
            spec_lands(
                old(self).player_y_position as int,
                old(self).player_velocity_y as int,
                old(self).is_on_floor,
                jump_pressed,
            ) ==> final(self).player_y_position == config::FLOOR_Y_POSITION && final(self).player_velocity_y == 0,
            // law: when the score accumulator crosses the tick length the score
            // goes up by exactly one, however large the frame was, and the
            // accumulator hard-resets to zero instead of carrying a remainder
            spec_score_ticks(old(self).score_timer as int, dt_ms as int) ==> final(self).score
                == old(self).score + 1 && final(self).score_timer == 0,
            !spec_score_ticks(old(self).score_timer as int, dt_ms as int) ==> final(self).score
                == old(self).score && final(self).score_timer as int == old(self).score_timer
                + dt_ms,
            // law: the scroll speed is the tier of the current absolute score
            final(self).scroll_speed == score_type::spec_scroll_speed(final(self).score as int),
            // law: every obstacle still in the live collection has its right
            // edge past the left viewport edge
            forall|i: int|
                0 <= i < final(self).obstacles@.len() ==> spec_live(
                    #[trigger] final(self).obstacles@[i],
                ),
            // the persistent high score never decreases
            final(persistent_data).high_score >= old(persistent_data).high_score,
    {
        let triggered = self.spawn_timer - (dt_ms as i64) <= 0;
        let spawn_delay_ms: u32 = if triggered {
            gen_range_u32(
                config::OBSTACLE_SPAWN_TIMER_MIN_MS,
                config::OBSTACLE_SPAWN_TIMER_MAX_MS,
            )
        } else {
            config::OBSTACLE_SPAWN_TIMER_MIN_MS
        };
        let spawn_kind_index: u32 = if triggered {
            gen_range_u32(0, 3)
        } else {
            0
        };
        self.update_with_draws(
            dt_ms,
            jump_pressed,
            persistent_data,
            screen_width,
            screen_height,
            spawn_kind_index,
            spawn_delay_ms,
        )
    }
}

} // verus!
