use soot_sprint::game_over_stage::GameOverStage;
use soot_sprint::obstacle::{Obstacle, ObstacleType};
use soot_sprint::playing_stage::PlayingStage;
use soot_sprint::stages::{PersistentData, StageTransition, GameStage};

const SW: u32 = 800;
const SH: u32 = 600;

fn fresh() -> (PlayingStage, PersistentData) {
    (PlayingStage::new(SW, SH), PersistentData::new())
}

#[test]
fn new_playing_stage_is_reset() {
    let (s, _) = fresh();
    assert_eq!(s.player_y_position, 100_000);
    assert_eq!(s.player_velocity_y, 0);
    assert!(!s.is_on_floor);
    assert!(s.obstacles.is_empty());
    assert_eq!(s.spawn_timer, 2_000);
    assert_eq!(s.scroll_speed, 300);
    assert_eq!(s.score, 0);
    assert_eq!(s.score_timer, 0);
}

#[test]
fn falling_player_reaches_floor_exactly() {
    // Fifty frames at roughly 1/60 s, no jump input: the player falls from
    // the start height and must come to rest exactly on the floor line.
    let (mut s, mut pd) = fresh();
    for _ in 0..50 {
        let t = s.update(16, false, &mut pd, SW, SH);
        assert!(matches!(t, StageTransition::Stay));
    }
    assert_eq!(s.player_y_position, 350_000);
    assert_eq!(s.player_velocity_y, 0);
    assert!(s.is_on_floor);
    assert!(s.obstacles.is_empty());
}

#[test]
fn gravity_accelerates_airborne_player_each_frame() {
    // Closed-form integration: v_n = n * gravity, y_n = start + sum of v.
    let (mut s, mut pd) = fresh();
    let mut expected_v: i64 = 0;
    let mut expected_y: i64 = 100_000;
    for _ in 0..21 {
        s.update(16, false, &mut pd, SW, SH);
        expected_v += 1_000;
        expected_y += expected_v;
        assert_eq!(s.player_velocity_y, expected_v);
        assert_eq!(s.player_y_position, expected_y);
        assert!(!s.is_on_floor);
    }
    // the twenty-second frame would pass the floor and is clamped to it
    s.update(16, false, &mut pd, SW, SH);
    assert_eq!(s.player_y_position, 350_000);
    assert_eq!(s.player_velocity_y, 0);
    assert!(s.is_on_floor);
}

#[test]
fn jump_from_floor_sets_impulse_then_gravity() {
    let (mut s, mut pd) = fresh();
    for _ in 0..30 {
        s.update(16, false, &mut pd, SW, SH);
    }
    assert!(s.is_on_floor);
    s.update(16, true, &mut pd, SW, SH);
    // jump impulse -25000, then gravity +1000, then integration
    assert_eq!(s.player_velocity_y, -24_000);
    assert_eq!(s.player_y_position, 350_000 - 24_000);
    assert!(!s.is_on_floor);
}

#[test]
fn jump_input_while_airborne_is_ignored() {
    let (mut s, mut pd) = fresh();
    s.update(16, true, &mut pd, SW, SH);
    // airborne from the start: the jump key does nothing
    assert_eq!(s.player_velocity_y, 1_000);
    assert_eq!(s.player_y_position, 101_000);
}

#[test]
fn score_increments_once_per_tick_crossing() {
    let (mut s, mut pd) = fresh();
    // a frame far longer than the tick still scores exactly one point,
    // and the accumulator hard-resets to zero instead of carrying over
    s.update(250, false, &mut pd, SW, SH);
    assert_eq!(s.score, 1);
    assert_eq!(s.score_timer, 0);
    // just below the tick: no score, accumulator keeps the time
    s.update(99, false, &mut pd, SW, SH);
    assert_eq!(s.score, 1);
    assert_eq!(s.score_timer, 99);
    // one more millisecond crosses the boundary
    s.update(1, false, &mut pd, SW, SH);
    assert_eq!(s.score, 2);
    assert_eq!(s.score_timer, 0);
}

#[test]
fn fifty_frames_accrue_seven_score_ticks() {
    let (mut s, mut pd) = fresh();
    for _ in 0..50 {
        s.update(16, false, &mut pd, SW, SH);
    }
    // 16 ms per frame crosses the 100 ms tick every seventh frame
    assert_eq!(s.score, 7);
    assert_eq!(s.score_timer, 16);
}

#[test]
fn scroll_speed_steps_up_when_score_reaches_threshold() {
    let (mut s, mut pd) = fresh();
    s.score = 999;
    s.update(99, false, &mut pd, SW, SH);
    assert_eq!(s.score, 999);
    assert_eq!(s.scroll_speed, 300);
    s.update(100, false, &mut pd, SW, SH);
    assert_eq!(s.score, 1_000);
    assert_eq!(s.scroll_speed, 400);
}

#[test]
fn forced_spawn_with_kind_b_geometry() {
    // Spawn timer forced to zero; the injected draws pick the floating
    // kind (index 1) and a 1500 ms reseed.
    let (mut s, mut pd) = fresh();
    s.spawn_timer = 0;
    let t = s.update_with_draws(16, false, &mut pd, SW, SH, 1, 1_500);
    assert!(matches!(t, StageTransition::Stay));
    assert_eq!(s.obstacles.len(), 1);
    let o = &s.obstacles[0];
    assert_eq!(o.kind, ObstacleType::Object1);
    assert_eq!(o.rect.w, 70_000);
    assert_eq!(o.rect.h, 100_000);
    // y = floor - default height - clearance - own height
    assert_eq!(o.rect.y, 350_000 - 60_000 - 30_000 - 100_000);
    // spawned at the right viewport edge, then scrolled this same frame
    assert_eq!(o.rect.x, 800_000 - 300 * 16);
    assert_eq!(s.spawn_timer, 1_500);
}

#[test]
fn forced_spawn_with_ground_kind_geometry() {
    let (mut s, mut pd) = fresh();
    s.spawn_timer = 0;
    s.update_with_draws(16, false, &mut pd, SW, SH, 0, 2_000);
    let o = &s.obstacles[0];
    assert_eq!(o.kind, ObstacleType::Object0);
    assert_eq!(o.rect.w, 80_000);
    assert_eq!(o.rect.h, 60_000);
    assert_eq!(o.rect.y, 350_000 - 60_000);
    assert_eq!(s.spawn_timer, 2_000);
}

#[test]
fn obstacles_scroll_left_each_frame() {
    let (mut s, mut pd) = fresh();
    s.obstacles.push(Obstacle::new(400_000, 290_000, 80_000, 60_000, ObstacleType::Object0));
    s.update(16, false, &mut pd, SW, SH);
    assert_eq!(s.obstacles.len(), 1);
    // scroll distance is speed (300 px/s) times 16 ms, in millipixels
    assert_eq!(s.obstacles[0].rect.x, 400_000 - 4_800);
}

#[test]
fn obstacle_past_left_edge_is_culled_on_next_update() {
    let (mut s, mut pd) = fresh();
    // right edge already at the left viewport edge: x + w == 0
    s.obstacles.push(Obstacle::new(-80_000, 290_000, 80_000, 60_000, ObstacleType::Object0));
    // a second obstacle that stays alive
    s.obstacles.push(Obstacle::new(300_000, 290_000, 80_000, 60_000, ObstacleType::Object2));
    s.update(16, false, &mut pd, SW, SH);
    assert_eq!(s.obstacles.len(), 1);
    assert_eq!(s.obstacles[0].kind, ObstacleType::Object2);
    assert_eq!(s.obstacles[0].rect.x, 300_000 - 4_800);
}

#[test]
fn obstacle_barely_alive_survives_until_it_is_not() {
    let (mut s, mut pd) = fresh();
    // x + w = 5000 millipixels past the left edge: one 16 ms frame scrolls
    // 4800, leaving it barely alive; the next frame removes it
    s.obstacles.push(Obstacle::new(-75_000, 290_000, 80_000, 60_000, ObstacleType::Object1));
    s.update(16, false, &mut pd, SW, SH);
    assert_eq!(s.obstacles.len(), 1);
    assert_eq!(s.obstacles[0].rect.x + s.obstacles[0].rect.w, 200);
    s.update(16, false, &mut pd, SW, SH);
    assert!(s.obstacles.is_empty());
}

#[test]
fn collision_switches_to_game_over_with_score_and_high_score() {
    let (mut s, mut pd) = fresh();
    s.score = 10;
    pd.high_score = 3;
    // overlaps the hurtbox column [35000, 115000] at the player's height
    s.obstacles.push(Obstacle::new(50_000, 30_000, 80_000, 60_000, ObstacleType::Object0));
    let t = s.update(16, false, &mut pd, SW, SH);
    match t {
        StageTransition::Switch(GameStage::GameOver(go)) => {
            assert_eq!(go.final_score, 10);
        }
        _ => panic!("expected a switch to the game-over stage"),
    }
    assert_eq!(pd.high_score, 10);
}

#[test]
fn collision_keeps_larger_high_score() {
    let (mut s, mut pd) = fresh();
    s.score = 4;
    pd.high_score = 9;
    s.obstacles.push(Obstacle::new(50_000, 30_000, 80_000, 60_000, ObstacleType::Object0));
    let t = s.update(16, false, &mut pd, SW, SH);
    assert!(matches!(t, StageTransition::Switch(GameStage::GameOver(_))));
    assert_eq!(pd.high_score, 9);
}

#[test]
fn no_collision_when_projections_disjoint() {
    let (mut s, mut pd) = fresh();
    // same column as the hurtbox but high above it on the y axis
    s.obstacles.push(Obstacle::new(50_000, -200_000, 80_000, 60_000, ObstacleType::Object0));
    let t = s.update(16, false, &mut pd, SW, SH);
    assert!(matches!(t, StageTransition::Stay));
    assert_eq!(pd.high_score, 0);
}

#[test]
fn random_spawn_reseeds_timer_into_range() {
    macroquad::rand::srand(20_240_601);
    let mut seen_other_than_min = false;
    let mut kinds = [false, false, false];
    for _ in 0..60 {
        let (mut s, mut pd) = fresh();
        s.spawn_timer = 0;
        s.update(16, false, &mut pd, SW, SH);
        assert!(s.spawn_timer >= 1_500);
        assert!(s.spawn_timer < 3_000);
        if s.spawn_timer != 1_500 {
            seen_other_than_min = true;
        }
        assert_eq!(s.obstacles.len(), 1);
        match s.obstacles[0].kind {
            ObstacleType::Object0 => kinds[0] = true,
            ObstacleType::Object1 => kinds[1] = true,
            ObstacleType::Object2 => kinds[2] = true,
        }
    }
    // the reseed draws from a range, not a constant, and every kind shows up
    assert!(seen_other_than_min);
    assert!(kinds[0] && kinds[1] && kinds[2]);
}

#[test]
fn no_spawn_before_timer_expires() {
    let (mut s, mut pd) = fresh();
    s.update(1_999, false, &mut pd, SW, SH);
    assert!(s.obstacles.is_empty());
    assert_eq!(s.spawn_timer, 1);
    s.update(1, false, &mut pd, SW, SH);
    assert_eq!(s.obstacles.len(), 1);
    assert!(s.spawn_timer >= 1_500 && s.spawn_timer < 3_000);
}

#[test]
fn game_over_stage_keeps_final_score() {
    let g = GameOverStage::new(777, SW, SH);
    assert_eq!(g.final_score, 777);
}
