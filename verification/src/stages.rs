//! The stage machine: the cross-stage persistent data, the per-frame
//! input snapshot, and the closed set of stages with its dispatcher.
//!
//! Exactly one stage is alive at a time. Each frame the driver calls
//! `GameStage::update`; the result says whether to stay in the current
//! stage or to replace it with a newly built one.

use vstd::prelude::*;
use crate::game_over_stage::GameOverStage;
use crate::intro_stage;
use crate::intro_stage::IntroStage;
use crate::playing_stage;
use crate::playing_stage::PlayingStage;

verus! {

/// The single value that outlives any stage: the best score seen in this
/// process. It never decreases.
#[derive(Debug)]
pub struct PersistentData {
    pub high_score: u32,
}

impl PersistentData {
    pub fn new() -> (p: PersistentData)
        ensures
            p.high_score == 0,
    {
        PersistentData { high_score: 0 }
    }
}

impl Default for PersistentData {
    fn default() -> (p: PersistentData)
        ensures
            p.high_score == 0,
    {
        PersistentData { high_score: 0 }
    }
}

/// Everything the driver polls for one frame: elapsed time and the three
/// point-in-time input queries. Mouse coordinates are in millipixels.
#[derive(Clone, Copy, Debug)]
pub struct FrameInput {
    pub dt_ms: u32,
    pub space_pressed: bool,
    pub mouse_pressed: bool,
    pub mouse_x: i64,
    pub mouse_y: i64,
}

/// What a stage's update step asks the driver to do next: keep the
/// current stage, or replace it with the carried one.
pub enum StageTransition {
    Stay,
    Switch(GameStage),
}

/// The closed set of stages, exactly one alive at a time.
pub enum GameStage {
    Intro(IntroStage),
    Playing(PlayingStage),
    GameOver(GameOverStage),
}

impl GameStage {
    pub open spec fn wf(self) -> bool {
        match self {
            GameStage::Intro(s) => s.wf(),
            GameStage::Playing(s) => s.wf(),
            GameStage::GameOver(_) => true,
        }
    }

    /// One frame of whichever stage is alive: dispatches to that stage's
    /// update step with the parts of the input it polls, and hands back
    /// its transition. The stage value itself never changes variant here;
    /// the driver applies the returned transition.
    pub fn update(
        &mut self,
        input: &FrameInput,
        persistent_data: &mut PersistentData,
        screen_width: u32,
        screen_height: u32,
    ) -> (t: StageTransition)
        requires
            old(self).wf(),
            *old(self) matches GameStage::Playing(p) ==> p.score < u32::MAX,
        ensures
            final(self).wf(),
            (*old(self) matches GameStage::Intro(s) ==> (*final(self) matches GameStage::Intro(s2)
                && intro_stage::spec_intro_post(
                s,
                s2,
                t,
                input.dt_ms as int,
                input.mouse_pressed,
                input.mouse_x as int,
                input.mouse_y as int,
                screen_width as int,
                screen_height as int,
            ) && *final(persistent_data) == *old(persistent_data))),
            (*old(self) matches GameStage::Playing(s) ==> (*final(self) matches GameStage::Playing(
                s2,
            ) && playing_stage::spec_playing_frame(
                s,
                s2,
                *old(persistent_data),
                *final(persistent_data),
                t,
                input.dt_ms as int,
                input.space_pressed,
                screen_width as int,
            ))),
            (*old(self) matches GameStage::GameOver(s) ==> (*final(self) matches GameStage::GameOver(
                s2,
            ) && s2 == s && *final(persistent_data) == *old(persistent_data) && (
            input.space_pressed ==> (t matches StageTransition::Switch(GameStage::Playing(p))
                && playing_stage::spec_is_initial(p))) && (!input.space_pressed ==> (
            t matches StageTransition::Stay)))),
            final(persistent_data).high_score >= old(persistent_data).high_score,
    {
        match self {
            GameStage::Intro(s) => s.update(
                input.dt_ms,
                input.mouse_pressed,
                input.mouse_x,
                input.mouse_y,
                screen_width,
                screen_height,
            ),
            GameStage::Playing(s) => s.update(
                input.dt_ms,
                input.space_pressed,
                persistent_data,
                screen_width,
                screen_height,
            ),
            GameStage::GameOver(s) => s.update(input.space_pressed, screen_width, screen_height),
        }
    }
}

} // verus!
