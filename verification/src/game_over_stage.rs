//! The game-over stage: it holds the final score of the run that just
//! ended and waits for the restart key, which starts a fresh playing
//! stage.

use vstd::prelude::*;
use crate::playing_stage::PlayingStage;
use crate::playing_stage;
use crate::stages::{GameStage, StageTransition};

verus! {

pub struct GameOverStage {
    pub final_score: u32,
}

impl GameOverStage {
    pub fn new(score: u32, _screen_width: u32, _screen_height: u32) -> (s: GameOverStage)
        ensures
            s.final_score == score,
    {
        GameOverStage { final_score: score }
    }

    /// One frame of the game-over stage: on the restart key, switch to a
    /// brand-new playing stage; otherwise stay. Nothing else changes.
    pub fn update(&mut self, space_pressed: bool, screen_width: u32, screen_height: u32) -> (t:
        StageTransition)
        ensures
            *final(self) == *old(self),
            space_pressed ==> (t matches StageTransition::Switch(g) && g matches GameStage::Playing(
                p,
            ) && playing_stage::spec_is_initial(p) && p.wf()),
            !space_pressed ==> (t matches StageTransition::Stay),
    {
        if space_pressed {
            return StageTransition::Switch(
                GameStage::Playing(PlayingStage::new(screen_width, screen_height)),
            );
        }
        StageTransition::Stay
    }
}

} // verus!
