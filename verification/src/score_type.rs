//! The score thresholds at which the scroll speed steps up, and the
//! resulting speed as a pure function of the current score.

use vstd::prelude::*;
use crate::config;

verus! {

/// The five ascending score thresholds of the speed tier table.
#[derive(Clone, Copy, Debug, PartialEq, Eq, Structural)]
pub enum ScoreType {
    FirstValue,
    SecondValue,
    ThirdValue,
    FourthValue,
    FifthValue,
}

impl ScoreType {
    /// The score value of this threshold.
    pub open spec fn spec_value(self) -> u32 {
        match self {
            ScoreType::FirstValue => 1_000,
            ScoreType::SecondValue => 5_000,
            ScoreType::ThirdValue => 10_000,
            ScoreType::FourthValue => 20_000,
            ScoreType::FifthValue => 50_000,
        }
    }

    pub fn value(self) -> (v: u32)
        ensures
            v == self.spec_value(),
    {
        match self {
            ScoreType::FirstValue => 1_000,
            ScoreType::SecondValue => 5_000,
            ScoreType::ThirdValue => 10_000,
            ScoreType::FourthValue => 20_000,
            ScoreType::FifthValue => 50_000,
        }
    }
}

/// Scroll speed as a step function of the score, in pixels per second:
/// the largest threshold not exceeding the score wins, each threshold
/// included in its own (higher) tier, and below every threshold the base
/// speed applies.
pub open spec fn spec_scroll_speed(score: int) -> u32 {
    if score >= ScoreType::FifthValue.spec_value() {
        config::SCROLL_SPEED_TIER5
    } else if score >= ScoreType::FourthValue.spec_value() {
        config::SCROLL_SPEED_TIER4
    } else if score >= ScoreType::ThirdValue.spec_value() {
        config::SCROLL_SPEED_TIER3
    } else if score >= ScoreType::SecondValue.spec_value() {
        config::SCROLL_SPEED_TIER2
    } else if score >= ScoreType::FirstValue.spec_value() {
        config::SCROLL_SPEED_TIER1
    } else {
        config::SCROLL_SPEED_INITIAL
    }
}

/// Evaluates the speed tier table on the current score.
pub fn scroll_speed_for_score(score: u32) -> (speed: u32)
    ensures
        speed == spec_scroll_speed(score as int),
{
    if score >= ScoreType::FifthValue.value() {
        config::SCROLL_SPEED_TIER5
    } else if score >= ScoreType::FourthValue.value() {
        config::SCROLL_SPEED_TIER4
    } else if score >= ScoreType::ThirdValue.value() {
        config::SCROLL_SPEED_TIER3
    } else if score >= ScoreType::SecondValue.value() {
        config::SCROLL_SPEED_TIER2
    } else if score >= ScoreType::FirstValue.value() {
        config::SCROLL_SPEED_TIER1
    } else {
        config::SCROLL_SPEED_INITIAL
    }
}

/// Law: the scroll speed depends on the score alone, never falls as the
/// score grows, and always lies between the base speed and the top tier.
pub proof fn lemma_scroll_speed_monotonic(score_a: int, score_b: int)
    requires
        score_a <= score_b,
    ensures
        spec_scroll_speed(score_a) <= spec_scroll_speed(score_b),
        config::SCROLL_SPEED_INITIAL <= spec_scroll_speed(score_a) <= config::SCROLL_SPEED_TIER5,
{
}

} // verus!
