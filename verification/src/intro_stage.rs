//! The intro stage: an ordered list of slides. The first slide is
//! advanced past on the very first update; later slides each stay up for
//! a fixed duration; the final slide waits until the start button is
//! clicked, which switches to a fresh playing stage.

use vstd::prelude::*;
use vstd::string::StringExecFns;
use crate::config;
use crate::geom;
use crate::geom::Rect;
use crate::playing_stage;
use crate::playing_stage::PlayingStage;
use crate::stages::GameStage;
use crate::stages::StageTransition;

verus! {

pub struct IntroStage {
    /// The slide texts, shown one at a time in order.
    pub slides: Vec<String>,
    pub current_slide_index: usize,
    /// Milliseconds the current slide has been up.
    pub slide_timer: i64,
    /// The start button, recomputed from the viewport every update.
    pub start_button_rect: Rect,
    /// Whether the very first update has already happened.
    pub first_frame_passed: bool,
}

/// Where the start button sits for a given viewport, in millipixels.
pub open spec fn spec_button_rect(screen_width: int, screen_height: int) -> Rect {
    Rect {
        x: (screen_width * 370) as i64,
        y: (screen_height * 500) as i64,
        w: config::INTRO_BUTTON_WIDTH,
        h: config::INTRO_BUTTON_HEIGHT,
    }
}

/// The slide bookkeeping after one intro frame: the very first update
/// advances past the first slide with no delay; afterwards the slide
/// timer accumulates, and each time it reaches the slide duration it
/// resets and the next slide comes up, except past the final slide.
/// The result is (slide index, slide timer, first-frame flag).
pub open spec fn spec_intro_slide_step(pre: IntroStage, dt: int) -> (int, int, bool) {
    if pre.current_slide_index == 0 && !pre.first_frame_passed {
        (if pre.slides@.len() > 1 {
            1int
        } else {
            0int
        }, 0int, true)
    } else if pre.slide_timer + dt >= config::INTRO_SLIDE_DURATION_MS {
        (
            if pre.current_slide_index < pre.slides@.len() - 1 {
                pre.current_slide_index + 1
            } else {
                pre.current_slide_index as int
            },
            0int,
            pre.first_frame_passed,
        )
    } else {
        (pre.current_slide_index as int, pre.slide_timer + dt, pre.first_frame_passed)
    }
}

/// The full frame relation of the intro stage: the button rectangle is
/// recomputed from the viewport, the slides advance as
/// `spec_intro_slide_step` says, and a mouse press inside the button
/// while the final slide is up switches to a fresh playing stage.
pub open spec fn spec_intro_post(
    pre: IntroStage,
    post: IntroStage,
    t: StageTransition,
    dt: int,
    mouse_pressed: bool,
    mouse_x: int,
    mouse_y: int,
    screen_width_px: int,
    screen_height_px: int,
) -> bool {
    let rect = spec_button_rect(screen_width_px, screen_height_px);
    let step = spec_intro_slide_step(pre, dt);
    let starts = mouse_pressed && geom::spec_contains(rect, mouse_x, mouse_y) && step.0
        == pre.slides@.len() - 1;
    &&& post.slides == pre.slides
    &&& post.current_slide_index as int == step.0
    &&& post.slide_timer as int == step.1
    &&& post.first_frame_passed == step.2
    &&& post.start_button_rect == rect
    &&& starts ==> (t matches StageTransition::Switch(GameStage::Playing(p))
        && playing_stage::spec_is_initial(p))
    &&& !starts ==> (t matches StageTransition::Stay)
}

impl IntroStage {
    pub open spec fn wf(self) -> bool {
        &&& 0 < self.slides@.len() < 100
        &&& self.current_slide_index < self.slides@.len()
        &&& 0 <= self.slide_timer < config::INTRO_SLIDE_DURATION_MS
        &&& self.start_button_rect.bounded()
    }

    pub fn new(screen_width: u32, screen_height: u32) -> (s: IntroStage)
        ensures
            s.wf(),
            s.slides@.len() == 4,
            s.current_slide_index == 0,
            s.slide_timer == 0,
            !s.first_frame_passed,
            s.start_button_rect == (Rect {
                x: (screen_width * 400) as i64,
                y: (screen_height * 700) as i64,
                w: config::INTRO_BUTTON_WIDTH,
                h: config::INTRO_BUTTON_HEIGHT,
            }),
    {
        let mut slides: Vec<String> = Vec::new();
        slides.push(String::from_str("Placeholder"));
        slides.push(
            String::from_str(
                "In a dusty nook, where sunbeams dance no more, \n a tiny Soot Sprite flickers to life \n by a whisper of old magic.",
            ),
        );
        slides.push(
            String::from_str(
                "Now, a grand adventure awaits! \n Hop and dash through a forgotten \n world of giant wonders",
            ),
        );
        slides.push(String::from_str("How far can your tiny feet carry you?"));
        IntroStage {
            slides,
            current_slide_index: 0,
            slide_timer: 0,
            start_button_rect: Rect {
                x: (screen_width as i64) * 400,
                y: (screen_height as i64) * 700,
                w: config::INTRO_BUTTON_WIDTH,
                h: config::INTRO_BUTTON_HEIGHT,
            },
            first_frame_passed: false,
        }
    }

    /// One frame of the intro stage: recompute the start button from the
    /// viewport, advance the slides, and switch to a fresh playing stage
    /// when the button is clicked while the final slide is up.
    pub fn update(
        &mut self,
        dt_ms: u32,
        mouse_pressed: bool,
        mouse_x: i64,
        mouse_y: i64,
        screen_width: u32,
        screen_height: u32,
    ) -> (t: StageTransition)
        requires
            old(self).wf(),
        ensures
            final(self).wf(),
            spec_intro_post(
                *old(self),
                *final(self),
                t,
                dt_ms as int,
                mouse_pressed,
                mouse_x as int,
                mouse_y as int,
                screen_width as int,
                screen_height as int,
            ),
    {
        self.start_button_rect = Rect {
            x: (screen_width as i64) * 370,
            y: (screen_height as i64) * 500,
            w: config::INTRO_BUTTON_WIDTH,
            h: config::INTRO_BUTTON_HEIGHT,
        };
        if self.current_slide_index == 0 && !self.first_frame_passed {
            self.first_frame_passed = true;
            self.slide_timer = 0;
            if self.slides.len() > 1 {
                self.current_slide_index = self.current_slide_index + 1;
            }
        } else {
            self.slide_timer = self.slide_timer + (dt_ms as i64);
            if self.slide_timer >= config::INTRO_SLIDE_DURATION_MS {
                self.slide_timer = 0;
                if self.current_slide_index < self.slides.len() - 1 {
                    self.current_slide_index = self.current_slide_index + 1;
                }
            }
        }
        if mouse_pressed {
            if self.start_button_rect.contains(mouse_x, mouse_y) && self.current_slide_index
                == self.slides.len() - 1 {
                return StageTransition::Switch(
                    GameStage::Playing(PlayingStage::new(screen_width, screen_height)),
                );
            }
        }
        StageTransition::Stay
    }
}

} // verus!
