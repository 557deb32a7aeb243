//! Obstacles: a rectangle tagged with a visual kind, plus the geometry a
//! freshly spawned obstacle of each kind gets at the right edge of the
//! viewport.

use vstd::prelude::*;
use crate::config;
use crate::geom::Rect;

verus! {

/// The closed set of obstacle looks. `Object0` and `Object2` share the
/// default ground-level geometry; `Object1` is narrower, taller and
/// floats above the others' top edge.
#[derive(Clone, Copy, Debug, PartialEq, Eq, Structural)]
pub enum ObstacleType {
    Object0,
    Object1,
    Object2,
}

impl ObstacleType {
    /// The kind chosen for a uniformly drawn index in `{0, 1, 2}`.
    pub open spec fn spec_from_index(index: int) -> ObstacleType {
        if index == 0 {
            ObstacleType::Object0
        } else if index == 1 {
            ObstacleType::Object1
        } else {
            ObstacleType::Object2
        }
    }

    pub fn from_index(index: u32) -> (k: ObstacleType)
        ensures
            k == ObstacleType::spec_from_index(index as int),
    {
        if index == 0 {
            ObstacleType::Object0
        } else if index == 1 {
            ObstacleType::Object1
        } else {
            ObstacleType::Object2
        }
    }
}

/// A live obstacle: its rectangle in millipixel coordinates and its kind.
/// Only `rect.x` ever changes after creation.
#[derive(Clone, Copy, Debug, PartialEq, Eq, Structural)]
pub struct Obstacle {
    pub rect: Rect,
    pub kind: ObstacleType,
}

impl Obstacle {
    pub fn new(x: i64, y: i64, width: i64, height: i64, kind: ObstacleType) -> (o: Obstacle)
        ensures
            o == (Obstacle { rect: Rect { x, y, w: width, h: height }, kind }),
    {
        Obstacle { rect: Rect { x, y, w: width, h: height }, kind }
    }

    /// Well-formedness of a live obstacle: its rectangle is bounded, has
    /// positive extent, and its right edge has not passed the left
    /// viewport edge.
    pub open spec fn wf(self) -> bool {
        &&& self.rect.bounded()
        &&& self.rect.w > 0
        &&& self.rect.h > 0
        &&& self.rect.x + self.rect.w > 0
    }
}

/// The rectangle a new obstacle of the kind drawn as `index` gets: it
/// starts at the right viewport edge `screen_w` (millipixels). The two
/// ground-level kinds sit just above the floor line; the floating kind
/// keeps an extra clearance above their top edge.
pub open spec fn spec_spawned_obstacle(screen_w: int, index: int) -> Obstacle {
    if index == 1 {
        Obstacle {
            rect: Rect {
                x: screen_w as i64,
                y: (config::FLOOR_Y_POSITION - config::OBSTACLE_DEFAULT_HEIGHT
                    - config::OBJECT1_ADDITIONAL_CLEARANCE_ABOVE_OTHERS
                    - config::OBJECT1_OWN_HEIGHT) as i64,
                w: config::OBJECT1_OWN_WIDTH,
                h: config::OBJECT1_OWN_HEIGHT,
            },
            kind: ObstacleType::Object1,
        }
    } else {
        Obstacle {
            rect: Rect {
                x: screen_w as i64,
                y: (config::FLOOR_Y_POSITION - config::OBSTACLE_DEFAULT_HEIGHT) as i64,
                w: config::OBSTACLE_DEFAULT_WIDTH,
                h: config::OBSTACLE_DEFAULT_HEIGHT,
            },
            kind: ObstacleType::spec_from_index(index),
        }
    }
}

/// Builds the obstacle a spawn with kind index `index` creates at the
/// right viewport edge `screen_w` (millipixels).
pub fn spawn_obstacle(screen_w: i64, index: u32) -> (o: Obstacle)
    requires
        0 <= screen_w <= crate::geom::COORD_LIMIT,
        index < 3,
    ensures
        o == spec_spawned_obstacle(screen_w as int, index as int),
        o.wf(),
{
    let kind = ObstacleType::from_index(index);
    if index == 1 {
        let object1_rect_y = config::FLOOR_Y_POSITION - config::OBSTACLE_DEFAULT_HEIGHT
            - config::OBJECT1_ADDITIONAL_CLEARANCE_ABOVE_OTHERS - config::OBJECT1_OWN_HEIGHT;
        Obstacle::new(
            screen_w,
            object1_rect_y,
            config::OBJECT1_OWN_WIDTH,
            config::OBJECT1_OWN_HEIGHT,
            kind,
        )
    } else {
        Obstacle::new(
            screen_w,
            config::FLOOR_Y_POSITION - config::OBSTACLE_DEFAULT_HEIGHT,
            config::OBSTACLE_DEFAULT_WIDTH,
            config::OBSTACLE_DEFAULT_HEIGHT,
            kind,
        )
    }
}

} // verus!
