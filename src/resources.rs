use vstd::prelude::*;
use crate::constants::MAX_FRAME_PERIOD_MS;
use crate::geometry::{Point, Rect};

verus! {

/// Whether play goes on. The only transition is from `Playing` to `GameOver`.
#[derive(Clone, Copy, Debug, PartialEq, Eq, Structural)]
pub enum GameState {
    Playing,
    GameOver,
}

/// A sprite that cycles through `frame_count` images, showing each for
/// `period_ms` milliseconds. The period is at most `MAX_FRAME_PERIOD_MS`.
#[derive(Clone, Copy, Debug, PartialEq, Eq, Structural)]
pub struct FrameAnimation {
    pub frame_count: usize,
    pub period_ms: u64,
    pub elapsed_ms: u64,
    pub current: usize,
}

impl FrameAnimation {
    /// There is an image to show, the current one is among them, and the
    /// timer has not yet run out.
    pub open spec fn wf(self) -> bool {
        &&& 0 < self.frame_count
        &&& self.current < self.frame_count
        &&& 0 < self.period_ms <= MAX_FRAME_PERIOD_MS
        &&& self.elapsed_ms < self.period_ms
    }

    /// An animation on its first image with a fresh timer.
    pub fn new(frame_count: usize, period_ms: u64) -> (r: FrameAnimation)
        requires
            0 < frame_count,
            0 < period_ms <= MAX_FRAME_PERIOD_MS,
        ensures
            r.wf(),
            r.frame_count == frame_count,
            r.period_ms == period_ms,
            r.elapsed_ms == 0,
            r.current == 0,
    {
        FrameAnimation { frame_count, period_ms, elapsed_ms: 0, current: 0 }
    }
}

/// The player: its entity, where it is, how it moves, and its collision box
/// relative to its position.
#[derive(Clone, Copy, Debug, PartialEq, Eq, Structural)]
pub struct Player {
    pub entity: Option<u64>,
    pub position: Point,
    pub velocity: Point,
    pub acceleration: Point,
    pub collision_box: Rect,
}

impl Player {
    pub open spec fn is_default(self) -> bool {
        &&& self.entity is None
        &&& self.position == Point { x: 0, y: 0 }
        &&& self.velocity == Point { x: 0, y: 0 }
        &&& self.acceleration == Point { x: 0, y: 0 }
        &&& self.collision_box == (Rect { min: Point { x: 0, y: 0 }, max: Point { x: 0, y: 0 } })
    }
}

impl Default for Player {
    /// A player without entity, at rest at the origin, with an empty box.
    fn default() -> (r: Player)
        ensures
            r.is_default(),
    {
        let zero = Point { x: 0, y: 0 };
        Player {
            entity: None,
            position: zero,
            velocity: zero,
            acceleration: zero,
            collision_box: Rect { min: zero, max: zero },
        }
    }
}

/// One pipe of a pair: its entity and the position of its centre.
#[derive(Clone, Copy, Debug, PartialEq, Eq, Structural)]
pub struct Pipe {
    pub entity: u64,
    pub position: Point,
}

/// The pipes on screen, in the order they were spawned, and the bounding box
/// that every pipe has relative to its centre.
#[derive(Debug)]
pub struct Pipes {
    pub entities: Vec<Pipe>,
    pub bounds: Rect,
}

impl Pipes {
    pub open spec fn is_default(self) -> bool {
        &&& self.entities@.len() == 0
        &&& self.bounds == (Rect { min: Point { x: 0, y: 0 }, max: Point { x: 0, y: 0 } })
    }
}

impl Default for Pipes {
    /// No pipes, and an empty pipe box.
    fn default() -> (r: Pipes)
        ensures
            r.is_default(),
    {
        let zero = Point { x: 0, y: 0 };
        Pipes { entities: Vec::new(), bounds: Rect { min: zero, max: zero } }
    }
}

/// The floor: its entity, the position of its centre, and its bounding box
/// relative to that centre.
#[derive(Clone, Copy, Debug, PartialEq, Eq, Structural)]
pub struct Floor {
    pub entity: u64,
    pub position: Point,
    pub bounds: Rect,
}

/// The whole state of a game.
#[derive(Debug)]
pub struct Game {
    pub player: Player,
    pub pipes: Pipes,
    pub floor: Option<Floor>,
    pub state: GameState,
}

impl Default for Game {
    /// A game in play with a default player, no pipes and no floor.
    fn default() -> (r: Game)
        ensures
            r.player.is_default(),
            r.pipes.is_default(),
            r.floor is None,
            r.state == GameState::Playing,
    {
        Game {
            player: Player::default(),
            pipes: Pipes::default(),
            floor: None,
            state: GameState::Playing,
        }
    }
}

} // verus!
