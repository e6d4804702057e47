//! The cat's mutable state: idle progression, animation timing and the
//! current pose.
use vstd::prelude::*;

use crate::assets::{SpriteBase, SpriteFrameKey, frame_family, is_second_frame};

verus! {

/// One of the eight directions in which the cat runs.
#[derive(Debug, Clone, Copy, PartialEq, Eq, Structural)]
pub enum Direction {
    Up,
    UpRight,
    Right,
    DownRight,
    Down,
    DownLeft,
    Left,
    UpLeft,
}

/// The running animation family of each direction.
pub open spec fn direction_sprite(direction: Direction) -> SpriteBase {
    match direction {
        Direction::Up => SpriteBase::Up,
        Direction::UpRight => SpriteBase::UpRight,
        Direction::Right => SpriteBase::Right,
        Direction::DownRight => SpriteBase::DownRight,
        Direction::Down => SpriteBase::Down,
        Direction::DownLeft => SpriteBase::DownLeft,
        Direction::Left => SpriteBase::Left,
        Direction::UpLeft => SpriteBase::UpLeft,
    }
}

/// The unit step of each direction in screen coordinates (y grows downwards).
pub open spec fn direction_signs(direction: Direction) -> (int, int) {
    match direction {
        Direction::Up => (0, -1),
        Direction::UpRight => (1, -1),
        Direction::Right => (1, 0),
        Direction::DownRight => (1, 1),
        Direction::Down => (0, 1),
        Direction::DownLeft => (-1, 1),
        Direction::Left => (-1, 0),
        Direction::UpLeft => (-1, -1),
    }
}

/// The way each running family faces, in screen coordinates (y grows
/// downwards); the still, grooming and sleeping families face no way.
pub open spec fn running_heading(base: SpriteBase) -> Option<(int, int)> {
    match base {
        SpriteBase::Up => Some((0, -1)),
        SpriteBase::UpRight => Some((1, -1)),
        SpriteBase::Right => Some((1, 0)),
        SpriteBase::DownRight => Some((1, 1)),
        SpriteBase::Down => Some((0, 1)),
        SpriteBase::DownLeft => Some((-1, 1)),
        SpriteBase::Left => Some((-1, 0)),
        SpriteBase::UpLeft => Some((-1, -1)),
        _ => None,
    }
}

/// The cat running in a direction is drawn facing the way it moves.
pub proof fn lemma_running_sprite_faces_movement(direction: Direction)
    ensures
        running_heading(direction_sprite(direction)) == Some(direction_signs(direction)),
{
}

/// Different directions are drawn with different running families, and
/// move by different steps, each of one pixel unit along one or both axes.
pub proof fn lemma_directions_distinct(a: Direction, b: Direction)
    ensures
        direction_sprite(a) == direction_sprite(b) ==> a == b,
        direction_signs(a) == direction_signs(b) ==> a == b,
        -1 <= direction_signs(a).0 <= 1,
        -1 <= direction_signs(a).1 <= 1,
        direction_signs(a) != (0int, 0int),
{
}

impl Direction {
    /// The animation family shown while running in this direction.
    pub fn sprite_base(self) -> (base: SpriteBase)
        ensures
            base == direction_sprite(self),
    {
        match self {
            Self::Up => SpriteBase::Up,
            Self::UpRight => SpriteBase::UpRight,
            Self::Right => SpriteBase::Right,
            Self::DownRight => SpriteBase::DownRight,
            Self::Down => SpriteBase::Down,
            Self::DownLeft => SpriteBase::DownLeft,
            Self::Left => SpriteBase::Left,
            Self::UpLeft => SpriteBase::UpLeft,
        }
    }

    /// The signs of the horizontal and vertical components of a step in this
    /// direction: a diagonal step moves along both axes, a straight one along one.
    pub fn step_signs(self) -> (signs: (i32, i32))
        ensures
            (signs.0 as int, signs.1 as int) == direction_signs(self),
    {
        match self {
            Self::Up => (0, -1),
            Self::UpRight => (1, -1),
            Self::Right => (1, 0),
            Self::DownRight => (1, 1),
            Self::Down => (0, 1),
            Self::DownLeft => (-1, 1),
            Self::Left => (-1, 0),
            Self::UpLeft => (-1, -1),
        }
    }
}

/// A sound cue raised by a state transition.
#[derive(Debug, Clone, Copy, PartialEq, Eq, Structural)]
pub enum NekoSoundEvent {
    Wake,
    Sleep,
    IdleYawn,
}

/// The cat's behaviour state. `state` counts the idle progression: 0 while
/// chasing, then 1..=3 awake, 4..=6 scratching, 7..=9 washing, 10..=12
/// yawning and from 13 on asleep. `count` is the tick counter of the current
/// idle stage, and `min`/`max` are its animation thresholds.
#[derive(Debug, Clone, Copy)]
pub struct NekoState {
    pub waiting: bool,
    pub distance: i32,
    pub count: i32,
    pub min: i32,
    pub max: i32,
    pub state: i32,
    pub current_direction: Option<Direction>,
    pub sprite_base: SpriteBase,
    pub last_frame: Option<SpriteFrameKey>,
}

/// The frame that family `base` shows at tick `count` of a stage whose frame
/// switch happens at `min`: the still pose for `Awake`, otherwise the first
/// image before `min` and the second from `min` on.
pub open spec fn frame_matches(frame: SpriteFrameKey, base: SpriteBase, count: int, min: int) -> bool {
    &&& frame_family(frame) == base
    &&& is_second_frame(frame) == (base != SpriteBase::Awake && count >= min)
}

impl NekoState {
    /// The timing of the current stage is one of the two the cat uses (chase
    /// and early idle stages switch frames at 8 and roll over after 16 ticks,
    /// yawning and sleeping at 32 and 64), the tick counter lies within the
    /// stage, and the idle stage is not negative.
    pub open spec fn well_timed(self) -> bool {
        &&& (self.min == 8 && self.max == 16) || (self.min == 32 && self.max == 64)
        &&& 0 <= self.count <= self.max
        &&& self.state >= 0
    }

    /// The freshly started cat: awake, not waiting, with chase timing.
    pub fn new() -> (state: Self)
        ensures
            !state.waiting,
            state.distance == 0,
            state.count == 0,
            state.min == 8,
            state.max == 16,
            state.state == 0,
            state.current_direction is None,
            state.sprite_base == SpriteBase::Awake,
            state.last_frame is None,
            state.well_timed(),
    {
        Self {
            waiting: false,
            distance: 0,
            count: 0,
            min: 8,
            max: 16,
            state: 0,
            current_direction: None,
            sprite_base: SpriteBase::Awake,
            last_frame: None,
        }
    }

    /// The frame to draw for the current pose and tick.
    pub fn current_frame(&self) -> (frame: SpriteFrameKey)
        ensures
            frame_matches(frame, self.sprite_base, self.count as int, self.min as int),
    {
        frame_for(self.sprite_base, self.count, self.min)
    }
}

/// The frame of family `base` at tick `count` with frame switch at `min`.
pub fn frame_for(base: SpriteBase, count: i32, min: i32) -> (frame: SpriteFrameKey)
    ensures
        frame_matches(frame, base, count as int, min as int),
{
    match base {
        SpriteBase::Awake => SpriteFrameKey::Awake,
        SpriteBase::Up => pick_two_frame(count, min, SpriteFrameKey::Up1, SpriteFrameKey::Up2),
        SpriteBase::UpRight => pick_two_frame(
            count,
            min,
            SpriteFrameKey::UpRight1,
            SpriteFrameKey::UpRight2,
        ),
        SpriteBase::Right => pick_two_frame(
            count,
            min,
            SpriteFrameKey::Right1,
            SpriteFrameKey::Right2,
        ),
        SpriteBase::DownRight => pick_two_frame(
            count,
            min,
            SpriteFrameKey::DownRight1,
            SpriteFrameKey::DownRight2,
        ),
        SpriteBase::Down => pick_two_frame(count, min, SpriteFrameKey::Down1, SpriteFrameKey::Down2),
        SpriteBase::DownLeft => pick_two_frame(
            count,
            min,
            SpriteFrameKey::DownLeft1,
            SpriteFrameKey::DownLeft2,
        ),
        SpriteBase::Left => pick_two_frame(count, min, SpriteFrameKey::Left1, SpriteFrameKey::Left2),
        SpriteBase::UpLeft => pick_two_frame(
            count,
            min,
            SpriteFrameKey::UpLeft1,
            SpriteFrameKey::UpLeft2,
        ),
        SpriteBase::Scratch => pick_two_frame(
            count,
            min,
            SpriteFrameKey::Scratch1,
            SpriteFrameKey::Scratch2,
        ),
        SpriteBase::Wash => pick_two_frame(count, min, SpriteFrameKey::Wash1, SpriteFrameKey::Wash2),
        SpriteBase::Yawn => pick_two_frame(count, min, SpriteFrameKey::Yawn1, SpriteFrameKey::Yawn2),
        SpriteBase::Sleep => pick_two_frame(
            count,
            min,
            SpriteFrameKey::Sleep1,
            SpriteFrameKey::Sleep2,
        ),
    }
}

/// The first frame before tick `min`, the second from then on.
fn pick_two_frame(
    count: i32,
    min: i32,
    frame_one: SpriteFrameKey,
    frame_two: SpriteFrameKey,
) -> (frame: SpriteFrameKey)
    ensures
        frame == (if count < min { frame_one } else { frame_two }),
{
    if count < min {
        frame_one
    } else {
        frame_two
    }
}

/// Every frame `frame_for` picks belongs to the requested family, and for a
/// given family and tick only one frame qualifies.
pub proof fn lemma_frame_for_unique(
    a: SpriteFrameKey,
    b: SpriteFrameKey,
    base: SpriteBase,
    count: int,
    min: int,
)
    requires
        frame_matches(a, base, count, min),
        frame_matches(b, base, count, min),
    ensures
        a == b,
{
}

} // verus!
