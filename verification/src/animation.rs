//! The frame counter of the player's sprite, and the timer that drives it.
//!
//! The sprite sheet holds one strip of frames for each facing. The counter
//! walks through the strip of the current facing and starts over after its
//! last frame. The timer says when the next frame is due: it fires in every
//! tick in which a whole period has gone by, and keeps what is left over.
use vstd::prelude::*;
use crate::direction::Direction;

verus! {

/// First and last frame of the strip that faces left.
pub const FRAMES_LEFT: (usize, usize) = (8, 11);

/// First and last frame of the strip that faces right.
pub const FRAMES_RIGHT: (usize, usize) = (16, 19);

/// First and last frame of the strip that faces up.
pub const FRAMES_UP: (usize, usize) = (24, 27);

/// First and last frame of the strip that faces down.
pub const FRAMES_DOWN: (usize, usize) = (0, 3);

/// Time for which one frame shows, in microseconds: four frames a second.
pub const FRAME_PERIOD: u64 = 250_000;

/// First and last frame of the strip for `direction`.
pub open spec fn strip(direction: Direction) -> (usize, usize) {
    match direction {
        Direction::Left => FRAMES_LEFT,
        Direction::Right => FRAMES_RIGHT,
        Direction::Up => FRAMES_UP,
        Direction::Down => FRAMES_DOWN,
    }
}

/// A strip of frames and the frame that is showing.
#[derive(Clone, Copy, Debug, PartialEq, Eq)]
pub struct Animation {
    /// First frame of the strip.
    pub first: usize,
    /// Last frame of the strip.
    pub last: usize,
    /// The frame that is showing.
    pub frame: usize,
}

impl Animation {
    /// The frame that is showing is one of the strip.
    pub open spec fn wf(self) -> bool {
        self.first <= self.frame <= self.last
    }

    /// The counter at the first frame of the strip for `direction`.
    pub open spec fn facing(direction: Direction) -> Animation {
        Animation { first: strip(direction).0, last: strip(direction).1, frame: strip(direction).0 }
    }

    /// The counter one frame on: back at the first frame after the last, the
    /// next frame otherwise.
    pub open spec fn next(self) -> Animation {
        Animation {
            frame: if self.frame == self.last {
                self.first
            } else {
                (self.frame + 1) as usize
            },
            ..self
        }
    }

    /// The counter of a sprite that has not moved yet: it faces down.
    pub fn new() -> (animation: Animation)
        ensures
            animation == Self::facing(Direction::Down),
            animation.wf(),
    {
        Animation { first: FRAMES_DOWN.0, last: FRAMES_DOWN.1, frame: FRAMES_DOWN.0 }
    }

    /// Switches to the strip for `direction` and shows its first frame.
    pub fn face(self, direction: Direction) -> (animation: Animation)
        ensures
            animation == Self::facing(direction),
            animation.wf(),
    {
        let (first, last) = match direction {
            Direction::Left => FRAMES_LEFT,
            Direction::Right => FRAMES_RIGHT,
            Direction::Up => FRAMES_UP,
            Direction::Down => FRAMES_DOWN,
        };
        Animation { first, last, frame: first }
    }

    /// Shows the next frame. A counter that has run past every frame a
    /// `usize` can number cannot go on.
    pub fn advance(self) -> (animation: Animation)
        requires
            self.frame == self.last || self.frame < usize::MAX,
        ensures
            animation == self.next(),
            self.wf() ==> animation.wf(),
    {
        if self.frame == self.last {
            Animation { frame: self.first, ..self }
        } else {
            Animation { frame: self.frame + 1, ..self }
        }
    }
}

/// A repeating timer: time gone by since it last fired, and the period after
/// which it fires again.
#[derive(Clone, Copy, Debug, PartialEq, Eq)]
pub struct FrameTimer {
    /// Time between two firings, in microseconds.
    pub period: u64,
    /// Time gone by since the last firing, in microseconds.
    pub elapsed: u64,
}

impl FrameTimer {
    /// The timer fires in a tick of `dt` microseconds.
    pub open spec fn fires(self, dt: int) -> bool {
        self.elapsed + dt >= self.period
    }

    /// Time gone by since the last firing, once `dt` more microseconds have
    /// passed: all of it while the timer has not fired, and what is left over
    /// of it after whole periods once it has.
    pub open spec fn carried(self, dt: int) -> int {
        if !self.fires(dt) {
            self.elapsed + dt
        } else if self.period == 0 {
            0
        } else {
            (self.elapsed + dt) % (self.period as int)
        }
    }

    /// A timer that fires every `period` microseconds, started now.
    pub fn new(period: u64) -> (timer: FrameTimer)
        ensures
            timer == (FrameTimer { period, elapsed: 0 }),
    {
        FrameTimer { period, elapsed: 0 }
    }

    /// Lets `dt` microseconds pass and says whether the timer fired. It fires
    /// once however many periods went by.
    pub fn tick(self, dt: u64) -> (after: (FrameTimer, bool))
        ensures
            after.1 == self.fires(dt as int),
            after.0.period == self.period,
            after.0.elapsed == self.carried(dt as int),
    {
        let total: u128 = self.elapsed as u128 + dt as u128;
        let period: u128 = self.period as u128;
        if total < period {
            (FrameTimer { elapsed: total as u64, ..self }, false)
        } else if self.period == 0 {
            (FrameTimer { elapsed: 0, ..self }, true)
        } else {
            (FrameTimer { elapsed: (total % period) as u64, ..self }, true)
        }
    }
}

} // verus!
