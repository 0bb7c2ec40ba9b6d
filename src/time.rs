//! Gameplay time: time that passes only while the game is not paused.
use vstd::prelude::*;

verus! {

/// An instant of gameplay time: microseconds of unpaused time since the game started.
#[derive(Clone, Copy, Debug, PartialEq, Eq, Structural, PartialOrd, Ord, Hash, Default)]
pub struct GameInstant {
    pub time_unpaused: u64,
}

impl GameInstant {
    /// The instant the game starts.
    pub fn from_game_start() -> (r: GameInstant)
        ensures
            r.time_unpaused == 0,
    {
        GameInstant { time_unpaused: 0 }
    }

    /// Moves the instant on by `delta` microseconds of unpaused time.
    pub fn add_unpaused_delta(&mut self, delta: u64)
        requires
            old(self).time_unpaused + delta <= u64::MAX,
        ensures
            final(self).time_unpaused == old(self).time_unpaused + delta,
    {
        self.time_unpaused = self.time_unpaused + delta;
    }

    /// The instant `rhs` microseconds later.
    pub fn add(self, rhs: u64) -> (r: GameInstant)
        requires
            self.time_unpaused + rhs <= u64::MAX,
        ensures
            r.time_unpaused == self.time_unpaused + rhs,
    {
        GameInstant { time_unpaused: self.time_unpaused + rhs }
    }

    pub fn micros(&self) -> (r: u64)
        ensures
            r == self.time_unpaused,
    {
        self.time_unpaused
    }
}

/// A clock of gameplay time that ticks only while not paused.
#[derive(Clone, Copy, Debug, PartialEq, Eq, Structural)]
pub struct GameplayTime {
    pub elapsed: GameInstant,
    pub paused: bool,
}

impl GameplayTime {
    /// A running clock at the start of the game.
    pub fn new() -> (r: GameplayTime)
        ensures
            r.elapsed.time_unpaused == 0,
            !r.paused,
    {
        GameplayTime { elapsed: GameInstant::from_game_start(), paused: false }
    }

    pub fn pause(&mut self)
        ensures
            *final(self) == (GameplayTime { paused: true, ..*old(self) }),
    {
        self.paused = true;
    }

    pub fn unpause(&mut self)
        ensures
            *final(self) == (GameplayTime { paused: false, ..*old(self) }),
    {
        self.paused = false;
    }

    /// Lets `delta` microseconds of real time pass: counted unless paused.
    pub fn tick(&mut self, delta: u64)
        requires
            old(self).elapsed.time_unpaused + delta <= u64::MAX,
        ensures
            final(self).paused == old(self).paused,
            final(self).elapsed.time_unpaused == if old(self).paused {
                old(self).elapsed.time_unpaused as int
            } else {
                old(self).elapsed.time_unpaused + delta
            },
    {
        if !self.paused {
            self.elapsed.add_unpaused_delta(delta);
        }
    }

    /// The gameplay time elapsed so far.
    pub fn elapsed(&self) -> (r: GameInstant)
        ensures
            r == self.elapsed,
    {
        self.elapsed
    }
}

} // verus!
