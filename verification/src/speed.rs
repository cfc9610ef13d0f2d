//! The discrete playback-speed ladder.

use vstd::prelude::*;

verus! {

/// One rung of the playback-speed ladder, from half speed to two and a half
/// times normal speed.
#[derive(Debug, Clone, Copy, PartialEq, Eq, PartialOrd, Structural)]
pub enum VideoPlaybackSpeed {
    Half,
    Normal,
    NormalHalf,
    Double,
    DoubleHalf,
}

impl VideoPlaybackSpeed {
    /// Position of the rung on the ladder, counted from the slowest.
    pub open spec fn rung(self) -> int {
        match self {
            VideoPlaybackSpeed::Half => 0,
            VideoPlaybackSpeed::Normal => 1,
            VideoPlaybackSpeed::NormalHalf => 2,
            VideoPlaybackSpeed::Double => 3,
            VideoPlaybackSpeed::DoubleHalf => 4,
        }
    }

    /// The speed multiplier in tenths: normal speed is ten.
    pub open spec fn tenths(self) -> int {
        5 * (self.rung() + 1)
    }

    /// The rung one step faster, or the top rung itself.
    pub open spec fn spec_increment(self) -> VideoPlaybackSpeed {
        match self {
            VideoPlaybackSpeed::Half => VideoPlaybackSpeed::Normal,
            VideoPlaybackSpeed::Normal => VideoPlaybackSpeed::NormalHalf,
            VideoPlaybackSpeed::NormalHalf => VideoPlaybackSpeed::Double,
            VideoPlaybackSpeed::Double => VideoPlaybackSpeed::DoubleHalf,
            VideoPlaybackSpeed::DoubleHalf => VideoPlaybackSpeed::DoubleHalf,
        }
    }

    /// The rung one step slower, or the bottom rung itself.
    pub open spec fn spec_decrement(self) -> VideoPlaybackSpeed {
        match self {
            VideoPlaybackSpeed::Half => VideoPlaybackSpeed::Half,
            VideoPlaybackSpeed::Normal => VideoPlaybackSpeed::Half,
            VideoPlaybackSpeed::NormalHalf => VideoPlaybackSpeed::Normal,
            VideoPlaybackSpeed::Double => VideoPlaybackSpeed::NormalHalf,
            VideoPlaybackSpeed::DoubleHalf => VideoPlaybackSpeed::Double,
        }
    }

    /// A session starts at normal speed.
    pub fn new() -> (speed: Self)
        ensures
            speed == VideoPlaybackSpeed::Normal,
    {
        VideoPlaybackSpeed::Normal
    }

    /// The multiplier handed to the media surface, in tenths (5, 10, 15, 20
    /// or 25).
    pub fn get_playback_speed(&self) -> (tenths: u8)
        ensures
            tenths == self.tenths(),
    {
        match self {
            VideoPlaybackSpeed::Half => 5,
            VideoPlaybackSpeed::Normal => 10,
            VideoPlaybackSpeed::NormalHalf => 15,
            VideoPlaybackSpeed::Double => 20,
            VideoPlaybackSpeed::DoubleHalf => 25,
        }
    }

    /// Moves one rung up and stays on the top rung.
    pub fn increment(self) -> (next: Self)
        ensures
            next == self.spec_increment(),
            next.rung() == if self.rung() < 4 { self.rung() + 1 } else { 4 },
    {
        match self {
            VideoPlaybackSpeed::Half => VideoPlaybackSpeed::Normal,
            VideoPlaybackSpeed::Normal => VideoPlaybackSpeed::NormalHalf,
            VideoPlaybackSpeed::NormalHalf => VideoPlaybackSpeed::Double,
            _ => VideoPlaybackSpeed::DoubleHalf,
        }
    }

    /// Moves one rung down and stays on the bottom rung.
    pub fn decrement(self) -> (next: Self)
        ensures
            next == self.spec_decrement(),
            next.rung() == if self.rung() > 0 { self.rung() - 1 } else { 0 },
    {
        match self {
            VideoPlaybackSpeed::NormalHalf => VideoPlaybackSpeed::Normal,
            VideoPlaybackSpeed::Double => VideoPlaybackSpeed::NormalHalf,
            VideoPlaybackSpeed::DoubleHalf => VideoPlaybackSpeed::Double,
            _ => VideoPlaybackSpeed::Half,
        }
    }
}

/// Stepping up from the top rung any number of times stays on the top rung,
/// and stepping down from the bottom rung stays on the bottom rung.
pub proof fn lemma_speed_saturates(speed: VideoPlaybackSpeed)
    ensures
        speed == VideoPlaybackSpeed::DoubleHalf ==> speed.spec_increment() == speed
            && speed.spec_increment().spec_increment() == speed,
        speed == VideoPlaybackSpeed::Half ==> speed.spec_decrement() == speed
            && speed.spec_decrement().spec_decrement() == speed,
        speed.spec_increment() == speed <==> speed == VideoPlaybackSpeed::DoubleHalf,
        speed.spec_decrement() == speed <==> speed == VideoPlaybackSpeed::Half,
{
}

} // verus!
