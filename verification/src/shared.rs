//! The values that the input controller and the renderer share.

use vstd::prelude::*;

use crate::LEVELS;

verus! {

/// Index of the red channel in a triple of levels.
pub const RED: usize = 0;

/// Index of the green channel in a triple of levels.
pub const GREEN: usize = 1;

/// Index of the blue channel in a triple of levels.
pub const BLUE: usize = 2;

/// Each of the three levels is one of `0 ..= LEVELS - 1`.
pub open spec fn valid_levels(levels: [u32; 3]) -> bool {
    levels[0] < LEVELS && levels[1] < LEVELS && levels[2] < LEVELS
}

/// The levels with the level of the channel `led` replaced.
pub open spec fn levels_with(levels: [u32; 3], led: int, level: u32) -> [u32; 3] {
    [
        if led == 0 {
            level
        } else {
            levels[0]
        },
        if led == 1 {
            level
        } else {
            levels[1]
        },
        if led == 2 {
            level
        } else {
            levels[2]
        },
    ]
}

/// Replacing the level of a channel gives that channel the new level and
/// leaves the other two as they are; it changes nothing exactly where the
/// channel has that level already.
pub proof fn levels_with_replaces_one(levels: [u32; 3], led: int, level: u32)
    requires
        0 <= led < 3,
    ensures
        levels_with(levels, led, level)[led] == level,
        forall|c: int| 0 <= c < 3 && c != led ==> levels_with(levels, led, level)[c] == levels[c],
        levels_with(levels, led, level) == levels <==> level == levels[led],
{
    if level == levels[led] {
        assert(levels_with(levels, led, level)@ =~= levels@);
        assert(levels_with(levels, led, level) == levels);
    }
}

/// The frame rates that the knob can select: 10 Hz to 160 Hz in steps of 10.
pub open spec fn valid_frame_rate(frame_rate: u64) -> bool {
    10 <= frame_rate <= 160 && frame_rate % 10 == 0
}

/// The frame rate in Hz that a knob level selects.
pub open spec fn frame_rate_spec(level: int) -> int {
    (level + 1) * 10
}

/// The frame rate in Hz that a knob level selects.
pub fn frame_rate_for(level: u32) -> (frame_rate: u64)
    ensures
        frame_rate == frame_rate_spec(level as int),
        level < LEVELS ==> valid_frame_rate(frame_rate),
{
    (level as u64 + 1) * 10
}

/// Two knob levels that select the same frame rate are the same level.
pub proof fn frame_rate_injective(level: int, other: int)
    requires
        frame_rate_spec(level) == frame_rate_spec(other),
    ensures
        level == other,
{
}

/// The knob levels select exactly the frame rates 10, 20, ..., 160: every
/// level selects one of them, and each of them is selected by a level.
pub proof fn frame_rate_domain(level: int, frame_rate: u64)
    ensures
        0 <= level < LEVELS ==> valid_frame_rate(frame_rate_spec(level) as u64),
        valid_frame_rate(frame_rate) ==> 0 <= frame_rate / 10 - 1 < LEVELS && frame_rate_spec(
            frame_rate / 10 - 1,
        ) == frame_rate,
{
}

/// One write to the shared state.
#[derive(Clone, Copy, Debug, PartialEq, Eq)]
pub enum Write {
    /// Overwrite the level of the channel `led`; the other two stay.
    Level { led: usize, level: u32 },
    /// Overwrite the frame rate.
    FrameRate(u64),
}

impl Write {
    /// The write names a channel that there is.
    pub open spec fn valid(self) -> bool {
        self matches Write::Level { led, .. } ==> led < 3
    }
}

/// The brightness levels and the frame rate that are in force. The input
/// controller writes them and the renderer reads them, each value under a
/// lock of its own.
#[derive(Clone, Copy, Debug, PartialEq, Eq)]
pub struct SharedState {
    /// Brightness level of each channel, in the order red, green, blue.
    pub levels: [u32; 3],
    /// Frames per second.
    pub frame_rate: u64,
}

impl SharedState {
    /// The levels are levels and the frame rate is one that the knob can
    /// select.
    pub open spec fn valid(self) -> bool {
        valid_levels(self.levels) && valid_frame_rate(self.frame_rate)
    }

    /// The state with the level of one channel replaced.
    pub open spec fn with_level(self, led: int, level: u32) -> Self {
        SharedState { levels: levels_with(self.levels, led, level), frame_rate: self.frame_rate }
    }

    /// The state with all three levels replaced.
    pub open spec fn with_levels(self, levels: [u32; 3]) -> Self {
        SharedState { levels, frame_rate: self.frame_rate }
    }

    /// The state with the frame rate replaced.
    pub open spec fn with_frame_rate(self, frame_rate: u64) -> Self {
        SharedState { levels: self.levels, frame_rate }
    }

    /// The state after a write.
    pub open spec fn written(self, write: Write) -> Self {
        match write {
            Write::Level { led, level } => self.with_level(led as int, level),
            Write::FrameRate(frame_rate) => self.with_frame_rate(frame_rate),
        }
    }

    /// The state before anything has been written: all channels dark, at the
    /// lowest frame rate.
    pub fn new() -> (shared: Self)
        ensures
            shared.levels == [0u32, 0u32, 0u32],
            shared.frame_rate == 10,
            shared.valid(),
    {
        SharedState { levels: [0, 0, 0], frame_rate: 10 }
    }

    /// Overwrites the level of one channel.
    pub fn set_level(&mut self, led: usize, level: u32)
        requires
            led < 3,
        ensures
            *final(self) == old(self).with_level(led as int, level),
    {
        self.levels[led] = level;
        assert(self.levels@ =~= levels_with(old(self).levels, led as int, level)@);
        assert(self.levels == levels_with(old(self).levels, led as int, level));
    }

    /// Overwrites all three levels.
    pub fn set_levels(&mut self, levels: [u32; 3])
        ensures
            *final(self) == old(self).with_levels(levels),
    {
        self.levels = levels;
    }

    /// Overwrites the frame rate.
    pub fn set_frame_rate(&mut self, frame_rate: u64)
        ensures
            *final(self) == old(self).with_frame_rate(frame_rate),
    {
        self.frame_rate = frame_rate;
    }

    /// Makes one write.
    pub fn write(&mut self, write: &Write)
        requires
            write.valid(),
        ensures
            *final(self) == old(self).written(*write),
    {
        match write {
            Write::Level { led, level } => self.set_level(*led, *level),
            Write::FrameRate(frame_rate) => self.set_frame_rate(*frame_rate),
        }
    }

    /// Tells whether the state is valid.
    pub fn is_valid(&self) -> (valid: bool)
        ensures
            valid == self.valid(),
    {
        self.levels[0] < LEVELS && self.levels[1] < LEVELS && self.levels[2] < LEVELS
            && 10 <= self.frame_rate && self.frame_rate <= 160 && self.frame_rate % 10 == 0
    }
}

/// Validity is a matter of each value alone. So a reader that copies the
/// levels at one moment and the frame rate at another has a valid state, if
/// the state was valid at both moments.
pub proof fn mixed_copy_is_valid(at_first: SharedState, at_second: SharedState)
    requires
        at_first.valid(),
        at_second.valid(),
    ensures
        (SharedState { levels: at_first.levels, frame_rate: at_second.frame_rate }).valid(),
{
}

/// A write to one channel leaves the other two channels and the frame rate
/// as they are, and a write to the frame rate leaves the levels as they are.
pub proof fn write_touches_one_value(shared: SharedState, write: Write)
    requires
        write.valid(),
    ensures
        write matches Write::Level { led, level } ==> {
            &&& shared.written(write).levels[led as int] == level
            &&& forall|c: int|
                0 <= c < 3 && c != led ==> shared.written(write).levels[c] == shared.levels[c]
            &&& shared.written(write).frame_rate == shared.frame_rate
        },
        write matches Write::FrameRate(frame_rate) ==> {
            &&& shared.written(write).frame_rate == frame_rate
            &&& shared.written(write).levels == shared.levels
        },
{
    if let Write::Level { led, level } = write {
        levels_with_replaces_one(shared.levels, led as int, level);
    }
}

} // verus!
