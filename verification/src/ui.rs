//! The input controller: which setting the buttons select, and what a knob
//! reading does to it.

use vstd::prelude::*;

use crate::shared::{
    frame_rate_for, frame_rate_spec, levels_with, levels_with_replaces_one, valid_frame_rate,
    valid_levels, SharedState, Write,
};
use crate::status::{format_status, status_text};
use crate::LEVELS;

verus! {

/// Milliseconds between two polls of the knob and the buttons.
pub const POLL_INTERVAL_MS: u64 = 50;

/// The setting that the knob changes, as the two buttons select it.
#[derive(Clone, Copy, Debug, PartialEq, Eq)]
pub enum Target {
    /// Both buttons held down.
    Red,
    /// Only button A held down.
    Green,
    /// Only button B held down.
    Blue,
    /// No button held down.
    FrameRate,
}

impl Target {
    /// The target that the two buttons select.
    pub open spec fn of(a_down: bool, b_down: bool) -> Target {
        if a_down {
            if b_down {
                Target::Red
            } else {
                Target::Green
            }
        } else {
            if b_down {
                Target::Blue
            } else {
                Target::FrameRate
            }
        }
    }

    /// The value that a knob level gives the target: the level itself for a
    /// colour, the frame rate that the level selects for the frame rate.
    pub open spec fn value_at(self, level: u32) -> int {
        match self {
            Target::FrameRate => frame_rate_spec(level as int),
            _ => level as int,
        }
    }

    /// The write that gives the target its value at a knob level.
    pub open spec fn write_for(self, level: u32) -> Write {
        match self {
            Target::Red => Write::Level { led: 0, level },
            Target::Green => Write::Level { led: 1, level },
            Target::Blue => Write::Level { led: 2, level },
            Target::FrameRate => Write::FrameRate(frame_rate_spec(level as int) as u64),
        }
    }

    /// The target that the two buttons select.
    pub fn select(a_down: bool, b_down: bool) -> (target: Target)
        ensures
            target == Target::of(a_down, b_down),
    {
        match (a_down, b_down) {
            (true, true) => Target::Red,
            (true, false) => Target::Green,
            (false, true) => Target::Blue,
            (false, false) => Target::FrameRate,
        }
    }
}

/// What the controller last applied: the values it compares a new reading
/// with.
#[derive(Clone, Copy, Debug, PartialEq, Eq)]
pub struct UiState {
    /// Brightness level of each channel, in the order red, green, blue.
    pub levels: [u32; 3],
    /// Frames per second.
    pub frame_rate: u64,
}

impl UiState {
    /// The levels are levels and the frame rate is one that the knob can
    /// select.
    pub open spec fn valid(self) -> bool {
        valid_levels(self.levels) && valid_frame_rate(self.frame_rate)
    }

    /// The value that the state holds for a target.
    pub open spec fn value_of(self, target: Target) -> int {
        match target {
            Target::Red => self.levels[0] as int,
            Target::Green => self.levels[1] as int,
            Target::Blue => self.levels[2] as int,
            Target::FrameRate => self.frame_rate as int,
        }
    }

    /// The shared state holds what this state holds.
    pub open spec fn mirrored_by(self, shared: SharedState) -> bool {
        shared.levels == self.levels && shared.frame_rate == self.frame_rate
    }

    /// The state with the level of one channel replaced.
    pub open spec fn with_level(self, led: int, level: u32) -> UiState {
        UiState { levels: levels_with(self.levels, led, level), frame_rate: self.frame_rate }
    }

    /// The state with the frame rate replaced.
    pub open spec fn with_frame_rate(self, frame_rate: u64) -> UiState {
        UiState { levels: self.levels, frame_rate }
    }

    /// The state after one poll: the setting that the buttons select takes
    /// the value of the knob, the others stay.
    pub open spec fn polled(self, level: u32, a_down: bool, b_down: bool) -> UiState {
        match Target::of(a_down, b_down) {
            Target::Red => self.with_level(0, level),
            Target::Green => self.with_level(1, level),
            Target::Blue => self.with_level(2, level),
            Target::FrameRate => self.with_frame_rate(frame_rate_spec(level as int) as u64),
        }
    }

    /// The status of the state, as it is logged.
    pub fn show(&self) -> (text: String)
        ensures
            text@ == status_text(self.levels, self.frame_rate),
    {
        format_status(&self.levels, self.frame_rate)
    }
}

impl Default for UiState {
    /// Every channel at the highest level, at 100 frames per second.
    fn default() -> (state: Self)
        ensures
            state.levels == [15u32, 15u32, 15u32],
            state.frame_rate == 100,
            state.valid(),
    {
        Self { levels: [LEVELS - 1, LEVELS - 1, LEVELS - 1], frame_rate: 100 }
    }
}

/// What the controller asks for when a setting has changed: one write to the
/// shared state, and the status to log.
#[derive(Debug, PartialEq, Eq)]
pub struct Change {
    /// The write to make.
    pub write: Write,
    /// The status to log.
    pub status: String,
}

/// What the controller asks for after its first reading: both shared values
/// are to be written, and the status logged.
#[derive(Debug, PartialEq, Eq)]
pub struct Startup {
    /// The levels to write.
    pub levels: [u32; 3],
    /// The frame rate to write.
    pub frame_rate: u64,
    /// The status to log.
    pub status: String,
}

/// The input controller.
pub struct Ui {
    state: UiState,
}

impl View for Ui {
    type V = UiState;

    closed spec fn view(&self) -> UiState {
        self.state
    }
}

impl Ui {
    /// A controller that holds the default state.
    pub fn new() -> (ui: Self)
        ensures
            ui@.levels == [15u32, 15u32, 15u32],
            ui@.frame_rate == 100,
            ui@.valid(),
    {
        Self { state: UiState::default() }
    }

    /// What the controller last applied.
    pub fn state(&self) -> (state: UiState)
        ensures
            state == self@,
    {
        self.state
    }

    /// Takes a reading for the channel `led`. Where the channel has another
    /// level, it takes the new one, which is then to be written and the
    /// status logged; where it has that level, nothing is asked for.
    pub fn update_led(&mut self, level: u32, led: usize) -> (change: Option<Change>)
        requires
            led < 3,
        ensures
            final(self)@ == old(self)@.with_level(led as int, level),
            change is None <==> level == old(self)@.levels[led as int],
            change matches Some(c) ==> c.write == (Write::Level { led, level }) && c.status@
                == status_text(final(self)@.levels, final(self)@.frame_rate),
            old(self)@.valid() && level < LEVELS ==> final(self)@.valid(),
    {
        proof {
            levels_with_replaces_one(self.state.levels, led as int, level);
        }
        if level != self.state.levels[led] {
            self.state.levels[led] = level;
            assert(self.state.levels@ =~= levels_with(old(self)@.levels, led as int, level)@);
            assert(self.state.levels == levels_with(old(self)@.levels, led as int, level));
            Some(Change { write: Write::Level { led, level }, status: self.state.show() })
        } else {
            None
        }
    }

    /// Takes a reading for the frame rate. Where the rate that the reading
    /// selects is another than the one in force, it takes its place and is
    /// then to be written and the status logged; else nothing is asked for.
    pub fn update_fr(&mut self, level: u64) -> (change: Option<Change>)
        requires
            frame_rate_spec(level as int) <= u64::MAX,
        ensures
            final(self)@ == old(self)@.with_frame_rate(frame_rate_spec(level as int) as u64),
            change is None <==> frame_rate_spec(level as int) == old(self)@.frame_rate,
            change matches Some(c) ==> c.write == Write::FrameRate(final(self)@.frame_rate)
                && c.status@ == status_text(final(self)@.levels, final(self)@.frame_rate),
            old(self)@.valid() && level < LEVELS ==> final(self)@.valid(),
    {
        let lvl = (level + 1) * 10;
        if lvl != self.state.frame_rate {
            self.state.frame_rate = lvl;
            Some(Change { write: Write::FrameRate(lvl), status: self.state.show() })
        } else {
            None
        }
    }

    /// The first reading of the knob: it sets the frame rate, whatever the
    /// buttons say. Both the levels and the frame rate are then to be
    /// written, so that the shared state starts out as the controller has it.
    pub fn start(&mut self, level: u32) -> (startup: Startup)
        ensures
            final(self)@ == old(self)@.with_frame_rate(frame_rate_spec(level as int) as u64),
            startup.levels == final(self)@.levels,
            startup.frame_rate == final(self)@.frame_rate,
            startup.status@ == status_text(final(self)@.levels, final(self)@.frame_rate),
            old(self)@.valid() && level < LEVELS ==> final(self)@.valid(),
    {
        self.state.frame_rate = frame_rate_for(level);
        Startup {
            levels: self.state.levels,
            frame_rate: self.state.frame_rate,
            status: self.state.show(),
        }
    }

    /// One poll: the setting that the buttons select takes the value of the
    /// knob. Where that is the value it has, nothing is asked for; else the
    /// new value is to be written and the status logged.
    pub fn poll(&mut self, level: u32, a_down: bool, b_down: bool) -> (change: Option<Change>)
        ensures
            final(self)@ == old(self)@.polled(level, a_down, b_down),
            change is None <==> Target::of(a_down, b_down).value_at(level) == old(self)@.value_of(
                Target::of(a_down, b_down),
            ),
            change is None <==> final(self)@ == old(self)@,
            change matches Some(c) ==> c.write == Target::of(a_down, b_down).write_for(level)
                && c.status@ == status_text(final(self)@.levels, final(self)@.frame_rate),
            old(self)@.valid() && level < LEVELS ==> final(self)@.valid(),
    {
        proof {
            levels_with_replaces_one(self.state.levels, 0, level);
            levels_with_replaces_one(self.state.levels, 1, level);
            levels_with_replaces_one(self.state.levels, 2, level);
        }
        match Target::select(a_down, b_down) {
            Target::Red => self.update_led(level, 0),
            Target::Green => self.update_led(level, 1),
            Target::Blue => self.update_led(level, 2),
            Target::FrameRate => self.update_fr(level as u64),
        }
    }
}

/// A poll leaves the state as it is exactly where the setting that the
/// buttons select has the value of the knob already; after any poll that
/// setting has the value of the knob.
pub proof fn poll_changes_on_new_value_only(state: UiState, level: u32, a_down: bool, b_down: bool)
    ensures
        ({
            let target = Target::of(a_down, b_down);
            let next = state.polled(level, a_down, b_down);
            &&& next == state <==> target.value_at(level) == state.value_of(target)
            &&& next.value_of(target) == target.value_at(level)
        }),
{
    levels_with_replaces_one(state.levels, 0, level);
    levels_with_replaces_one(state.levels, 1, level);
    levels_with_replaces_one(state.levels, 2, level);
}

/// A poll that follows another with the same reading and the same buttons
/// changes nothing, so that nothing is written and nothing logged.
pub proof fn repeated_poll_is_silent(state: UiState, level: u32, a_down: bool, b_down: bool)
    ensures
        ({
            let target = Target::of(a_down, b_down);
            let next = state.polled(level, a_down, b_down);
            &&& target.value_at(level) == next.value_of(target)
            &&& next.polled(level, a_down, b_down) == next
        }),
{
    poll_changes_on_new_value_only(state, level, a_down, b_down);
    poll_changes_on_new_value_only(state.polled(level, a_down, b_down), level, a_down, b_down);
}

/// Where the shared state holds what the controller last applied, it does so
/// again after a poll: once the write of the poll is made where the state
/// has changed, and as it stands where it has not. With a level for a
/// reading, a valid shared state stays valid.
pub proof fn poll_keeps_mirror(
    state: UiState,
    shared: SharedState,
    level: u32,
    a_down: bool,
    b_down: bool,
)
    requires
        state.mirrored_by(shared),
    ensures
        ({
            let write = Target::of(a_down, b_down).write_for(level);
            let next = state.polled(level, a_down, b_down);
            &&& write.valid()
            &&& next != state ==> next.mirrored_by(shared.written(write))
            &&& next == state ==> next.mirrored_by(shared)
            &&& shared.valid() && level < LEVELS ==> shared.written(write).valid()
        }),
{
    levels_with_replaces_one(state.levels, 0, level);
    levels_with_replaces_one(state.levels, 1, level);
    levels_with_replaces_one(state.levels, 2, level);
}

/// Whatever the shared state held, it holds what the controller has once the
/// two writes of the first reading are made. With a level for a reading, a
/// valid shared state is valid between the two writes and after them.
pub proof fn start_sets_mirror(state: UiState, shared: SharedState, level: u32)
    ensures
        ({
            let next = state.with_frame_rate(frame_rate_spec(level as int) as u64);
            let between = shared.with_levels(next.levels);
            let after = between.with_frame_rate(next.frame_rate);
            &&& next.mirrored_by(after)
            &&& state.valid() && shared.valid() ==> between.valid()
            &&& state.valid() && level < LEVELS ==> after.valid()
        }),
{
}

} // verus!
