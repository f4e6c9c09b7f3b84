//! The renderer: the times at which the channels of one frame are on.

use vstd::prelude::*;

use crate::shared::{valid_frame_rate, SharedState};
use crate::LEVELS;

verus! {

/// Microseconds in a second.
pub const MICROS_PER_SECOND: u64 = 1_000_000;

/// The time that one frame takes at a frame rate, in whole microseconds.
pub open spec fn frame_period_spec(frame_rate: int) -> int {
    MICROS_PER_SECOND as int / frame_rate
}

/// The time in a frame for which a channel of a given level is on, in whole
/// microseconds: the part of the frame that the level is of the highest
/// level.
pub open spec fn active_duration_spec(level: int, frame_rate: int) -> int {
    level * frame_period_spec(frame_rate) / (LEVELS - 1)
}

/// The time that one frame takes at a frame rate, in whole microseconds.
pub fn frame_period(frame_rate: u64) -> (period: u64)
    requires
        frame_rate > 0,
    ensures
        period == frame_period_spec(frame_rate as int),
        period <= MICROS_PER_SECOND,
{
    let period = MICROS_PER_SECOND / frame_rate;
    assert(period <= MICROS_PER_SECOND) by (nonlinear_arith)
        requires
            frame_rate > 0,
            period == MICROS_PER_SECOND as int / frame_rate as int,
    ;
    period
}

/// The time in a frame for which a channel of a given level is on, in whole
/// microseconds.
pub fn active_duration(level: u32, frame_rate: u64) -> (active: u64)
    requires
        level < LEVELS,
        frame_rate > 0,
    ensures
        active == active_duration_spec(level as int, frame_rate as int),
        active <= frame_period_spec(frame_rate as int),
{
    let period = frame_period(frame_rate);
    assert(level * period <= 15 * period) by (nonlinear_arith)
        requires
            level <= 15,
    ;
    let product = level as u64 * period;
    let active = product / (LEVELS as u64 - 1);
    assert(active == product / 15);
    active
}

/// At the frame rates that the knob can select, a frame takes from 6250 to
/// 100000 microseconds.
pub proof fn frame_period_bounds(frame_rate: u64)
    requires
        valid_frame_rate(frame_rate),
    ensures
        6250 <= frame_period_spec(frame_rate as int) <= 100_000,
{
    let period = frame_period_spec(frame_rate as int);
    assert(6250 <= period <= 100_000) by (nonlinear_arith)
        requires
            10 <= frame_rate <= 160,
            period == 1_000_000int / frame_rate as int,
    ;
}

/// A channel is on for no longer than the frame takes; it is on for no time
/// at all exactly at level 0, and for the whole frame exactly at the highest
/// level.
pub proof fn active_duration_bounds(level: int, frame_rate: u64)
    requires
        0 <= level < LEVELS,
        valid_frame_rate(frame_rate),
    ensures
        0 <= active_duration_spec(level, frame_rate as int) <= frame_period_spec(frame_rate as int),
        active_duration_spec(level, frame_rate as int) == 0 <==> level == 0,
        active_duration_spec(level, frame_rate as int) == frame_period_spec(frame_rate as int)
            <==> level == LEVELS - 1,
{
    let period = frame_period_spec(frame_rate as int);
    frame_period_bounds(frame_rate);
    let product = level * period;
    assert(level == 0 ==> product == 0) by (nonlinear_arith)
        requires
            product == level * period,
    ;
    assert(level >= 1 ==> product >= 15) by (nonlinear_arith)
        requires
            product == level * period,
            period >= 6250,
    ;
    assert(level <= 14 ==> product <= 15 * period - 15) by (nonlinear_arith)
        requires
            product == level * period,
            level >= 0,
            period >= 6250,
    ;
    assert(level == 15 ==> product == 15 * period) by (nonlinear_arith)
        requires
            product == level * period,
    ;
    assert(0 <= product) by (nonlinear_arith)
        requires
            product == level * period,
            level >= 0,
            period >= 6250,
    ;
}

/// A stretch of a frame in which no channel switches.
#[derive(Clone, Copy, Debug, PartialEq, Eq)]
pub struct Phase {
    /// Which channels are on, in the order red, green, blue.
    pub lit: [bool; 3],
    /// How long the phase lasts, in microseconds.
    pub micros: u64,
}

/// The time from the start of the frame at which phase `k` starts: what the
/// phases before it last together.
pub open spec fn phase_start(phases: Seq<Phase>, k: int) -> int
    decreases k,
{
    if k <= 0 {
        0
    } else {
        phase_start(phases, k - 1) + phases[k - 1].micros
    }
}

/// A channel that is on for the time `active` from the start of the frame
/// keeps one state from `start` to `end`, and `lit` is that state.
pub open spec fn holds(lit: bool, start: int, end: int, active: int) -> bool {
    if lit {
        end <= active
    } else {
        active <= start
    }
}

/// Phase `k` lasts some time, and in it each channel is in the state that
/// its active time asks for.
pub open spec fn phase_renders(phases: Seq<Phase>, k: int, active: Seq<int>) -> bool {
    let start = phase_start(phases, k);
    let end = phase_start(phases, k + 1);
    &&& phases[k].micros > 0
    &&& holds(phases[k].lit[0], start, end, active[0])
    &&& holds(phases[k].lit[1], start, end, active[1])
    &&& holds(phases[k].lit[2], start, end, active[2])
}

/// Some channel switches where phase `k` starts.
pub open spec fn switches(phases: Seq<Phase>, k: int) -> bool {
    phases[k - 1].lit != phases[k].lit
}

/// The phases are a frame of the length `period` in which each channel is on
/// from the start of the frame until its active time is over: they fill the
/// frame, each lasts some time and holds each channel in the state that its
/// active time asks for, and a new phase starts only where a channel
/// switches.
pub open spec fn renders(phases: Seq<Phase>, active: Seq<int>, period: int) -> bool {
    &&& phase_start(phases, phases.len() as int) == period
    &&& forall|k: int| 0 <= k < phases.len() ==> #[trigger] phase_renders(phases, k, active)
    &&& forall|k: int| 0 < k < phases.len() ==> #[trigger] switches(phases, k)
}

/// The channel `c` is on at the time `t` from the start of the frame.
pub open spec fn lit_at(phases: Seq<Phase>, c: int, t: int) -> bool {
    exists|k: int|
        0 <= k < phases.len() && phase_start(phases, k) <= t < phase_start(phases, k + 1)
            && #[trigger] phases[k].lit[c]
}

/// The active times of the three channels at a frame rate.
pub open spec fn active_durations(levels: [u32; 3], frame_rate: u64) -> Seq<int> {
    seq![
        active_duration_spec(levels[0] as int, frame_rate as int),
        active_duration_spec(levels[1] as int, frame_rate as int),
        active_duration_spec(levels[2] as int, frame_rate as int),
    ]
}

/// How many channels have their active time end before the time `t`.
spec fn ended_before(active: [u64; 3], t: u64) -> int {
    (if active[0] < t {
        1int
    } else {
        0int
    }) + (if active[1] < t {
        1int
    } else {
        0int
    }) + (if active[2] < t {
        1int
    } else {
        0int
    })
}

/// The start of a phase depends on the phases before it alone.
proof fn phase_start_prefix(a: Seq<Phase>, b: Seq<Phase>, k: int)
    requires
        0 <= k <= a.len(),
        k <= b.len(),
        forall|j: int| 0 <= j < k ==> a[j] == b[j],
    ensures
        phase_start(a, k) == phase_start(b, k),
    decreases k,
{
    if k > 0 {
        phase_start_prefix(a, b, k - 1);
    }
}

/// A later phase starts no earlier than one before it.
proof fn phase_start_grows(phases: Seq<Phase>, i: int, j: int)
    requires
        0 <= i <= j,
    ensures
        phase_start(phases, i) <= phase_start(phases, j),
    decreases j,
{
    if i < j {
        phase_start_grows(phases, i, j - 1);
    }
}

/// Every time before the start of phase `n` lies in one of the phases
/// before it.
proof fn phase_covering(phases: Seq<Phase>, n: int, t: int) -> (k: int)
    requires
        0 <= n <= phases.len(),
        0 <= t < phase_start(phases, n),
    ensures
        0 <= k < n,
        phase_start(phases, k) <= t < phase_start(phases, k + 1),
    decreases n,
{
    if t >= phase_start(phases, n - 1) {
        n - 1
    } else {
        phase_covering(phases, n - 1, t)
    }
}

/// In a frame that renders the active times, a channel is on at a time of
/// the frame exactly if that time is before the end of its active time.
pub proof fn rendered_frame_lights(
    phases: Seq<Phase>,
    active: Seq<int>,
    period: int,
    c: int,
    t: int,
)
    requires
        renders(phases, active, period),
        0 <= c < 3,
        0 <= t < period,
    ensures
        lit_at(phases, c, t) <==> t < active[c],
{
    let k = phase_covering(phases, phases.len() as int, t);
    assert(phase_renders(phases, k, active));
    if lit_at(phases, c, t) {
        let j = choose|j: int|
            0 <= j < phases.len() && phase_start(phases, j) <= t < phase_start(phases, j + 1)
                && #[trigger] phases[j].lit[c];
        assert(phase_renders(phases, j, active));
    }
    if t < active[c] {
        assert(phases[k].lit[c]);
    }
}

/// The time for which the channel `c` is on in the first `k` phases.
pub open spec fn lit_time(phases: Seq<Phase>, c: int, k: int) -> int
    decreases k,
{
    if k <= 0 {
        0
    } else {
        lit_time(phases, c, k - 1) + if phases[k - 1].lit[c] {
            phases[k - 1].micros as int
        } else {
            0
        }
    }
}

/// In a frame that renders the active times, a channel has been on, when
/// phase `k` starts, for the time since the start of the frame or for its
/// active time, whichever is shorter.
proof fn lit_time_so_far(phases: Seq<Phase>, active: Seq<int>, period: int, c: int, k: int)
    requires
        renders(phases, active, period),
        0 <= c < 3,
        0 <= k <= phases.len(),
        0 <= active[c],
    ensures
        0 <= phase_start(phases, k),
        lit_time(phases, c, k) == if phase_start(phases, k) <= active[c] {
            phase_start(phases, k)
        } else {
            active[c]
        },
    decreases k,
{
    if k > 0 {
        lit_time_so_far(phases, active, period, c, k - 1);
        assert(phase_renders(phases, k - 1, active));
    }
}

/// In a frame that renders the active times, a channel is on for its active
/// time in all: a channel whose active time is zero is never on, and one
/// whose active time is the period is never off.
pub proof fn rendered_frame_duty(phases: Seq<Phase>, active: Seq<int>, period: int, c: int)
    requires
        renders(phases, active, period),
        0 <= c < 3,
        0 <= active[c] <= period,
    ensures
        lit_time(phases, c, phases.len() as int) == active[c],
        active[c] == 0 ==> forall|k: int|
            0 <= k < phases.len() ==> !(#[trigger] phases[k]).lit[c],
        active[c] == period ==> forall|k: int|
            0 <= k < phases.len() ==> (#[trigger] phases[k]).lit[c],
{
    lit_time_so_far(phases, active, period, c, phases.len() as int);
    assert forall|k: int| 0 <= k < phases.len() implies {
        &&& active[c] == 0 ==> !(#[trigger] phases[k]).lit[c]
        &&& active[c] == period ==> phases[k].lit[c]
    } by {
        assert(phase_renders(phases, k, active));
        phase_start_grows(phases, 0, k);
        phase_start_grows(phases, k + 1, phases.len() as int);
    }
}

/// The phases of one frame for the levels and the frame rate that the shared
/// state holds. Each channel is on from the start of the frame until its
/// active time is over, and the frame lasts one frame period.
pub fn frame(shared: &SharedState) -> (phases: Vec<Phase>)
    requires
        shared.valid(),
    ensures
        renders(
            phases@,
            active_durations(shared.levels, shared.frame_rate),
            frame_period_spec(shared.frame_rate as int),
        ),
        1 <= phases.len() <= 4,
        forall|k: int, c: int|
            0 <= k < phases.len() && 0 <= c < 3 && shared.levels[c] == 0
                ==> !#[trigger] phases[k].lit[c],
        forall|k: int, c: int|
            0 <= k < phases.len() && 0 <= c < 3 && shared.levels[c] == LEVELS - 1
                ==> #[trigger] phases[k].lit[c],
{
    let period = frame_period(shared.frame_rate);
    let active = [
        active_duration(shared.levels[0], shared.frame_rate),
        active_duration(shared.levels[1], shared.frame_rate),
        active_duration(shared.levels[2], shared.frame_rate),
    ];
    let ghost goal = active_durations(shared.levels, shared.frame_rate);
    proof {
        frame_period_bounds(shared.frame_rate);
    }
    let mut phases: Vec<Phase> = Vec::new();
    let mut start: u64 = 0;
    while start < period
        invariant
            start <= period,
            period > 0,
            goal.len() == 3,
            goal[0] == active[0] <= period,
            goal[1] == active[1] <= period,
            goal[2] == active[2] <= period,
            phase_start(phases@, phases.len() as int) == start,
            forall|k: int| 0 <= k < phases.len() ==> #[trigger] phase_renders(phases@, k, goal),
            forall|k: int| 0 < k < phases.len() ==> #[trigger] switches(phases@, k),
            0 < phases.len() && start < period ==> active[0] == start || active[1] == start
                || active[2] == start,
            phases.len() == 0 <==> start == 0,
            0 < phases.len() ==> phases.len() <= ended_before(active, start) + 1,
        decreases period - start,
    {
        let lit = [active[0] > start, active[1] > start, active[2] > start];
        let mut end = period;
        if active[0] > start && active[0] < end {
            end = active[0];
        }
        if active[1] > start && active[1] < end {
            end = active[1];
        }
        if active[2] > start && active[2] < end {
            end = active[2];
        }
        let ghost before = phases@;
        phases.push(Phase { lit, micros: end - start });
        proof {
            let n = before.len() as int;
            assert forall|k: int| 0 <= k <= n implies phase_start(phases@, k)
                == phase_start(before, k) by {
                phase_start_prefix(phases@, before, k);
            }
            assert forall|k: int| 0 <= k < phases.len() implies #[trigger] phase_renders(
                phases@,
                k,
                goal,
            ) by {
                if k < n {
                    assert(phase_renders(before, k, goal));
                }
            }
            assert forall|k: int| 0 < k < phases.len() implies #[trigger] switches(
                phases@,
                k,
            ) by {
                if k < n {
                    assert(switches(before, k));
                } else {
                    assert(phase_renders(before, n - 1, goal));
                }
            }
        }
        start = end;
    }
    proof {
        assert forall|c: int| 0 <= c < 3 implies {
            &&& 0 <= #[trigger] goal[c] <= period
            &&& shared.levels[c] == 0 ==> goal[c] == 0
            &&& shared.levels[c] == LEVELS - 1 ==> goal[c] == period
        } by {
            active_duration_bounds(shared.levels[c] as int, shared.frame_rate);
        }
        rendered_frame_duty(phases@, goal, period as int, 0);
        rendered_frame_duty(phases@, goal, period as int, 1);
        rendered_frame_duty(phases@, goal, period as int, 2);
    }
    phases
}

} // verus!
