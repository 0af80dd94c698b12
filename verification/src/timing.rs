//! The arithmetic of the PWM timing: the tick time of a frame rate, and the
//! share of a channel's step that its level is lit for.

use vstd::prelude::*;

use crate::{LevelTriple, CHANNELS, LEVELS};

verus! {

/// Microseconds in one second.
pub const MICROS_PER_SECOND: u64 = 1_000_000;

/// The longest tick time there is: the one of a frame rate of 1.
pub const MAX_TICK_TIME: u64 = 20_833;

/// Duration of one brightness step in microseconds,
/// `1_000_000 / (3 * frame_rate * 16)`: one second shared out among the
/// `LEVELS` steps of each of the `CHANNELS` channels, `frame_rate` times over.
/// The division truncates.
pub open spec fn tick_time_of(frame_rate: int) -> int {
    MICROS_PER_SECOND as int / (CHANNELS as int * frame_rate * LEVELS as int)
}

/// Microseconds that a channel at `level` is held high in its step.
pub open spec fn on_duration(level: int, tick_time: int) -> int {
    level * tick_time
}

/// Microseconds that a channel at `level` is held low in its step.
pub open spec fn off_duration(level: int, tick_time: int) -> int {
    (LEVELS as int - level) * tick_time
}

/// No level is above `LEVELS`. A level of `LEVELS` itself lights its channel
/// for the whole of its step.
pub open spec fn levels_in_range(levels: LevelTriple) -> bool {
    forall|led: int| 0 <= led < CHANNELS ==> levels[led] <= LEVELS
}

/// A snapshot that can be driven: the frame rate is not zero, so that there
/// is a tick time, and no level is above `LEVELS`, so that there is an
/// off-duration.
pub open spec fn drivable(frame_rate: u64, levels: LevelTriple) -> bool {
    frame_rate > 0 && levels_in_range(levels)
}

/// The tick time of a frame rate that is not zero is never negative and never
/// above `MAX_TICK_TIME`, which is the tick time of a frame rate of 1.
pub proof fn lemma_tick_time_bound(frame_rate: int)
    requires
        frame_rate > 0,
    ensures
        0 <= tick_time_of(frame_rate) <= MAX_TICK_TIME,
        tick_time_of(1) == MAX_TICK_TIME,
{
    assert(0 <= 1_000_000int / (3 * frame_rate * 16) <= 20_833) by (nonlinear_arith)
        requires
            frame_rate >= 1,
    ;
    assert(1_000_000int / 48int == 20_833) by (nonlinear_arith);
}

/// Where a frame has more steps than a second has microseconds, the tick
/// time is zero.
pub proof fn lemma_tick_time_vanishes(frame_rate: int)
    requires
        CHANNELS * frame_rate * LEVELS > MICROS_PER_SECOND,
    ensures
        tick_time_of(frame_rate) == 0,
{
    assert(1_000_000int / (3 * frame_rate * 16) == 0) by (nonlinear_arith)
        requires
            3 * frame_rate * 16 > 1_000_000,
    ;
}

/// The periods of a frame rate fit into a second: `frame_rate` periods of
/// `LEVELS` ticks for each of the `CHANNELS` channels take no more than
/// `MICROS_PER_SECOND` microseconds.
pub proof fn lemma_frames_fit_in_a_second(frame_rate: int)
    requires
        frame_rate > 0,
    ensures
        frame_rate * (CHANNELS * (LEVELS * tick_time_of(frame_rate))) <= MICROS_PER_SECOND,
{
    assert(frame_rate * (3 * (16 * (1_000_000int / (3 * frame_rate * 16)))) <= 1_000_000)
        by (nonlinear_arith)
        requires
            frame_rate > 0,
    ;
}

/// A share of up to `LEVELS` steps of at most `MAX_TICK_TIME` microseconds
/// each is no longer than a whole step at the longest tick time, a third of
/// a second.
pub proof fn lemma_duration_bound(steps: int, tick_time: int)
    by (nonlinear_arith)
    requires
        0 <= steps <= LEVELS,
        0 <= tick_time <= MAX_TICK_TIME,
    ensures
        0 <= steps * tick_time <= LEVELS * MAX_TICK_TIME,
{
}

/// The on-duration and the off-duration of a level add up to a whole step of
/// `LEVELS` ticks.
pub proof fn lemma_durations_fill_the_step(level: int, tick_time: int)
    ensures
        on_duration(level, tick_time) + off_duration(level, tick_time) == LEVELS * tick_time,
{
    assert(level * tick_time + (16 - level) * tick_time == 16 * tick_time) by (nonlinear_arith);
}

/// At the highest level that a channel can be set to, `LEVELS - 1`, the
/// off-duration is a single tick.
pub proof fn lemma_brightest_level_is_off_for_one_tick(tick_time: int)
    ensures
        off_duration(LEVELS - 1, tick_time) == tick_time,
{
    assert((16 - 15) * tick_time == tick_time) by (nonlinear_arith);
}

} // verus!
