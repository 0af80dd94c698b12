//! What the engine hands to its caller: the actions of a channel's step and
//! of a whole period, and what carrying them out does to the outputs.

use vstd::prelude::*;

use crate::timing::{
    lemma_brightest_level_is_off_for_one_tick, lemma_duration_bound,
    lemma_durations_fill_the_step, levels_in_range, off_duration, on_duration, MAX_TICK_TIME,
};
use crate::{LevelTriple, CHANNELS, LEVELS};

verus! {

/// One thing for the caller to do to the hardware.
#[derive(Clone, Copy, Debug, PartialEq, Eq)]
pub enum Action {
    /// Drive the output of channel `led` high.
    SetHigh { led: usize },
    /// Drive the output of channel `led` low.
    SetLow { led: usize },
    /// Leave the outputs as they are for `micros` microseconds.
    Delay { micros: u64 },
}

/// The step of one channel: where the level is not zero, high for the
/// on-duration and low again; then, where any of the step is left, a delay of
/// the off-duration. For a level up to `LEVELS` and a tick time up to
/// `MAX_TICK_TIME` both durations fit into a delay.
pub open spec fn channel_plan(led: usize, level: int, tick_time: int) -> Seq<Action> {
    let on_phase = if level > 0 {
        seq![
            Action::SetHigh { led },
            Action::Delay { micros: on_duration(level, tick_time) as u64 },
            Action::SetLow { led },
        ]
    } else {
        Seq::empty()
    };
    let off_phase = if LEVELS as int - level > 0 {
        seq![Action::Delay { micros: off_duration(level, tick_time) as u64 }]
    } else {
        Seq::empty()
    };
    on_phase + off_phase
}

/// One whole period: the step of red, then of green, then of blue.
pub open spec fn period_plan(levels: LevelTriple, tick_time: int) -> Seq<Action> {
    channel_plan(0, levels[0] as int, tick_time) + channel_plan(1, levels[1] as int, tick_time)
        + channel_plan(2, levels[2] as int, tick_time)
}

/// Microseconds that carrying out `plan` waits, all delays together.
pub open spec fn total_delay(plan: Seq<Action>) -> int
    decreases plan.len(),
{
    if plan.len() == 0 {
        0
    } else {
        total_delay(plan.drop_last()) + match plan.last() {
            Action::Delay { micros } => micros as int,
            _ => 0,
        }
    }
}

/// Whether the output of channel `led` is high once `plan` has been carried
/// out; `high` says whether it was high before.
pub open spec fn high_after(plan: Seq<Action>, led: usize, high: bool) -> bool
    decreases plan.len(),
{
    if plan.len() == 0 {
        high
    } else {
        let before = high_after(plan.drop_last(), led, high);
        match plan.last() {
            Action::SetHigh { led: raised } => raised == led || before,
            Action::SetLow { led: lowered } => lowered != led && before,
            Action::Delay { .. } => before,
        }
    }
}

/// Microseconds for which the output of channel `led` is high while `plan`
/// is carried out; `high` says whether it was high before.
pub open spec fn high_time(plan: Seq<Action>, led: usize, high: bool) -> int
    decreases plan.len(),
{
    if plan.len() == 0 {
        0
    } else {
        let before = plan.drop_last();
        high_time(before, led, high) + match plan.last() {
            Action::Delay { micros } => if high_after(before, led, high) {
                micros as int
            } else {
                0
            },
            _ => 0,
        }
    }
}

/// Microseconds for which the output of channel `led` is low while `plan` is
/// carried out; `high` says whether it was high before.
pub open spec fn low_time(plan: Seq<Action>, led: usize, high: bool) -> int {
    total_delay(plan) - high_time(plan, led, high)
}

/// Duty-cycle completeness. The step of a channel that is low to begin with
/// holds it high for the on-duration of its level and low for the
/// off-duration, which together are the `LEVELS` ticks that the step takes,
/// and leaves it low.
pub proof fn lemma_duty_cycle_complete(led: usize, level: int, tick_time: int)
    requires
        0 <= level <= LEVELS,
        0 <= tick_time <= MAX_TICK_TIME,
    ensures
        high_time(channel_plan(led, level, tick_time), led, false) == on_duration(level, tick_time),
        low_time(channel_plan(led, level, tick_time), led, false) == off_duration(level, tick_time),
        on_duration(level, tick_time) + off_duration(level, tick_time) == LEVELS * tick_time,
        total_delay(channel_plan(led, level, tick_time)) == LEVELS * tick_time,
        !high_after(channel_plan(led, level, tick_time), led, false),
{
    lemma_durations_fill_the_step(level, tick_time);
    lemma_duration_bound(level, tick_time);
    lemma_duration_bound(LEVELS - level, tick_time);
    reveal_with_fuel(total_delay, 5);
    reveal_with_fuel(high_time, 5);
    reveal_with_fuel(high_after, 5);
}

/// A channel at level zero is never driven high in its step: all there is to
/// its step is a delay of `LEVELS` ticks, and the channel, low to begin
/// with, is high for no time at all.
pub proof fn lemma_dark_channel_stays_low(led: usize, tick_time: int)
    requires
        0 <= tick_time <= MAX_TICK_TIME,
    ensures
        channel_plan(led, 0, tick_time) == seq![
            (Action::Delay { micros: (LEVELS * tick_time) as u64 }),
        ],
        forall|i: int|
            0 <= i < channel_plan(led, 0, tick_time).len() ==> !(channel_plan(
                led,
                0,
                tick_time,
            )[i] is SetHigh),
        high_time(channel_plan(led, 0, tick_time), led, false) == 0,
{
    lemma_duty_cycle_complete(led, 0, tick_time);
}

/// At the highest level that a channel can be set to, `LEVELS - 1`, the step
/// ends with a delay of a single tick, and a single tick is all the time
/// that the channel is low for.
pub proof fn lemma_brightest_level_rests_one_tick(led: usize, tick_time: int)
    requires
        0 <= tick_time <= MAX_TICK_TIME,
    ensures
        off_duration(LEVELS - 1, tick_time) == tick_time,
        low_time(channel_plan(led, LEVELS - 1, tick_time), led, false) == tick_time,
        channel_plan(led, LEVELS - 1, tick_time).last() == (Action::Delay {
            micros: tick_time as u64,
        }),
{
    lemma_brightest_level_is_off_for_one_tick(tick_time);
    lemma_duty_cycle_complete(led, LEVELS - 1, tick_time);
}

/// The step of one channel leaves every other channel as it was, and a
/// channel that is low stays low for all of another channel's step.
pub proof fn lemma_step_leaves_other_channels(
    led: usize,
    other: usize,
    level: int,
    tick_time: int,
    high: bool,
)
    requires
        other != led,
    ensures
        high_after(channel_plan(led, level, tick_time), other, high) == high,
        high_time(channel_plan(led, level, tick_time), other, false) == 0,
{
    reveal_with_fuel(high_time, 5);
    reveal_with_fuel(high_after, 5);
}

/// However far the step of one channel has been carried out, every other
/// channel is as it was before.
pub proof fn lemma_partial_step_leaves_other_channels(
    led: usize,
    other: usize,
    level: int,
    tick_time: int,
    high: bool,
    moment: int,
)
    requires
        other != led,
        0 <= moment <= channel_plan(led, level, tick_time).len(),
    ensures
        high_after(channel_plan(led, level, tick_time).take(moment), other, high) == high,
    decreases moment,
{
    let plan = channel_plan(led, level, tick_time);
    if moment > 0 {
        lemma_partial_step_leaves_other_channels(led, other, level, tick_time, high, moment - 1);
        assert(plan.take(moment).drop_last() =~= plan.take(moment - 1));
    }
}

/// A channel that is low before the step of any channel is low after it.
pub proof fn lemma_step_ends_low(led: usize, channel: usize, level: int, tick_time: int)
    ensures
        !high_after(channel_plan(led, level, tick_time), channel, false),
{
    let plan = channel_plan(led, level, tick_time);
    if channel == led {
        reveal_with_fuel(high_after, 5);
    } else {
        lemma_partial_step_leaves_other_channels(
            led,
            channel,
            level,
            tick_time,
            false,
            plan.len() as int,
        );
        assert(plan.take(plan.len() as int) =~= plan);
    }
}

/// Carrying out one plan after another waits for as long as the two wait
/// together.
pub proof fn lemma_total_delay_concat(head: Seq<Action>, tail: Seq<Action>)
    ensures
        total_delay(head + tail) == total_delay(head) + total_delay(tail),
    decreases tail.len(),
{
    if tail.len() == 0 {
        assert(head + tail =~= head);
    } else {
        assert((head + tail).drop_last() =~= head + tail.drop_last());
        lemma_total_delay_concat(head, tail.drop_last());
    }
}

/// Carrying out one plan after another: the second plan finds each output
/// as the first has left it, and the times that an output is high add up.
pub proof fn lemma_high_time_concat(head: Seq<Action>, tail: Seq<Action>, led: usize, high: bool)
    ensures
        high_after(head + tail, led, high) == high_after(tail, led, high_after(head, led, high)),
        high_time(head + tail, led, high) == high_time(head, led, high) + high_time(
            tail,
            led,
            high_after(head, led, high),
        ),
    decreases tail.len(),
{
    if tail.len() == 0 {
        assert(head + tail =~= head);
    } else {
        assert((head + tail).drop_last() =~= head + tail.drop_last());
        lemma_high_time_concat(head, tail.drop_last(), led, high);
    }
}

/// A whole period, begun with every output low: it waits for `LEVELS` ticks
/// per channel, whatever the levels are; each channel is high for the
/// on-duration of its level; and every output is low again at the end.
pub proof fn lemma_period_duty(levels: LevelTriple, tick_time: int, led: usize)
    requires
        levels_in_range(levels),
        0 <= tick_time <= MAX_TICK_TIME,
        led < CHANNELS,
    ensures
        total_delay(period_plan(levels, tick_time)) == CHANNELS * (LEVELS * tick_time),
        high_time(period_plan(levels, tick_time), led, false) == on_duration(
            levels[led as int] as int,
            tick_time,
        ),
        !high_after(period_plan(levels, tick_time), led, false),
{
    let red = channel_plan(0, levels[0] as int, tick_time);
    let green = channel_plan(1, levels[1] as int, tick_time);
    let blue = channel_plan(2, levels[2] as int, tick_time);
    lemma_total_delay_concat(red, green);
    lemma_total_delay_concat(red + green, blue);
    lemma_high_time_concat(red, green, led, false);
    lemma_high_time_concat(red + green, blue, led, false);
    lemma_duty_cycle_complete(0, levels[0] as int, tick_time);
    lemma_duty_cycle_complete(1, levels[1] as int, tick_time);
    lemma_duty_cycle_complete(2, levels[2] as int, tick_time);
    if led != 0 {
        lemma_step_leaves_other_channels(0, led, levels[0] as int, tick_time, false);
    }
    if led != 1 {
        lemma_step_leaves_other_channels(1, led, levels[1] as int, tick_time, false);
    }
    if led != 2 {
        lemma_step_leaves_other_channels(2, led, levels[2] as int, tick_time, false);
    }
}

/// The channels take turns: at no moment of a period that is begun with
/// every output low are the outputs of two channels high together.
pub proof fn lemma_one_channel_at_a_time(
    levels: LevelTriple,
    tick_time: int,
    moment: int,
    led: usize,
    other: usize,
)
    requires
        0 <= moment <= period_plan(levels, tick_time).len(),
        other != led,
    ensures
        !(high_after(period_plan(levels, tick_time).take(moment), led, false) && high_after(
            period_plan(levels, tick_time).take(moment),
            other,
            false,
        )),
{
    let red = channel_plan(0, levels[0] as int, tick_time);
    let green = channel_plan(1, levels[1] as int, tick_time);
    let blue = channel_plan(2, levels[2] as int, tick_time);
    let so_far = period_plan(levels, tick_time).take(moment);
    if moment <= red.len() {
        // Red is stepping: the other of the two channels has not been touched.
        let idle = if led != 0 { led } else { other };
        assert(so_far =~= red.take(moment));
        lemma_partial_step_leaves_other_channels(
            0,
            idle,
            levels[0] as int,
            tick_time,
            false,
            moment,
        );
    } else if moment <= red.len() + green.len() {
        // Green is stepping: red has left every channel low.
        let idle = if led != 1 { led } else { other };
        let green_so_far = green.take(moment - red.len());
        assert(so_far =~= red + green_so_far);
        lemma_high_time_concat(red, green_so_far, idle, false);
        lemma_step_ends_low(0, idle, levels[0] as int, tick_time);
        lemma_partial_step_leaves_other_channels(
            1,
            idle,
            levels[1] as int,
            tick_time,
            false,
            moment - red.len(),
        );
    } else {
        // Blue is stepping: red and green have left every channel low.
        let idle = if led != 2 { led } else { other };
        let blue_so_far = blue.take(moment - red.len() - green.len());
        assert(so_far =~= (red + green) + blue_so_far);
        lemma_high_time_concat(red + green, blue_so_far, idle, false);
        lemma_high_time_concat(red, green, idle, false);
        lemma_step_ends_low(0, idle, levels[0] as int, tick_time);
        lemma_step_ends_low(1, idle, levels[1] as int, tick_time);
        lemma_partial_step_leaves_other_channels(
            2,
            idle,
            levels[2] as int,
            tick_time,
            false,
            moment - red.len() - green.len(),
        );
    }
}

} // verus!
