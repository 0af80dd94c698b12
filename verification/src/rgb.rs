//! The PWM engine: from a snapshot of the frame rate and the levels to the
//! output changes and delays of one period.

use vstd::prelude::*;

use crate::plan::{channel_plan, period_plan, Action};
use crate::timing::{
    drivable, lemma_duration_bound, lemma_tick_time_bound, lemma_tick_time_vanishes,
    levels_in_range, tick_time_of, MAX_TICK_TIME, MICROS_PER_SECOND,
};
use crate::{LevelTriple, CHANNELS, LEVELS};

verus! {

/// What the engine holds.
pub struct RgbView {
    pub levels: LevelTriple,
    pub tick_time: u64,
}

/// The engine with its own copy of the configuration, taken once per period:
/// the levels, and the tick time of the frame rate.
pub struct Rgb {
    levels: LevelTriple,
    tick_time: u64,
}

impl View for Rgb {
    type V = RgbView;

    closed spec fn view(&self) -> RgbView {
        RgbView { levels: self.levels, tick_time: self.tick_time }
    }
}

/// The steps of the channels before `led`, one after the other.
spec fn steps_before(levels: LevelTriple, tick_time: int, led: nat) -> Seq<Action>
    decreases led,
{
    if led == 0 {
        Seq::empty()
    } else {
        let last = (led - 1) as usize;
        steps_before(levels, tick_time, (led - 1) as nat) + channel_plan(
            last,
            levels[last as int] as int,
            tick_time,
        )
    }
}

impl Rgb {
    /// Every step of the engine's copy can be taken without overflow.
    #[verifier::type_invariant]
    spec fn steppable(self) -> bool {
        levels_in_range(self.levels) && self.tick_time <= MAX_TICK_TIME
    }

    /// The tick time of a frame rate, in microseconds. A frame rate of zero
    /// has none: the division would be by zero.
    pub fn frame_tick_time(frame_rate: u64) -> (tick_time: u64)
        requires
            frame_rate > 0,
        ensures
            tick_time == tick_time_of(frame_rate as int),
            tick_time <= MAX_TICK_TIME,
    {
        let steps_per_frame: u64 = CHANNELS as u64 * LEVELS as u64;
        assert(frame_rate * steps_per_frame == CHANNELS * frame_rate * LEVELS)
            by (nonlinear_arith)
            requires
                steps_per_frame == CHANNELS * LEVELS,
        ;
        match frame_rate.checked_mul(steps_per_frame) {
            Some(steps) => {
                proof {
                    lemma_tick_time_bound(frame_rate as int);
                }
                MICROS_PER_SECOND / steps
            },
            None => {
                proof {
                    lemma_tick_time_vanishes(frame_rate as int);
                }
                0
            },
        }
    }

    /// An engine with every channel dark and the tick time of `frame_rate`.
    pub fn new(frame_rate: u64) -> (rgb: Self)
        requires
            frame_rate > 0,
        ensures
            rgb@.levels == [0u32, 0u32, 0u32],
            rgb@.tick_time == tick_time_of(frame_rate as int),
    {
        let tick_time = Self::frame_tick_time(frame_rate);
        Rgb { levels: [0, 0, 0], tick_time }
    }

    /// What to do for the step of channel `led`, in order.
    pub fn step(&self, led: usize) -> (plan: Vec<Action>)
        requires
            led < CHANNELS,
        ensures
            plan@ == channel_plan(led, self@.levels[led as int] as int, self@.tick_time as int),
            self@.levels[led as int] <= LEVELS,
            self@.tick_time <= MAX_TICK_TIME,
    {
        proof {
            use_type_invariant(self);
        }
        let mut plan: Vec<Action> = Vec::new();
        let level: u32 = self.levels[led];
        if level > 0 {
            plan.push(Action::SetHigh { led });
            proof {
                lemma_duration_bound(level as int, self.tick_time as int);
            }
            let on_time: u64 = level as u64 * self.tick_time;
            plan.push(Action::Delay { micros: on_time });
            plan.push(Action::SetLow { led });
        }
        let level: u32 = LEVELS - level;
        if level > 0 {
            proof {
                lemma_duration_bound(level as int, self.tick_time as int);
            }
            let off_time: u64 = level as u64 * self.tick_time;
            plan.push(Action::Delay { micros: off_time });
        }
        plan
    }

    /// Whether `run` takes this snapshot: the frame rate is not zero and no
    /// level is above `LEVELS`.
    pub fn is_drivable(frame_rate: u64, levels: &LevelTriple) -> (ok: bool)
        ensures
            ok == drivable(frame_rate, *levels),
    {
        frame_rate > 0 && levels[0] <= LEVELS && levels[1] <= LEVELS && levels[2] <= LEVELS
    }

    /// One period. Takes the snapshot as the engine's own copy, with the tick
    /// time of its frame rate, and says what to do for the step of each
    /// channel in turn.
    pub fn run(&mut self, frame_rate: u64, levels: LevelTriple) -> (plan: Vec<Action>)
        requires
            drivable(frame_rate, levels),
        ensures
            final(self)@.levels == levels,
            final(self)@.tick_time == tick_time_of(frame_rate as int),
            plan@ == period_plan(levels, tick_time_of(frame_rate as int)),
    {
        proof {
            use_type_invariant(&*self);
        }
        self.tick_time = Self::frame_tick_time(frame_rate);
        self.levels = levels;
        let mut plan: Vec<Action> = Vec::new();
        for led in 0..CHANNELS
            invariant
                self@.levels == levels,
                self@.tick_time == tick_time_of(frame_rate as int),
                plan@ == steps_before(levels, self@.tick_time as int, led as nat),
        {
            let mut step_plan = self.step(led);
            plan.append(&mut step_plan);
        }
        proof {
            reveal_with_fuel(steps_before, 4);
        }
        plan
    }

    /// The engine's copy of the levels.
    pub fn levels(&self) -> (levels: LevelTriple)
        ensures
            levels == self@.levels,
            levels_in_range(levels),
    {
        proof {
            use_type_invariant(self);
        }
        self.levels
    }

    /// The tick time that the engine steps with, in microseconds.
    pub fn tick_time(&self) -> (tick_time: u64)
        ensures
            tick_time == self@.tick_time,
            tick_time <= MAX_TICK_TIME,
    {
        proof {
            use_type_invariant(self);
        }
        self.tick_time
    }
}

} // verus!
