//! The shared configuration store: the three brightness levels and the frame
//! rate. A reader gets a whole value. A writer hands in a mutator, which runs
//! with exclusive access to the field it changes.

use vstd::prelude::*;

use crate::LevelTriple;

verus! {

/// Frame rate that a fresh store holds, in frames per second.
pub const DEFAULT_FRAME_RATE: u64 = 100;

/// What a store holds.
pub struct ConfigView {
    pub levels: LevelTriple,
    pub frame_rate: u64,
}

/// The levels and the frame rate that the input side writes and the PWM
/// engine reads. The store accepts any value: keeping the levels below
/// `LEVELS` and the frame rate above zero is the writer's duty.
pub struct ConfigStore {
    levels: LevelTriple,
    frame_rate: u64,
}

impl View for ConfigStore {
    type V = ConfigView;

    closed spec fn view(&self) -> ConfigView {
        ConfigView { levels: self.levels, frame_rate: self.frame_rate }
    }
}

impl ConfigStore {
    /// A store with every channel dark and the default frame rate.
    pub fn new() -> (store: Self)
        ensures
            store@.levels == [0u32, 0u32, 0u32],
            store@.frame_rate == DEFAULT_FRAME_RATE,
    {
        ConfigStore { levels: [0, 0, 0], frame_rate: DEFAULT_FRAME_RATE }
    }

    /// A copy of the current levels.
    pub fn read_levels(&self) -> (levels: LevelTriple)
        ensures
            levels == self@.levels,
    {
        self.levels
    }

    /// Runs `mutator` once on the stored levels: what it leaves there is what
    /// the store holds from then on. The frame rate stays as it was. The
    /// store is borrowed for the whole update, so that no reader and no other
    /// writer finds the levels half-written.
    pub fn update_levels<F: FnOnce(&mut LevelTriple)>(&mut self, mutator: F)
        requires
            forall|place: &mut LevelTriple|
                *place == old(self)@.levels ==> call_requires(mutator, (place,)),
        ensures
            exists|place: &mut LevelTriple|
                *place == old(self)@.levels && *final(place) == final(self)@.levels
                    && call_ensures(mutator, (place,), ()),
            final(self)@.frame_rate == old(self)@.frame_rate,
    {
        mutator(&mut self.levels);
    }

    /// The current frame rate.
    pub fn read_frame_rate(&self) -> (frame_rate: u64)
        ensures
            frame_rate == self@.frame_rate,
    {
        self.frame_rate
    }

    /// Runs `mutator` once on the stored frame rate: what it leaves there is
    /// what the store holds from then on. The levels stay as they were. The
    /// store is borrowed for the whole update, as in `update_levels`.
    pub fn update_frame_rate<F: FnOnce(&mut u64)>(&mut self, mutator: F)
        requires
            forall|place: &mut u64|
                *place == old(self)@.frame_rate ==> call_requires(mutator, (place,)),
        ensures
            exists|place: &mut u64|
                *place == old(self)@.frame_rate && *final(place) == final(self)@.frame_rate
                    && call_ensures(mutator, (place,), ()),
            final(self)@.levels == old(self)@.levels,
    {
        mutator(&mut self.frame_rate);
    }
}

/// Level updates do not mix. Let one writer always leave the triple `a` and
/// another always leave the triple `b`. Once both updates have run on a
/// store, one after the other in either order, the store holds `a` or it
/// holds `b`: all three slots come from the same writer.
///
/// `before`, `between` and `after` are what the store holds before the
/// earlier update, between the two, and after the later one.
pub proof fn lemma_level_updates_do_not_mix<F, G>(
    first: F,
    second: G,
    a: LevelTriple,
    b: LevelTriple,
    before: ConfigView,
    between: ConfigView,
    after: ConfigView,
) where F: FnOnce(&mut LevelTriple), G: FnOnce(&mut LevelTriple)
    requires
        forall|place: &mut LevelTriple| call_ensures(first, (place,), ()) ==> *final(place) == a,
        forall|place: &mut LevelTriple| call_ensures(second, (place,), ()) ==> *final(place) == b,
        ({
            &&& exists|place: &mut LevelTriple|
                *place == before.levels && *final(place) == between.levels
                    && call_ensures(first, (place,), ())
            &&& exists|place: &mut LevelTriple|
                *place == between.levels && *final(place) == after.levels
                    && call_ensures(second, (place,), ())
        }) || ({
            &&& exists|place: &mut LevelTriple|
                *place == before.levels && *final(place) == between.levels
                    && call_ensures(second, (place,), ())
            &&& exists|place: &mut LevelTriple|
                *place == between.levels && *final(place) == after.levels
                    && call_ensures(first, (place,), ())
        }),
    ensures
        after.levels == a || after.levels == b,
{
}

} // verus!
