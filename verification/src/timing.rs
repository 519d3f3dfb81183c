//! Elapsed time between two samples of a free-running 32-bit tick counter.
//!
//! The counter wraps at its native width. Subtracting two samples in that
//! width gives the ticks between them as long as fewer than
//! [`counter_modulus`] ticks passed, whether or not the counter wrapped in
//! between. Ticks are turned into whole microseconds in 64-bit arithmetic,
//! which cannot overflow for any 32-bit tick count. A rate is a [`Hertz`],
//! which is never zero, so the division is always defined.

use vstd::prelude::*;

verus! {

/// Microseconds in one second.
pub const MICROS_PER_SECOND: u64 = 1_000_000;

/// A counter rate in ticks per second that is not zero.
#[derive(Clone, Copy, Debug, PartialEq, Eq)]
pub struct Hertz {
    ticks_per_second: u32,
}

impl View for Hertz {
    type V = u32;

    closed spec fn view(&self) -> u32 {
        self.ticks_per_second
    }
}

impl Hertz {
    /// What holds of every rate: it is not zero.
    #[verifier::type_invariant]
    pub open spec fn nonzero(&self) -> bool {
        self@ > 0
    }

    /// The rate of `ticks_per_second`, unless that is zero.
    pub fn new(ticks_per_second: u32) -> (rate: Option<Hertz>)
        ensures
            rate is None <==> ticks_per_second == 0,
            rate matches Some(hertz) ==> hertz@ == ticks_per_second,
    {
        if ticks_per_second == 0 {
            None
        } else {
            Some(Hertz { ticks_per_second })
        }
    }

    /// The rate in ticks per second.
    pub fn get(&self) -> (ticks_per_second: u32)
        ensures
            ticks_per_second == self@,
            ticks_per_second > 0,
    {
        proof {
            use_type_invariant(self);
        }
        self.ticks_per_second
    }
}

/// Number of distinct values of the tick counter.
pub open spec fn counter_modulus() -> int {
    0x1_0000_0000
}

/// The counter's value `delay` ticks after it read `start`.
pub open spec fn tick_after(start: u32, delay: int) -> u32 {
    ((start + delay) % counter_modulus()) as u32
}

/// Ticks that passed from the sample `start` to the sample `now`, given that
/// fewer than [`counter_modulus`] ticks passed in between.
pub open spec fn elapsed_ticks_spec(start: u32, now: u32) -> int {
    if now >= start {
        now - start
    } else {
        now - start + counter_modulus()
    }
}

/// Whole microseconds that `ticks` ticks last at `hz` ticks per second,
/// rounded down.
pub open spec fn ticks_to_micros_spec(ticks: int, hz: int) -> int {
    ticks * MICROS_PER_SECOND / hz
}

/// Whole microseconds between the samples `start` and `now` of a counter
/// that runs at `hz` ticks per second.
pub open spec fn elapsed_micros_spec(start: u32, now: u32, hz: u32) -> int {
    ticks_to_micros_spec(elapsed_ticks_spec(start, now), hz as int)
}

/// Ticks from `start` to `now`, correct across a wrap of the counter.
pub fn elapsed_ticks(start: u32, now: u32) -> (ticks: u32)
    ensures
        ticks == elapsed_ticks_spec(start, now),
{
    now.wrapping_sub(start)
}

/// Converts a tick count to whole microseconds at the rate `hz`.
pub fn ticks_to_micros(ticks: u32, hz: Hertz) -> (micros: u64)
    ensures
        micros == ticks_to_micros_spec(ticks as int, hz@ as int),
{
    let wide: u64 = ticks as u64;
    let scaled: u64 = wide * MICROS_PER_SECOND;
    scaled / (hz.get() as u64)
}

/// Whole microseconds from the sample `start` to the sample `now` of a
/// counter that runs at the rate `hz`.
pub fn elapsed_micros(start: u32, now: u32, hz: Hertz) -> (micros: u64)
    ensures
        micros == elapsed_micros_spec(start, now, hz@),
{
    ticks_to_micros(elapsed_ticks(start, now), hz)
}

/// Subtracting the start sample from a later sample gives back the number
/// of ticks that passed, for every delay shorter than one full turn of the
/// counter, whether or not the counter wrapped.
pub proof fn lemma_elapsed_ticks_measures_delay(start: u32, delay: int)
    requires
        0 <= delay < counter_modulus(),
    ensures
        elapsed_ticks_spec(start, tick_after(start, delay)) == delay,
{
}

/// Within one turn of the counter, a later sample gives strictly more
/// elapsed ticks than an earlier one, across a wrap too.
pub proof fn lemma_elapsed_ticks_strictly_increasing(start: u32, earlier: int, later: int)
    requires
        0 <= earlier < later < counter_modulus(),
    ensures
        elapsed_ticks_spec(start, tick_after(start, earlier)) < elapsed_ticks_spec(
            start,
            tick_after(start, later),
        ),
{
}

/// More ticks never give fewer microseconds.
pub proof fn lemma_ticks_to_micros_monotonic(fewer: int, more: int, hz: int)
    requires
        0 <= fewer <= more,
        hz > 0,
    ensures
        0 <= ticks_to_micros_spec(fewer, hz) <= ticks_to_micros_spec(more, hz),
{
    assert(0 <= fewer * 1_000_000 / hz <= more * 1_000_000 / hz) by (nonlinear_arith)
        requires
            0 <= fewer <= more,
            hz > 0,
    ;
}

/// A counter no faster than one tick per microsecond gives strictly more
/// microseconds for strictly more ticks.
pub proof fn lemma_ticks_to_micros_strictly_increasing(fewer: int, more: int, hz: int)
    requires
        0 <= fewer < more,
        0 < hz <= 1_000_000,
    ensures
        ticks_to_micros_spec(fewer, hz) < ticks_to_micros_spec(more, hz),
{
    assert(fewer * 1_000_000 / hz < more * 1_000_000 / hz) by (nonlinear_arith)
        requires
            0 <= fewer < more,
            0 < hz <= 1_000_000,
    ;
}

/// The microseconds between two samples are the true delay converted at
/// the counter's rate, for every delay shorter than one full turn of the
/// counter. They never shrink as the delay grows, and on a counter no faster
/// than one tick per microsecond they grow with every tick.
pub proof fn lemma_elapsed_micros_increasing(start: u32, earlier: int, later: int, hz: u32)
    requires
        0 <= earlier <= later < counter_modulus(),
        hz > 0,
    ensures
        elapsed_micros_spec(start, tick_after(start, earlier), hz) == ticks_to_micros_spec(
            earlier,
            hz as int,
        ),
        elapsed_micros_spec(start, tick_after(start, later), hz) == ticks_to_micros_spec(
            later,
            hz as int,
        ),
        elapsed_micros_spec(start, tick_after(start, earlier), hz) <= elapsed_micros_spec(
            start,
            tick_after(start, later),
            hz,
        ),
        earlier < later && hz <= MICROS_PER_SECOND ==> elapsed_micros_spec(
            start,
            tick_after(start, earlier),
            hz,
        ) < elapsed_micros_spec(start, tick_after(start, later), hz),
{
    lemma_elapsed_ticks_measures_delay(start, earlier);
    lemma_elapsed_ticks_measures_delay(start, later);
    lemma_ticks_to_micros_monotonic(earlier, later, hz as int);
    if earlier < later && hz <= MICROS_PER_SECOND {
        lemma_ticks_to_micros_strictly_increasing(earlier, later, hz as int);
    }
}

/// The elapsed microseconds of any two samples fit in 64 bits with room to
/// spare.
pub proof fn lemma_elapsed_micros_bounded(start: u32, now: u32, hz: u32)
    requires
        hz > 0,
    ensures
        0 <= elapsed_micros_spec(start, now, hz) <= elapsed_ticks_spec(start, now) * 1_000_000,
        elapsed_ticks_spec(start, now) * 1_000_000 < 0x10_0000_0000_0000,
{
    let ticks = elapsed_ticks_spec(start, now);
    assert(0 <= ticks * 1_000_000 / (hz as int) <= ticks * 1_000_000) by (nonlinear_arith)
        requires
            0 <= ticks,
            hz > 0,
    ;
}

} // verus!
