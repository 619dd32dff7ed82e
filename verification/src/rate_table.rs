//! The shared tick counter and the rate table that gates envelope and noise
//! updates.
//!
//! One counter runs down through `COUNTER_RANGE` values for the whole
//! processor. An event with rate `r` happens on the ticks where the counter,
//! moved by the rate's offset, is a multiple of the rate's period. Because
//! every voice reads the same counter, voices with equal rates step together
//! and voices with different rates keep a fixed phase to one another.

use vstd::prelude::*;

verus! {

/// Number of values the shared counter runs through.
pub const COUNTER_RANGE: i32 = 30720;

/// Number of rates.
pub const RATE_COUNT: usize = 32;

/// Period in ticks of each rate. Rate 0 never happens: its entry is a
/// period that the counter cannot reach.
pub const COUNTER_RATES: [i32; 32] = [
    30721, 2048, 1536, 1280, 1024, 768, 640, 512, 384, 320, 256, 192, 160, 128, 96, 80, 64, 48, 40,
    32, 24, 20, 16, 12, 10, 8, 6, 5, 4, 3, 2, 1,
];

/// Phase offset of each rate within the counter's range.
pub const COUNTER_OFFSETS: [i32; 32] = [
    1, 0, 1040, 536, 0, 1040, 536, 0, 1040, 536, 0, 1040, 536, 0, 1040, 536, 0, 1040, 536, 0, 1040,
    536, 0, 1040, 536, 0, 1040, 536, 0, 1040, 0, 0,
];

/// Period of `rate` in ticks.
pub open spec fn rate_period(rate: int) -> int {
    COUNTER_RATES[rate] as int
}

/// Phase offset of `rate`.
pub open spec fn rate_offset(rate: int) -> int {
    COUNTER_OFFSETS[rate] as int
}

/// Whether an event with the given rate happens at this counter value.
/// Rate 0 never does; rate 31 does on every tick.
pub open spec fn rate_fires(counter: int, rate: int) -> bool {
    rate != 0 && (counter + rate_offset(rate)) % rate_period(rate) == 0
}

/// The counter value that follows `counter`: one less, wrapping from 0 to
/// the top of the range.
pub open spec fn counter_after(counter: int) -> int {
    if counter <= 0 {
        COUNTER_RANGE - 1
    } else {
        counter - 1
    }
}

/// Whether an event with the given rate happens at this counter value.
pub fn counter_fires(counter: u16, rate: u8) -> (fires: bool)
    requires
        rate < RATE_COUNT,
    ensures
        fires == rate_fires(counter as int, rate as int),
{
    let period: i32 = COUNTER_RATES[rate as usize];
    let offset: i32 = COUNTER_OFFSETS[rate as usize];
    rate != 0 && (counter as i32 + offset) % period == 0
}

/// Steps the shared counter.
pub fn next_counter(counter: u16) -> (next: u16)
    ensures
        next == counter_after(counter as int),
{
    if counter == 0 {
        30719
    } else {
        counter - 1
    }
}

} // verus!
