//! The game's time of day, counted in ticks of 30 seconds.
use vstd::prelude::*;

verus! {

/// The number of 30 second ticks in a day.
pub const TICKS_PER_DAY: u16 = 2880;

/// The ticks of a time of day given in hours and minutes (seconds are dropped, so up to one
/// tick is lost).
pub fn ticks_from_time(hours: u8, minutes: u8) -> (ticks: u16)
    ensures
        ticks == hours * 120 + minutes * 2,
{
    (hours as u16) * 120 + (minutes as u16) * 2
}

/// The tick after `ticks`: the counter is incremented (wrapping at `u16::MAX` like the atomic
/// counter), and a counter that reaches the end of the day starts over at 0.
pub open spec fn next_tick(ticks: u16) -> u16 {
    let incremented = if ticks == u16::MAX {
        0
    } else {
        ticks + 1
    };
    if incremented == 2880 {
        0
    } else {
        incremented as u16
    }
}

/// Advances the time of day by one tick.
pub fn advance_tick(ticks: u16) -> (next: u16)
    ensures
        next == next_tick(ticks),
{
    let incremented = ticks.wrapping_add(1);
    if incremented == TICKS_PER_DAY {
        0
    } else {
        incremented
    }
}

/// A time of day given in hours (below 24) and minutes (below 60) lies within the day.
pub proof fn lemma_time_within_day(hours: u8, minutes: u8)
    requires
        hours < 24,
        minutes < 60,
    ensures
        hours * 120 + minutes * 2 < TICKS_PER_DAY,
{
}

/// Advancing the time keeps it within the day: the ticks stay in `0..2880`.
pub proof fn lemma_advance_stays_within_day(ticks: u16)
    requires
        ticks < TICKS_PER_DAY,
    ensures
        next_tick(ticks) < TICKS_PER_DAY,
        ticks < TICKS_PER_DAY - 1 ==> next_tick(ticks) == ticks + 1,
        ticks == TICKS_PER_DAY - 1 ==> next_tick(ticks) == 0,
{
}

} // verus!
