//! From a delay in milliseconds to the load value of the periodic timer.

use vstd::prelude::*;

verus! {

/// The number of timer ticks in `delay_ms` milliseconds at a clock of
/// `freq_hz`: the ticks in one millisecond, rounded down, times the delay.
pub open spec fn ticks_for(freq_hz: int, delay_ms: int) -> int {
    freq_hz / 1000 * delay_ms
}

/// A longer delay never takes fewer ticks.
pub proof fn lemma_ticks_monotonic(freq_hz: int, shorter_ms: int, longer_ms: int)
    requires
        0 <= freq_hz,
        0 <= shorter_ms <= longer_ms,
    ensures
        0 <= ticks_for(freq_hz, shorter_ms) <= ticks_for(freq_hz, longer_ms),
{
    let per_ms = freq_hz / 1000;
    assert(0 <= per_ms * shorter_ms <= per_ms * longer_ms) by (nonlinear_arith)
        requires
            0 <= per_ms,
            0 <= shorter_ms <= longer_ms,
    ;
}

/// The frequency of the clock that paces the periodic timers of the Teensy 4.
/// Reads `teensy4_bsp::board::PERCLK_FREQUENCY`, which that crate fixes at one
/// megahertz; the contract takes the value from there.
#[verifier::external_body]
pub(crate) fn perclk_frequency() -> (freq_hz: u32)
    ensures
        freq_hz == 1_000_000,
{
    teensy4_bsp::board::PERCLK_FREQUENCY
}

/// The load value for a delay, where it fits the timer's 32-bit register.
pub fn period_ticks(freq_hz: u32, delay_ms: u32) -> (ticks: u32)
    requires
        ticks_for(freq_hz as int, delay_ms as int) <= u32::MAX,
    ensures
        ticks == ticks_for(freq_hz as int, delay_ms as int),
{
    freq_hz / 1000 * delay_ms
}

/// The load value for a delay, or `None` where it exceeds the timer's 32-bit
/// register.
pub fn checked_period_ticks(freq_hz: u32, delay_ms: u32) -> (ticks: Option<u32>)
    ensures
        ticks.is_some() <==> ticks_for(freq_hz as int, delay_ms as int) <= u32::MAX,
        ticks matches Some(t) ==> t == ticks_for(freq_hz as int, delay_ms as int),
{
    (freq_hz / 1000).checked_mul(delay_ms)
}

} // verus!
