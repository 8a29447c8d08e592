//! Tick timing in whole numbers.
//!
//! Waiting time is counted in nanoseconds. The tick rate is counted in fifths
//! of a tick per second: every rate the game uses, `10`, `15`, `20`,
//! `5 * level` and `score / 5 + 10`, is a whole number of fifths, so the rate
//! is held exactly and the tick interval `1 / rate` needs no division.

use vstd::prelude::*;

verus! {

/// Nanoseconds in a second.
pub const NANOS_PER_SECOND: u64 = 1_000_000_000;

/// Fifths in one tick per second.
pub const FIFTHS: u64 = 5;

/// The rate of the first difficulty level, in ticks per second.
pub const EASY_FPS: u64 = 10;

/// The rate of the second difficulty level, in ticks per second.
pub const MED_FPS: u64 = 15;

/// The rate of the third difficulty level, in ticks per second.
pub const HARD_FPS: u64 = 20;

/// The rate of a difficulty level, in fifths of a tick per second: levels 1,
/// 2 and 3 run at 10, 15 and 20 ticks per second, any other level at
/// `5 * level`.
pub open spec fn level_rate(level: u32) -> int {
    if level == 1 {
        FIFTHS * EASY_FPS
    } else if level == 2 {
        FIFTHS * MED_FPS
    } else if level == 3 {
        FIFTHS * HARD_FPS
    } else {
        FIFTHS * (5 * level)
    }
}

/// The rate that goes with a score, in fifths of a tick per second:
/// `score / 5 + 10` ticks per second, which is `score + 50` fifths.
pub open spec fn score_rate(score: u32) -> int {
    score + FIFTHS * EASY_FPS
}

/// Whether a waiting time is longer than the tick interval of a rate.
///
/// With `waited` in nanoseconds and `rate` in fifths of a tick per second,
/// `waited / 10^9 > 1 / (rate / 5)` is `waited * rate > 5 * 10^9`. A rate of
/// zero has no finite interval, and nothing is longer than it.
pub open spec fn interval_elapsed(waited: int, rate: int) -> bool {
    waited * rate > FIFTHS * NANOS_PER_SECOND
}

/// The waiting time after `delta_time` more nanoseconds, held at `u64::MAX`
/// where the sum would pass it.
pub open spec fn accumulated(waited: u64, delta_time: u64) -> u64 {
    if waited + delta_time > u64::MAX {
        u64::MAX
    } else {
        (waited + delta_time) as u64
    }
}

/// Computes [`level_rate`].
pub fn rate_of_level(level: u32) -> (rate: u64)
    ensures
        rate == level_rate(level),
{
    match level {
        1 => FIFTHS * EASY_FPS,
        2 => FIFTHS * MED_FPS,
        3 => FIFTHS * HARD_FPS,
        v => FIFTHS * (5 * (v as u64)),
    }
}

/// Computes [`score_rate`].
pub fn rate_of_score(score: u32) -> (rate: u64)
    ensures
        rate == score_rate(score),
{
    score as u64 + FIFTHS * EASY_FPS
}

/// Computes [`interval_elapsed`].
pub fn is_interval_elapsed(waited: u64, rate: u64) -> (elapsed: bool)
    ensures
        elapsed == interval_elapsed(waited as int, rate as int),
{
    assert(waited * rate <= u64::MAX * u64::MAX) by (nonlinear_arith)
        requires
            0 <= waited <= u64::MAX,
            0 <= rate <= u64::MAX,
    ;
    let limit: u128 = (FIFTHS * NANOS_PER_SECOND) as u128;
    (waited as u128) * (rate as u128) > limit
}

/// Holding the waiting time at `u64::MAX` never changes whether the tick
/// interval has elapsed: the answer is that of the exact sum. And a waiting
/// time accumulated in two parts is the held sum of both.
pub proof fn lemma_accumulated_decides_as_sum(
    waited: u64,
    delta_time: u64,
    later: u64,
    rate: u64,
)
    ensures
        interval_elapsed(accumulated(waited, delta_time) as int, rate as int)
            == interval_elapsed(waited + delta_time, rate as int),
        accumulated(accumulated(waited, delta_time), later) == if waited + delta_time + later
            > u64::MAX {
            u64::MAX as int
        } else {
            waited + delta_time + later
        },
{
    let sum: int = waited + delta_time;
    let held: int = accumulated(waited, delta_time) as int;
    if sum > u64::MAX {
        if rate >= 1 {
            assert(held * rate >= held) by (nonlinear_arith)
                requires
                    held >= 0,
                    rate >= 1,
            ;
            assert(sum * rate >= sum) by (nonlinear_arith)
                requires
                    sum >= 0,
                    rate >= 1,
            ;
        } else {
            assert(held * rate == 0 && sum * rate == 0) by (nonlinear_arith)
                requires
                    rate == 0,
            ;
        }
    }
}

} // verus!
