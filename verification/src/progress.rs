//! The figures of a progress line: speed, difficulty and estimated time,
//! none of which can overflow or divide by zero.

use vstd::arithmetic::power::lemma_pow0;
use vstd::arithmetic::power::lemma_pow1;
use vstd::arithmetic::power::lemma_pow_adds;
use vstd::arithmetic::power::lemma_pow_increases;
use vstd::arithmetic::power::pow;
use vstd::prelude::*;

verus! {

/// The expected number of attempts for a pattern of so many digits: 16 to
/// that power, or the largest 64-bit value where the power is beyond it.
pub open spec fn difficulty_of(digits: nat) -> int {
    if pow(16, digits) <= u64::MAX {
        pow(16, digits)
    } else {
        u64::MAX as int
    }
}

/// Attempts per second: none while no full second has passed.
pub open spec fn speed_of(processed: u64, elapsed: u64) -> int {
    if elapsed > 0 {
        processed as int / elapsed as int
    } else {
        0
    }
}

/// Seconds that the whole search is expected to take: the largest 64-bit
/// value while the speed is zero.
pub open spec fn estimated_time_of(difficulty: u64, speed: u64) -> int {
    if speed > 0 {
        difficulty as int / speed as int
    } else {
        u64::MAX as int
    }
}

/// Sixteen to the next power is sixteen times the power before.
proof fn lemma_pow16_step(digits: nat)
    ensures
        pow(16, digits + 1) == 16 * pow(16, digits),
{
    lemma_pow_adds(16, 1, digits);
    lemma_pow1(16);
}

/// Sixteen to the sixteenth power is two to the sixty-fourth.
proof fn lemma_pow16_of_16()
    ensures
        pow(16, 16) == 0x1_0000_0000_0000_0000,
{
    lemma_pow1(16);
    lemma_pow_adds(16, 1, 1);
    assert(pow(16, 2) == 0x100);
    lemma_pow_adds(16, 2, 2);
    assert(pow(16, 4) == 0x1_0000);
    lemma_pow_adds(16, 4, 4);
    assert(pow(16, 8) == 0x1_0000_0000);
    lemma_pow_adds(16, 8, 8);
}

/// A pattern without digits has difficulty one.
pub proof fn lemma_difficulty_of_nothing()
    ensures
        difficulty_of(0) == 1,
{
    lemma_pow0(16);
}

/// From sixteen digits on the power no longer fits in 64 bits, and the
/// difficulty is the largest 64-bit value.
pub proof fn lemma_difficulty_saturates(digits: nat)
    requires
        digits >= 16,
    ensures
        difficulty_of(digits) == u64::MAX,
{
    lemma_pow16_of_16();
    lemma_pow_increases(16, 16, digits);
}

/// Below sixteen digits the difficulty is the power itself.
pub proof fn lemma_difficulty_exact(digits: nat)
    requires
        digits < 16,
    ensures
        difficulty_of(digits) == pow(16, digits),
{
    lemma_pow16_of_16();
    lemma_pow_increases(16, digits, 15);
    lemma_pow16_step(15);
}

/// While the speed is zero the estimate is the largest 64-bit value,
/// whatever the difficulty.
pub proof fn lemma_estimate_without_speed(difficulty: u64)
    ensures
        estimated_time_of(difficulty, 0) == u64::MAX,
{
}

/// The difficulty of a pattern of the given number of digits.
pub fn difficulty(pattern_length: usize) -> (d: u64)
    ensures
        d == difficulty_of(pattern_length as nat),
{
    let mut d: u64 = 1;
    let mut i: usize = 0;
    proof {
        lemma_pow0(16);
    }
    while i < pattern_length
        invariant
            i <= pattern_length,
            d == pow(16, i as nat),
        decreases pattern_length - i,
    {
        proof {
            lemma_pow16_step(i as nat);
        }
        match d.checked_mul(16) {
            Some(next) => {
                d = next;
            },
            None => {
                proof {
                    lemma_pow_increases(16, (i + 1) as nat, pattern_length as nat);
                }
                return u64::MAX;
            },
        }
        i = i + 1;
    }
    d
}

/// Attempts per whole second of work.
pub fn speed(processed: u64, elapsed: u64) -> (s: u64)
    ensures
        s == speed_of(processed, elapsed),
{
    if elapsed > 0 {
        processed / elapsed
    } else {
        0
    }
}

/// Seconds that the whole search is expected to take at the given speed.
pub fn estimated_time(difficulty: u64, speed: u64) -> (t: u64)
    ensures
        t == estimated_time_of(difficulty, speed),
{
    if speed > 0 {
        difficulty / speed
    } else {
        u64::MAX
    }
}

/// The figures of one progress line.
#[derive(Debug, Clone, Copy, PartialEq, Eq, Structural)]
pub struct ProgressReport {
    pub speed: u64,
    pub elapsed: u64,
    pub estimated_time: u64,
}

/// The figures that follow from the attempts counted so far, the whole
/// seconds of work and the number of digits of the pattern.
pub open spec fn report_of(processed: u64, elapsed: u64, digits: nat) -> ProgressReport {
    ProgressReport {
        speed: speed_of(processed, elapsed) as u64,
        elapsed,
        estimated_time: estimated_time_of(
            difficulty_of(digits) as u64,
            speed_of(processed, elapsed) as u64,
        ) as u64,
    }
}

/// Works out the figures of one progress line.
pub fn progress_report(processed: u64, elapsed: u64, pattern_length: usize) -> (report:
    ProgressReport)
    ensures
        report == report_of(processed, elapsed, pattern_length as nat),
{
    let speed: u64 = speed(processed, elapsed);
    let estimated_time: u64 = estimated_time(difficulty(pattern_length), speed);
    ProgressReport { speed, elapsed, estimated_time }
}

} // verus!
