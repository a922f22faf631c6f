//! Linear attack/release envelope rates.
use vstd::prelude::*;

verus! {

/// Envelope values are held in billionths: this value stands for 1.0.
pub const ENV_ONE: u64 = 1_000_000_000;

/// A voice whose envelope is at or below this level adds no excitation (0.0001).
pub const ACTIVITY_THRESHOLD: u64 = 100_000;

/// Sample rates below one sample per second are treated as one.
pub open spec fn floored(x: int) -> int {
    if x < 1 {
        1
    } else {
        x
    }
}

/// Envelope change per sample for a ramp of `duration_ms` milliseconds at
/// `sample_rate` samples per second, in billionths, rounded down. Both inputs
/// are floored at one.
pub open spec fn rate_for(sample_rate: int, duration_ms: int) -> int {
    (ENV_ONE * 1000) / (floored(sample_rate) * floored(duration_ms))
}

/// The per-sample envelope step of a ramp of `duration_ms` milliseconds.
pub fn envelope_rate(sample_rate: u32, duration_ms: u32) -> (r: u64)
    ensures
        r == rate_for(sample_rate as int, duration_ms as int),
        r <= ENV_ONE * 1000,
{
    let sr: u64 = if sample_rate < 1 {
        1
    } else {
        sample_rate as u64
    };
    let ms: u64 = if duration_ms < 1 {
        1
    } else {
        duration_ms as u64
    };
    assert(sr * ms <= 0xffff_ffff * 0xffff_ffffu64) by (nonlinear_arith)
        requires
            1 <= sr <= 0xffff_ffff,
            1 <= ms <= 0xffff_ffff,
    ;
    assert(sr * ms >= 1) by (nonlinear_arith)
        requires
            1 <= sr,
            1 <= ms,
    ;
    let denominator: u64 = sr * ms;
    let r: u64 = (ENV_ONE * 1000) / denominator;
    assert(r <= ENV_ONE * 1000) by (nonlinear_arith)
        requires
            r == 1_000_000_000_000int / (denominator as int),
            denominator >= 1,
    ;
    r
}

} // verus!
