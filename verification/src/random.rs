//! Turning random bytes into random numbers, and the input events that a
//! sway subscription reports.
use crate::time::NANOS_PER_SECOND;
use vstd::prelude::*;

verus! {

/// The largest multiple of `range` that a `u64` holds. Samples at or above
/// it are thrown away, so that every remainder modulo `range` stays equally
/// likely.
pub open spec fn biggest_multiple(range: int) -> int {
    (u64::MAX as int / range) * range
}

/// A uniform integer in `[min, max)` from one random `u64` sample, or `None`
/// when the sample must be thrown away and another one drawn.
pub fn rand_int_from_sample(min: i64, max: i64, sample: u64) -> (r: Option<i64>)
    requires
        max > min,
        max - min <= i64::MAX,
    ensures
        sample >= biggest_multiple(max - min) ==> r is None,
        sample < biggest_multiple(max - min) ==> r == Some((min + sample as int % (max - min)) as i64),
        r matches Some(v) ==> min <= v < max,
{
    let range: u64 = (max - min) as u64;
    assert((u64::MAX / range) * range <= u64::MAX) by (nonlinear_arith)
        requires
            range > 0,
    ;
    let biggest: u64 = (u64::MAX / range) * range;
    if sample >= biggest {
        return None;
    }
    let rem: u64 = sample % range;
    assert(rem < range) by (nonlinear_arith)
        requires
            range > 0,
            rem == sample % range,
    ;
    let v: i128 = min as i128 + rem as i128;
    Some(v as i64)
}

/// Every remainder modulo `range` comes from exactly `u64::MAX / range`
/// kept samples: the kept samples are `[0, biggest_multiple)`, a whole
/// number of runs of `range`, and fewer than `range` samples are thrown
/// away.
pub proof fn lemma_rejection_keeps_whole_runs(range: int)
    requires
        0 < range <= u64::MAX,
    ensures
        biggest_multiple(range) % range == 0,
        u64::MAX - biggest_multiple(range) < range,
        0 < biggest_multiple(range) <= u64::MAX,
{
    let q = u64::MAX as int / range;
    assert((q * range) % range == 0) by (nonlinear_arith)
        requires
            range > 0,
    ;
    assert(u64::MAX - q * range < range) by (nonlinear_arith)
        requires
            range > 0,
            q == u64::MAX as int / range,
    ;
    assert(0 < q * range <= u64::MAX) by (nonlinear_arith)
        requires
            0 < range <= u64::MAX,
            q == u64::MAX as int / range,
    ;
}

/// A random span of whole seconds below the whole seconds of `max`, from one
/// random `u64` sample, or `None` when the sample must be thrown away.
pub fn rand_duration_from_sample(max: u64, sample: u64) -> (r: Option<u64>)
    requires
        max >= NANOS_PER_SECOND,
    ensures
        ({
            let secs = max as int / NANOS_PER_SECOND as int;
            &&& sample >= biggest_multiple(secs) ==> r is None
            &&& sample < biggest_multiple(secs) ==> r == Some(
                ((sample as int % secs) * NANOS_PER_SECOND) as u64,
            )
        }),
        r matches Some(d) ==> d < max && d % NANOS_PER_SECOND == 0,
{
    let secs: u64 = max / NANOS_PER_SECOND;
    assert(secs >= 1 && secs <= i64::MAX) by (nonlinear_arith)
        requires
            max >= NANOS_PER_SECOND,
            secs == max / NANOS_PER_SECOND,
    ;
    match rand_int_from_sample(0, secs as i64, sample) {
        None => None,
        Some(v) => {
            let s: u64 = v as u64;
            assert(s * NANOS_PER_SECOND < max && (s * NANOS_PER_SECOND) % (NANOS_PER_SECOND as int) == 0)
                by (nonlinear_arith)
                requires
                    s < secs,
                    secs == max / NANOS_PER_SECOND,
            ;
            Some(s * NANOS_PER_SECOND)
        },
    }
}

/// An input device of sway.
#[derive(Debug, PartialEq, Eq, Clone)]
pub struct SwayInput {
    pub identifier: String,
    pub kind: String,
}

/// A change to an input device, as `swaymsg -m -t subscribe '["input"]'`
/// reports it.
#[derive(Debug, PartialEq, Eq, Clone)]
pub struct SwayInputEvent {
    pub change: String,
    pub input: SwayInput,
}

} // verus!
