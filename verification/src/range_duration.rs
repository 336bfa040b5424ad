//! The arguments of a range of spans (`start`, `step`, a stop that may be
//! computed anew at each step, and random parts added to the steps), and how
//! a range begins.
use crate::time::NANOS_PER_SECOND;
use vstd::prelude::*;

verus! {

/// Where a range of spans stops: a fixed span, or a callback asked at each
/// step.
#[derive(Clone)]
pub enum RangeDurationStop<F: Fn() -> u64> {
    Fixed(u64),
    Callback(F),
}

impl<F: Fn() -> u64> RangeDurationStop<F> {
    /// The current stop: the fixed span, or what the callback returns now.
    pub fn get_value(&mut self) -> (r: u64)
        requires
            *old(self) matches RangeDurationStop::Callback(cb) ==> cb.requires(()),
        ensures
            *final(self) == *old(self),
            *old(self) matches RangeDurationStop::Fixed(v) ==> r == v,
            *old(self) matches RangeDurationStop::Callback(cb) ==> cb.ensures((), r),
    {
        match self {
            RangeDurationStop::Fixed(value) => *value,
            RangeDurationStop::Callback(cb) => cb(),
        }
    }
}

/// A range from `start`, by `step`, below `stop`.
#[derive(Clone)]
pub struct RangeDurationArgs<F: Fn() -> u64> {
    pub start: u64,
    pub step: u64,
    pub stop: RangeDurationStop<F>,
}

/// A range whose steps get random parts: each span yielded is moved by a
/// random part below `step_rand_offset`, and each step by one below
/// `step_rand_drift`. With `do_random_pre_step`, the start is first moved
/// by random parts below the step, the offset and the drift.
#[derive(Clone)]
pub struct RandomizedRangeDurationArgs<F: Fn() -> u64> {
    pub args_nonrandom: RangeDurationArgs<F>,
    pub step_rand_offset: u64,
    pub step_rand_drift: u64,
    pub do_random_pre_step: bool,
}

/// The randomized arguments of a range without randomness: the random parts
/// are below one second and whole seconds are drawn, so they are all zero,
/// and there is no random pre-step.
pub fn without_random_steps<F: Fn() -> u64>(args: RangeDurationArgs<F>) -> (r: RandomizedRangeDurationArgs<F>)
    ensures
        r.args_nonrandom == args,
        r.step_rand_offset == NANOS_PER_SECOND,
        r.step_rand_drift == NANOS_PER_SECOND,
        !r.do_random_pre_step,
{
    RandomizedRangeDurationArgs {
        args_nonrandom: args,
        step_rand_offset: NANOS_PER_SECOND,
        step_rand_drift: NANOS_PER_SECOND,
        do_random_pre_step: false,
    }
}

/// The first span of a range, given the random parts drawn for the pre-step
/// (below the step, the offset and the drift). Without a pre-step it is the
/// start; with one, the start plus the three parts. `None` when that sum
/// leaves what a `u64` holds.
pub fn range_duration_start<F: Fn() -> u64>(
    args: &RandomizedRangeDurationArgs<F>,
    step_part: u64,
    offset_part: u64,
    drift_part: u64,
) -> (r: Option<u64>)
    ensures
        !args.do_random_pre_step ==> r == Some(args.args_nonrandom.start),
        args.do_random_pre_step && args.args_nonrandom.start + step_part + offset_part + drift_part
            <= u64::MAX ==> r == Some((args.args_nonrandom.start + step_part + offset_part
            + drift_part) as u64),
        args.do_random_pre_step && args.args_nonrandom.start + step_part + offset_part + drift_part
            > u64::MAX ==> r is None,
{
    let start = args.args_nonrandom.start;
    if !args.do_random_pre_step {
        return Some(start);
    }
    let a = match start.checked_add(step_part) {
        Some(v) => v,
        None => return None,
    };
    let b = match a.checked_add(offset_part) {
        Some(v) => v,
        None => return None,
    };
    b.checked_add(drift_part)
}

} // verus!
