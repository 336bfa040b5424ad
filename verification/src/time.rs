//! Time arithmetic, the `Time` abstraction and a mock clock.
//!
//! Spans of time and instants are counted in nanoseconds, as `u64`. An
//! instant counts from the epoch of the clock that produced it.
use crate::shared::shared_clone;
use crate::text::{str_from_utf8, string_from_utf8};
use std::rc::Rc;
use vstd::cell::invcell::InvCell;
use vstd::predicate::Predicate;
use vstd::prelude::*;
use vstd::utf8::*;

verus! {

/// Nanoseconds in one second.
pub const NANOS_PER_SECOND: u64 = 1_000_000_000;

/// Nanoseconds in one millisecond.
pub const NANOS_PER_MILLI: u64 = 1_000_000;

pub const SECONDS_PER_MINUTE: u64 = 60;

pub const SECONDS_PER_HOUR: u64 = 3_600;

pub const SECONDS_PER_DAY: u64 = 86_400;

/// 365.2422 days, rounded down to whole seconds.
pub const SECONDS_PER_TROPICAL_YEAR: u64 = 31_556_925;

/// One second, in nanoseconds.
pub const DURATION_SECOND: u64 = 1_000_000_000;

/// One minute, in nanoseconds.
pub const DURATION_MINUTE: u64 = 60_000_000_000;

/// One hour, in nanoseconds.
pub const DURATION_HOUR: u64 = 3_600_000_000_000;

/// One day, in nanoseconds.
pub const DURATION_DAY: u64 = 86_400_000_000_000;

/// One tropical year, in nanoseconds.
pub const DURATION_TROPICAL_YEAR: u64 = 31_556_925_000_000_000;

/// The whole seconds of a span.
pub open spec fn whole_secs(nanos: u64) -> int {
    nanos as int / NANOS_PER_SECOND as int
}

/// Adds a signed number of seconds to a span.
///
/// A span is never negative: the caller keeps the sum at zero or above, and
/// within what a `u64` of nanoseconds holds.
pub fn duration_add_i64_secs(dur: u64, secs: i64) -> (res: u64)
    requires
        0 <= dur + secs * NANOS_PER_SECOND <= u64::MAX,
    ensures
        res == dur + secs * NANOS_PER_SECOND,
{
    if secs >= 0 {
        let s: u64 = secs as u64;
        assert(s * NANOS_PER_SECOND <= u64::MAX) by (nonlinear_arith)
            requires
                0 <= dur + secs * NANOS_PER_SECOND <= u64::MAX,
                s == secs,
                dur >= 0,
        ;
        dur + s * NANOS_PER_SECOND
    } else {
        assert(secs > i64::MIN) by (nonlinear_arith)
            requires
                0 <= dur + secs * NANOS_PER_SECOND,
                dur <= u64::MAX,
                secs < 0,
        ;
        let s: u64 = (-secs) as u64;
        assert(s * NANOS_PER_SECOND <= dur) by (nonlinear_arith)
            requires
                0 <= dur + secs * NANOS_PER_SECOND,
                s == -secs,
        ;
        dur - s * NANOS_PER_SECOND
    }
}

/// Rounds a span down to whole seconds that are a multiple of `multiple`
/// seconds.
pub fn round_duration_down(duration: u64, multiple: u64) -> (res: u64)
    requires
        multiple > 0,
    ensures
        res == (whole_secs(duration) - whole_secs(duration) % multiple as int) * NANOS_PER_SECOND,
{
    let secs = duration / NANOS_PER_SECOND;
    let remainder = secs % multiple;
    assert(remainder <= secs) by (nonlinear_arith)
        requires
            remainder == secs % multiple,
            multiple > 0,
    ;
    let whole = secs - remainder;
    assert(whole * NANOS_PER_SECOND <= duration) by (nonlinear_arith)
        requires
            whole <= secs,
            secs == duration / NANOS_PER_SECOND,
    ;
    whole * NANOS_PER_SECOND
}

/// Rounds a span up to whole seconds that are a multiple of `multiple`
/// seconds. A span that already is such a multiple still moves up by
/// `multiple` seconds.
pub fn round_duration_up(duration: u64, multiple: u64) -> (res: u64)
    requires
        multiple > 0,
        (whole_secs(duration) + multiple - whole_secs(duration) % multiple as int) * NANOS_PER_SECOND
            <= u64::MAX,
    ensures
        res == (whole_secs(duration) + multiple - whole_secs(duration) % multiple as int)
            * NANOS_PER_SECOND,
{
    let secs = duration / NANOS_PER_SECOND;
    let remainder = secs % multiple;
    assert(remainder < multiple && remainder <= secs) by (nonlinear_arith)
        requires
            remainder == secs % multiple,
            multiple > 0,
    ;
    assert(multiple <= secs || remainder == secs) by (nonlinear_arith)
        requires
            remainder == secs % multiple,
            multiple > 0,
    ;
    assert(secs + multiple <= u64::MAX) by (nonlinear_arith)
        requires
            (secs + multiple - remainder) * NANOS_PER_SECOND <= u64::MAX,
            remainder < multiple,
            remainder <= secs,
            multiple <= secs || remainder == secs,
    ;
    let whole = secs + multiple - remainder;
    whole * NANOS_PER_SECOND
}

/// Rounding up lands one `multiple` above rounding down.
pub proof fn lemma_round_up_is_round_down_plus_multiple(duration: u64, multiple: u64)
    requires
        multiple > 0,
    ensures
        (whole_secs(duration) + multiple - whole_secs(duration) % multiple as int)
            * NANOS_PER_SECOND == (whole_secs(duration) - whole_secs(duration) % multiple as int)
            * NANOS_PER_SECOND + multiple * NANOS_PER_SECOND,
        (whole_secs(duration) - whole_secs(duration) % multiple as int) % multiple as int == 0,
        (whole_secs(duration) - whole_secs(duration) % multiple as int) * NANOS_PER_SECOND <= duration,
        duration < (whole_secs(duration) + multiple - whole_secs(duration) % multiple as int)
            * NANOS_PER_SECOND,
{
    let s = whole_secs(duration);
    let m = multiple as int;
    assert((s + m - s % m) * NANOS_PER_SECOND == (s - s % m) * NANOS_PER_SECOND + m * NANOS_PER_SECOND)
        by (nonlinear_arith);
    assert((s - s % m) % m == 0) by (nonlinear_arith)
        requires m > 0, s >= 0;
    assert((s - s % m) * NANOS_PER_SECOND <= duration) by (nonlinear_arith)
        requires s == duration as int / NANOS_PER_SECOND as int, m > 0, s >= 0;
    assert(duration < (s + m - s % m) * NANOS_PER_SECOND) by (nonlinear_arith)
        requires s == duration as int / NANOS_PER_SECOND as int, m > 0, s >= 0;
}

/// Adding `secs` seconds and then `-secs` seconds gives the span back.
pub proof fn lemma_add_secs_round_trip(dur: u64, secs: i64)
    requires
        0 <= dur + secs * NANOS_PER_SECOND <= u64::MAX,
    ensures
        ({
            let mid = dur + secs * NANOS_PER_SECOND;
            mid + (-secs) * NANOS_PER_SECOND == dur
        }),
{
    assert(secs * NANOS_PER_SECOND + (-secs) * NANOS_PER_SECOND == 0) by (nonlinear_arith);
}

/// One step of a range of spans: `offset` and `drift` are the random
/// parts drawn for this step. The span yielded is `next + offset`, if it is
/// below `stop`; the range then moves on to `next + step + drift`. `None`
/// when either sum leaves what a `u64` holds, which ends the range.
pub fn range_duration_step(next: u64, step: u64, offset: u64, drift: u64, stop: u64) -> (r: Option<(Option<u64>, u64)>)
    ensures
        next + offset <= u64::MAX && next + step + drift <= u64::MAX ==> r == Some((
            if next + offset < stop { Some((next + offset) as u64) } else { None },
            (next + step + drift) as u64,
        )),
        !(next + offset <= u64::MAX && next + step + drift <= u64::MAX) ==> r is None,
{
    let ret = match next.checked_add(offset) {
        Some(v) => v,
        None => return None,
    };
    let moved = match step.checked_add(drift) {
        Some(v) => v,
        None => return None,
    };
    let new_next = match next.checked_add(moved) {
        Some(v) => v,
        None => return None,
    };
    if ret < stop {
        Some((Some(ret), new_next))
    } else {
        Some((None, new_next))
    }
}

/// The text of `date --iso-8601=seconds` from its output: everything but the
/// final byte (the newline). `None` when the output is empty or the text is
/// not valid UTF-8.
pub fn date_from_command_output(output: &[u8]) -> (r: Option<String>)
    ensures
        output@.len() == 0 ==> r is None,
        output@.len() > 0 ==> {
            let text = output@.subrange(0, output@.len() - 1);
            &&& valid_utf8(output@) && valid_utf8(text) ==> (r matches Some(s) && s@ == decode_utf8(text))
            &&& !(valid_utf8(output@) && valid_utf8(text)) ==> r is None
        },
{
    if output.len() == 0 {
        return None;
    }
    if str_from_utf8(output).is_none() {
        return None;
    }
    string_from_utf8(&output[0..output.len() - 1])
}

/// A clock.
///
/// `now_instant` is for measuring intervals; `now_duration` is a
/// wall-clock-like timestamp. What either returns depends on the clock, so
/// nothing is promised of it.
///
/// `slept` is the history of the sleeps asked of this value, oldest first.
/// An implementation meets `sleep`'s contract only by defining it, as the
/// mock clock does. The default, an always empty history, exists so that
/// implementations outside the verifier (the real clock of the program)
/// compile; they are not held to that contract.
pub trait Time {
    closed spec fn slept(&self) -> Seq<u64> {
        Seq::empty()
    }

    /// Sleeps for `dur` nanoseconds (a mock advances its time instead).
    fn sleep(&mut self, dur: u64)
        ensures
            final(self).slept() == old(self).slept().push(dur),
    ;

    /// The current monotonic instant.
    fn now_instant(&self) -> u64;

    /// The current timestamp as a span since the clock's epoch.
    fn now_duration(&self) -> u64;
}

/// What the cell of a mock clock may hold: a time at or after the start of
/// mock time, which is where a clock starts and sleeping never goes back.
pub struct ClockFloor {}

impl Predicate<u64> for ClockFloor {
    open spec fn predicate(&self, v: u64) -> bool {
        v >= MOCK_TIME_START
    }
}

/// A mock clock that only advances when told to sleep.
///
/// Shallow clones share the same time: a sleep on one advances all of them.
/// The instants of a mock clock count from its own start, so `now_instant`
/// and `now_duration` agree.
pub struct MockTime {
    delta: Rc<InvCell<u64, ClockFloor>>,
    sleeps: Ghost<Seq<u64>>,
}

/// Where a new mock clock starts: 100000 seconds.
pub const MOCK_TIME_START: u64 = 100_000_000_000_000;

/// The time after sleeping `dur` at `delta`. A clock that would pass the
/// largest `u64` stays there.
pub open spec fn advanced(delta: u64, dur: u64) -> u64 {
    if delta + dur <= u64::MAX { (delta + dur) as u64 } else { u64::MAX }
}

/// One step of the mock clock.
pub fn advance(delta: u64, dur: u64) -> (res: u64)
    ensures
        res == advanced(delta, dur),
{
    delta.saturating_add(dur)
}

impl MockTime {
    /// A new mock clock at `MOCK_TIME_START`, not yet slept on.
    pub fn new() -> (r: Self)
        ensures
            r.slept().len() == 0,
    {
        MockTime { delta: Rc::new(InvCell::new(MOCK_TIME_START, Ghost(ClockFloor {}))), sleeps: Ghost(Seq::empty()) }
    }

    /// Whether two handles share one clock.
    pub closed spec fn shares_clock_with(&self, other: &MockTime) -> bool {
        self.delta == other.delta
    }

    /// Another handle to the same clock: a sleep on either advances both.
    pub fn shallow_clone(&self) -> (res: Self)
        ensures
            res.shares_clock_with(self),
            res.slept().len() == 0,
    {
        MockTime { delta: shared_clone(&self.delta), sleeps: Ghost(Seq::empty()) }
    }

    /// The clock's current time, never before the start of mock time.
    fn read(&self) -> (r: u64)
        ensures
            r >= MOCK_TIME_START,
    {
        self.delta.get()
    }
}

impl Default for MockTime {
    fn default() -> (r: Self)
        ensures
            r.slept().len() == 0,
    {
        MockTime::new()
    }
}

impl Time for MockTime {
    closed spec fn slept(&self) -> Seq<u64> {
        self.sleeps@
    }

    fn sleep(&mut self, dur: u64) {
        let v = self.delta.get();
        self.delta.set(advance(v, dur));
        self.sleeps = Ghost(self.sleeps@.push(dur));
    }

    fn now_instant(&self) -> (r: u64)
        ensures
            r >= MOCK_TIME_START,
    {
        self.read()
    }

    fn now_duration(&self) -> (r: u64)
        ensures
            r >= MOCK_TIME_START,
    {
        self.read()
    }
}

} // verus!
