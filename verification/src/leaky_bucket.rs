//! A leaky bucket that throttles the requests made through an `Http`.
//!
//! The bucket holds `bucket_size` charges and regains one every
//! `query_delay`. It keeps a threshold: the earliest instant at which the next
//! request could go out if the bucket were empty. A request at `now` starts
//! at `max(threshold, now - query_delay * (bucket_size - 1))`, waits until
//! that start if it lies ahead, and moves the threshold to start plus
//! `query_delay`.
use crate::errors::{ErrorSmart, TraceView};
use crate::http::{Http, HttpGetResponse};
use crate::time::Time;
use vstd::prelude::*;

verus! {

/// The span a full bucket can absorb: `query_delay * (bucket_size - 1)`.
pub open spec fn burst_span(delay: int, size: int) -> int {
    delay * (size - 1)
}

/// The threshold of a bucket that has been idle long enough to be full.
pub open spec fn full_threshold(now: int, delay: int, size: int) -> int {
    now - burst_span(delay, size)
}

/// When a request at `now` starts, given the bucket's threshold.
pub open spec fn admit_start(threshold: int, now: int, delay: int, size: int) -> int {
    if threshold >= full_threshold(now, delay, size) {
        threshold
    } else {
        full_threshold(now, delay, size)
    }
}

/// When a request made at `now` goes out.
pub open spec fn dispatch_at(threshold: int, now: int, delay: int, size: int) -> int {
    if now >= admit_start(threshold, now, delay, size) {
        now
    } else {
        admit_start(threshold, now, delay, size)
    }
}

/// The threshold after a request made at `now`.
pub open spec fn next_threshold(threshold: int, now: int, delay: int, size: int) -> int {
    admit_start(threshold, now, delay, size) + delay
}

/// The threshold before the `k`-th request of a run of requests made at the
/// instants `nows`, starting from threshold `th0`.
pub open spec fn run_threshold(th0: int, nows: Seq<int>, delay: int, size: int, k: nat) -> int
    decreases k,
{
    if k == 0 {
        th0
    } else {
        next_threshold(run_threshold(th0, nows, delay, size, (k - 1) as nat), nows[k - 1], delay, size)
    }
}

/// When the `k`-th request of such a run goes out.
pub open spec fn run_dispatch(th0: int, nows: Seq<int>, delay: int, size: int, k: nat) -> int {
    dispatch_at(run_threshold(th0, nows, delay, size, k), nows[k as int], delay, size)
}

/// The full-bucket threshold at `now`, held in a `u64`: instants before the
/// clock's epoch become the epoch itself.
pub open spec fn clamped_full_threshold(now: u64, delay: u64, size: u32) -> u64 {
    if full_threshold(now as int, delay as int, size as int) >= 0 {
        full_threshold(now as int, delay as int, size as int) as u64
    } else {
        0
    }
}

/// The full-bucket threshold for a clock reading `now`.
pub fn full_bucket_threshold(now: u64, query_delay: u64, bucket_size: u32) -> (r: u64)
    requires
        bucket_size >= 1,
        burst_span(query_delay as int, bucket_size as int) <= u64::MAX,
    ensures
        r == clamped_full_threshold(now, query_delay, bucket_size),
{
    let burst = query_delay * (bucket_size - 1) as u64;
    now.saturating_sub(burst)
}

/// Decides one request: the threshold is the bucket's, `default_threshold`
/// is the full-bucket threshold computed from one clock reading, `now` is
/// another clock reading. Returns how long to wait and the next threshold,
/// or `None` when the next threshold does not fit in a `u64`.
pub fn leaky_bucket_admit(threshold: u64, default_threshold: u64, now: u64, query_delay: u64) -> (r: Option<(u64, u64)>)
    ensures
        ({
            let start = if threshold >= default_threshold { threshold } else { default_threshold };
            &&& r is Some <==> start + query_delay <= u64::MAX
            &&& r matches Some((wait, next)) ==> {
                &&& wait == (if now < start { start - now } else { 0 })
                &&& next == start + query_delay
            }
        }),
{
    let start = if threshold >= default_threshold { threshold } else { default_threshold };
    let wait = if now < start { start - now } else { 0 };
    match start.checked_add(query_delay) {
        Some(next) => Some((wait, next)),
        None => None,
    }
}

/// Clamping the full-bucket threshold at the epoch does not change when a
/// request starts, since a threshold is never before the epoch.
pub proof fn lemma_clamp_keeps_start(threshold: u64, now: u64, delay: u64, size: u32)
    requires
        size >= 1,
    ensures
        ({
            let d = clamped_full_threshold(now, delay, size);
            (if threshold >= d { threshold as int } else { d as int }) == admit_start(
                threshold as int,
                now as int,
                delay as int,
                size as int,
            )
        }),
{
    assert(delay * (size - 1) >= 0) by (nonlinear_arith)
        requires
            size >= 1,
    ;
}

proof fn lemma_start_grows(th0: int, nows: Seq<int>, delay: int, size: int, i: nat, j: nat)
    requires
        delay >= 0,
        i <= j < nows.len(),
    ensures
        admit_start(run_threshold(th0, nows, delay, size, j), nows[j as int], delay, size)
            >= admit_start(run_threshold(th0, nows, delay, size, i), nows[i as int], delay, size)
            + (j - i) * delay,
    decreases j - i,
{
    if i < j {
        lemma_start_grows(th0, nows, delay, size, i, (j - 1) as nat);
        assert(run_threshold(th0, nows, delay, size, j) == admit_start(
            run_threshold(th0, nows, delay, size, (j - 1) as nat),
            nows[j - 1],
            delay,
            size,
        ) + delay);
        assert((j - i) * delay == (j - 1 - i) * delay + delay) by (nonlinear_arith);
    } else {
        assert((j - i) * delay == 0) by (nonlinear_arith)
            requires
                i == j,
        ;
    }
}

/// However the requests of a run arrive, the `i`-th and the `j`-th go out at
/// least `(j - i - (bucket_size - 1)) * query_delay` apart: beyond a burst of
/// `bucket_size`, requests are spaced by `query_delay`.
pub proof fn lemma_run_spacing(th0: int, nows: Seq<int>, delay: int, size: int, i: nat, j: nat)
    requires
        delay >= 0,
        size >= 1,
        i < j < nows.len(),
    ensures
        run_dispatch(th0, nows, delay, size, j) - run_dispatch(th0, nows, delay, size, i)
            >= (j - i - (size - 1)) * delay,
{
    lemma_start_grows(th0, nows, delay, size, i, j);
    assert((j - i) * delay - delay * (size - 1) == (j - i - (size - 1)) * delay) by (nonlinear_arith);
}

/// A bucket does not save up more than `bucket_size` charges: once its
/// threshold has fallen behind the full-bucket threshold, how far behind no
/// longer matters.
pub proof fn lemma_idle_charges_are_capped(th1: int, th2: int, now: int, delay: int, size: int)
    requires
        th1 <= full_threshold(now, delay, size),
        th2 <= full_threshold(now, delay, size),
    ensures
        admit_start(th1, now, delay, size) == admit_start(th2, now, delay, size),
        dispatch_at(th1, now, delay, size) == dispatch_at(th2, now, delay, size),
        next_threshold(th1, now, delay, size) == next_threshold(th2, now, delay, size),
{
}

/// No request goes out before it is made.
pub proof fn lemma_never_early(th0: int, nows: Seq<int>, delay: int, size: int, k: nat)
    requires
        k < nows.len(),
    ensures
        run_dispatch(th0, nows, delay, size, k) >= nows[k as int],
{
}

proof fn lemma_idle_thresholds(th0: int, nows: Seq<int>, delay: int, size: int, k: nat)
    requires
        delay >= 0,
        size >= 1,
        k <= nows.len(),
        nows.len() > 0,
        th0 <= full_threshold(nows[0], delay, size),
        forall|m: int| 0 <= m < k ==> #[trigger] nows[m] == nows[0],
    ensures
        k >= 1 ==> run_threshold(th0, nows, delay, size, k) == full_threshold(nows[0], delay, size) + k * delay,
    decreases k,
{
    assert(delay * (size - 1) >= 0) by (nonlinear_arith)
        requires
            size >= 1,
            delay >= 0,
    ;
    if k == 1 {
        assert(k * delay == delay) by (nonlinear_arith)
            requires
                k == 1,
        ;
        assert(run_threshold(th0, nows, delay, size, 1) == admit_start(th0, nows[0], delay, size) + delay) by {
            reveal_with_fuel(run_threshold, 2);
        }
    }
    if k >= 2 {
        lemma_idle_thresholds(th0, nows, delay, size, (k - 1) as nat);
        assert(nows[k - 1] == nows[0]);
        assert(k * delay == (k - 1) * delay + delay) by (nonlinear_arith);
        assert((k - 1) * delay >= 0) by (nonlinear_arith)
            requires
                k >= 1,
                delay >= 0,
        ;
    }
}

/// A full bucket lets `bucket_size` requests made at the same instant out
/// at once, and the next one waits one `query_delay`.
pub proof fn lemma_full_bucket_burst(th0: int, nows: Seq<int>, delay: int, size: int, k: nat)
    requires
        delay >= 0,
        size >= 1,
        k < nows.len(),
        th0 <= full_threshold(nows[0], delay, size),
        forall|m: int| 0 <= m <= k ==> #[trigger] nows[m] == nows[0],
    ensures
        k < size ==> run_dispatch(th0, nows, delay, size, k) == nows[0],
        k == size ==> run_dispatch(th0, nows, delay, size, k) == nows[0] + delay,
{
    lemma_idle_thresholds(th0, nows, delay, size, k);
    assert(nows[k as int] == nows[0]);
    if k >= 1 {
        assert(k * delay - delay * (size - 1) == (k - (size - 1)) * delay) by (nonlinear_arith);
        if k == size {
            assert(k * delay - delay * (size - 1) == delay) by (nonlinear_arith)
                requires
                    k == size,
            ;
        }
        if k < size {
            assert((k - (size - 1)) * delay <= 0) by (nonlinear_arith)
                requires
                    k < size,
                    delay >= 0,
            ;
        }
    } else {
        assert(delay * (size - 1) >= 0) by (nonlinear_arith)
            requires
                delay >= 0,
                size >= 1,
        ;
    }
}

/// Each request that `LeakyBucket::get` lets through moves the threshold
/// (the earliest time of the next request) at least one query delay past
/// both the old threshold and the time at which this request could go, so
/// two requests through one bucket go out at least a query delay apart.
pub proof fn lemma_get_spaces_requests(threshold: u64, now: u64, delay: u64, size: u32)
    ensures
        next_threshold(threshold as int, now as int, delay as int, size as int) >= threshold + delay,
        next_threshold(threshold as int, now as int, delay as int, size as int) == admit_start(
            threshold as int,
            now as int,
            delay as int,
            size as int,
        ) + delay,
{
}

/// What a request let through by `LeakyBucket::get` does to the bucket and
/// the clock, for the clock readings `t` (when the full-bucket threshold is
/// taken) and `now` (when the wait is measured): the request may go at
/// `start`, the later of the threshold `th` and the full-bucket threshold at
/// `t`; if `now` is before `start`, the clock is asked to sleep the
/// difference (`slept` becomes `slept2`), and the threshold becomes
/// `start + delay` (`th2`).
pub open spec fn admitted_at(th: int, t: u64, now: u64, delay: int, size: int, slept: Seq<u64>, slept2: Seq<u64>, th2: u64) -> bool {
    let start = admit_start(th, t as int, delay, size);
    &&& th2 == start + delay
    &&& slept2 == (if now < start { slept.push((start - now) as u64) } else { slept })
}

/// How long the clock was asked to sleep between two histories of sleeps
/// that differ by at most one sleep.
pub open spec fn waited(slept: Seq<u64>, slept2: Seq<u64>) -> int {
    if slept2.len() > slept.len() {
        slept2.last() as int
    } else {
        0
    }
}

/// When one clock reading serves for both (`t == now`) and the clock moves
/// only by the sleeps asked of it, the wrapped request goes out at the
/// reading plus the sleep, which is `dispatch_at` of the run; so the laws of
/// `run_dispatch` (`lemma_run_spacing`, `lemma_full_bucket_burst`,
/// `lemma_never_early`) are laws of the requests made through `get`.
pub proof fn lemma_get_dispatches_at(th: int, now: u64, delay: int, size: int, slept: Seq<u64>, slept2: Seq<u64>, th2: u64)
    requires
        admitted_at(th, now, now, delay, size, slept, slept2, th2),
        delay >= 0,
    ensures
        now + waited(slept, slept2) == dispatch_at(th, now as int, delay, size),
        th2 == next_threshold(th, now as int, delay, size),
{
}

/// The throttle's own state, kept apart so that its invariant does not
/// cover the wrapped `Http`.
struct BucketState {
    bucket_size: u32,
    query_delay: u64,
    threshold: u64,
}

impl BucketState {
    #[verifier::type_invariant]
    closed spec fn well_formed(self) -> bool {
        &&& self.bucket_size >= 1
        &&& burst_span(self.query_delay as int, self.bucket_size as int) <= u64::MAX
    }
}

/// A wrapper around an `Http` that throttles the requests made through it.
pub struct LeakyBucket<T: Time, H: Http> {
    base_impl: H,
    time: T,
    state: BucketState,
    history: Ghost<Seq<(Seq<char>, Result<HttpGetResponse, ErrorSmart>)>>,
}

impl<T: Time, H: Http> LeakyBucket<T, H> {
    /// The time at which the next request can be made.
    pub closed spec fn threshold_view(&self) -> u64 {
        self.state.threshold
    }

    /// The clock.
    pub closed spec fn clock(&self) -> T {
        self.time
    }

    /// The wrapped `Http`.
    pub closed spec fn base(&self) -> H {
        self.base_impl
    }

    pub closed spec fn bucket_size_view(&self) -> u32 {
        self.state.bucket_size
    }

    pub closed spec fn query_delay_view(&self) -> u64 {
        self.state.query_delay
    }

    /// The full-bucket threshold at the clock's current time.
    pub fn get_default_threshold(&self) -> (r: u64)
        ensures
            exists|now: u64| r == clamped_full_threshold(now, self.query_delay_view(), self.bucket_size_view()),
    {
        proof {
            use_type_invariant(&self.state);
        }
        let now = self.time.now_instant();
        let r = full_bucket_threshold(now, self.state.query_delay, self.state.bucket_size);
        assert(r == clamped_full_threshold(now, self.query_delay_view(), self.bucket_size_view()));
        r
    }

    /// A bucket of `bucket_size` charges that regains one every
    /// `query_delay`, full at creation.
    pub fn new(base_impl: H, time: T, bucket_size: u32, query_delay: u64) -> (r: Self)
        requires
            bucket_size >= 1,
            burst_span(query_delay as int, bucket_size as int) <= u64::MAX,
        ensures
            r.bucket_size_view() == bucket_size,
            r.query_delay_view() == query_delay,
            exists|now: u64| r.threshold_view() == clamped_full_threshold(now, query_delay, bucket_size),
            r.base() == base_impl,
            r.clock() == time,
            r.calls().len() == 0,
    {
        let now = time.now_instant();
        let threshold = full_bucket_threshold(now, query_delay, bucket_size);
        LeakyBucket {
            base_impl,
            time,
            state: BucketState { bucket_size, query_delay, threshold },
            history: Ghost(Seq::empty()),
        }
    }
}

impl<T: Time, H: Http> LeakyBucket<T, H> {
    /// What one request at the clock reading `now` does. With `start` the
    /// later of the threshold and the full-bucket threshold at `now`: if
    /// `start + query_delay` fits in a `u64`, the clock is asked to sleep
    /// `start - now` when `now` is before `start` (and not at all otherwise),
    /// the request then goes once, with the same URL, to the wrapped `Http`
    /// whose answer is returned, and the threshold becomes
    /// `start + query_delay`; otherwise nothing happens but an error.
    pub open spec fn bucket_step(
        &self,
        now: u64,
        url: Seq<char>,
        next: &Self,
        r: Result<HttpGetResponse, ErrorSmart>,
    ) -> bool {
        let th = self.threshold_view() as int;
        let delay = self.query_delay_view() as int;
        let size = self.bucket_size_view() as int;
        let start = admit_start(th, now as int, delay, size);
        &&& next.bucket_size_view() == self.bucket_size_view()
        &&& next.query_delay_view() == self.query_delay_view()
        &&& next.calls() == self.calls().push((url, r))
        &&& if start + delay <= u64::MAX {
            &&& next.threshold_view() == start + delay
            &&& next.clock().slept() == (if now < start {
                self.clock().slept().push((start - now) as u64)
            } else {
                self.clock().slept()
            })
            &&& next.base().calls() == self.base().calls().push((url, r))
        } else {
            &&& next.threshold_view() == self.threshold_view()
            &&& next.base() == self.base()
            &&& next.clock().slept() == self.clock().slept()
            &&& r matches Err(e) && e@ == seq![
                TraceView::Light { message: "LeakyBucket: the next threshold is past the last instant"@ },
            ]
        }
    }

    /// One request at the clock reading `now` (see `bucket_step`).
    pub fn get_at(&mut self, url: &str, now: u64) -> (r: Result<HttpGetResponse, ErrorSmart>)
        ensures
            old(self).bucket_step(now, url@, &*final(self), r),
    {
        proof {
            use_type_invariant(&self.state);
            lemma_clamp_keeps_start(self.state.threshold, now, self.state.query_delay, self.state.bucket_size);
        }
        let default_threshold = full_bucket_threshold(now, self.state.query_delay, self.state.bucket_size);
        let r = match leaky_bucket_admit(self.state.threshold, default_threshold, now, self.state.query_delay) {
            None => ErrorSmart::new_light("LeakyBucket: the next threshold is past the last instant"),
            Some((wait, next)) => {
                if wait > 0 {
                    self.time.sleep(wait);
                }
                self.state.threshold = next;
                self.base_impl.get(url)
            },
        };
        self.history = Ghost(self.history@.push((url@, r)));
        r
    }
}

impl<T: Time, H: Http> Http for LeakyBucket<T, H> {
    closed spec fn calls(&self) -> Seq<(Seq<char>, Result<HttpGetResponse, ErrorSmart>)> {
        self.history@
    }

    /// Waits for the bucket, then performs the request through the wrapped
    /// `Http` (once, with the same URL) and returns its answer; one reading
    /// of the clock serves for the whole step (see `get_at`).
    fn get(&mut self, url: &str) -> (r: Result<HttpGetResponse, ErrorSmart>)
        ensures
            exists|now: u64| #[trigger] old(self).bucket_step(now, url@, &*final(self), r),
    {
        let now = self.time.now_instant();
        self.get_at(url, now)
    }
}

/// The instant at which a request goes out: the clock reading plus the
/// sleep it asked for.
pub open spec fn sent_at(now: u64, slept: Seq<u64>, slept2: Seq<u64>) -> int {
    now + waited(slept, slept2)
}

/// Two requests made one after the other through a bucket go out at least
/// `query_delay` apart, less what the bucket can absorb in a burst
/// (`query_delay * (bucket_size - 1)`). With a bucket of one charge, the
/// second request always goes out at least `query_delay` after the first,
/// whatever the clock readings; and neither goes out before its reading.
pub proof fn lemma_requests_spaced<T: Time, H: Http>(
    b0: LeakyBucket<T, H>,
    now1: u64,
    url1: Seq<char>,
    b1: LeakyBucket<T, H>,
    r1: Result<HttpGetResponse, ErrorSmart>,
    now2: u64,
    url2: Seq<char>,
    b2: LeakyBucket<T, H>,
    r2: Result<HttpGetResponse, ErrorSmart>,
)
    requires
        b0.bucket_size_view() >= 1,
        b0.bucket_step(now1, url1, &b1, r1),
        b1.bucket_step(now2, url2, &b2, r2),
        b1.base().calls().len() == b0.base().calls().len() + 1,
        b2.base().calls().len() == b1.base().calls().len() + 1,
    ensures
        ({
            let d1 = sent_at(now1, b0.clock().slept(), b1.clock().slept());
            let d2 = sent_at(now2, b1.clock().slept(), b2.clock().slept());
            let delay = b0.query_delay_view() as int;
            let burst = burst_span(delay, b0.bucket_size_view() as int);
            &&& d1 >= now1
            &&& d2 >= now2
            &&& d2 + burst >= d1 + delay
            &&& b0.bucket_size_view() == 1 ==> d2 >= d1 + delay
        }),
{
    let delay = b0.query_delay_view() as int;
    let size = b0.bucket_size_view() as int;
    let th0 = b0.threshold_view() as int;
    let start1 = admit_start(th0, now1 as int, delay, size);
    if start1 + delay > u64::MAX {
        assert(b1.base() == b0.base());
        assert(false);
    }
    let th1 = b1.threshold_view() as int;
    assert(th1 == start1 + delay);
    let start2 = admit_start(th1, now2 as int, delay, size);
    if start2 + delay > u64::MAX {
        assert(b2.base() == b1.base());
        assert(false);
    }
    assert(sent_at(now1, b0.clock().slept(), b1.clock().slept()) == if now1 < start1 { start1 } else { now1 as int });
    assert(sent_at(now2, b1.clock().slept(), b2.clock().slept()) == if now2 < start2 { start2 } else { now2 as int });
    assert(start1 >= now1 - burst_span(delay, size));
    assert(start2 >= th1);
    assert(burst_span(delay, size) >= 0) by (nonlinear_arith)
        requires
            burst_span(delay, size) == delay * (size - 1),
            delay >= 0,
            size >= 1,
    ;
    assert(size == 1 ==> burst_span(delay, size) == 0) by (nonlinear_arith)
        requires
            burst_span(delay, size) == delay * (size - 1),
    ;
}

} // verus!
