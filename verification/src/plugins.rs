//! Plugins polled on their own schedules by a `PluginRunner`.
//!
//! Each plugin, when polled, says how long it wants to rest (its cooldown).
//! The runner polls every plugin whose deadline has come, sets its next
//! deadline to the time of the poll plus the cooldown, and tells the caller
//! how long to sleep before the next round.
use crate::shared::{shared_clone, shared_new, shared_replace, SharedQueue};
use crate::time::Time;
use std::cell::RefCell;
use std::rc::Rc;
use vstd::prelude::*;

verus! {

/// A plugin: polling it does its work and returns its cooldown. `polls`
/// counts the polls this plugin value has had; `last_cooldown` is the
/// cooldown its latest poll returned.
pub trait Plugin {
    spec fn polls(&self) -> nat;

    spec fn last_cooldown(&self) -> u64;

    fn poll(&mut self) -> (r: u64)
        ensures
            final(self).polls() == old(self).polls() + 1,
            r == final(self).last_cooldown(),
    ;
}

/// Whether a plugin whose deadline is `deadline` is polled at `now`.
pub open spec fn is_due(deadline: u64, now: u64) -> bool {
    deadline <= now
}

/// The instant `now + span`, or the last instant if that is past it.
pub open spec fn later(now: u64, span: u64) -> u64 {
    if now + span <= u64::MAX { (now + span) as u64 } else { u64::MAX }
}

/// How long to sleep until `next`, seen from `now`, but at least
/// `min_delay`.
pub open spec fn sleep_until(next: u64, now: u64, min_delay: u64) -> u64 {
    let wait = if next > now { (next - now) as u64 } else { 0 };
    if wait >= min_delay { wait } else { min_delay }
}

/// The earliest of `bound` and the deadlines of the polled plugins
/// (`polled[i]` tells whether plugin `i` was polled).
pub open spec fn earliest_polled(deadlines: Seq<u64>, polled: Seq<bool>, bound: u64) -> u64
    decreases deadlines.len(),
{
    if deadlines.len() == 0 {
        bound
    } else {
        let rest = earliest_polled(deadlines.drop_last(), polled.drop_last(), bound);
        if polled.last() && deadlines.last() < rest {
            deadlines.last()
        } else {
            rest
        }
    }
}

/// Whether a plugin is due.
pub fn entry_is_due(deadline: u64, now: u64) -> (r: bool)
    ensures
        r == is_due(deadline, now),
{
    !(deadline > now)
}

/// The instant `span` after `now`.
pub fn instant_after(now: u64, span: u64) -> (r: u64)
    ensures
        r == later(now, span),
{
    now.saturating_add(span)
}

/// The delay before the next round.
pub fn poll_delay(next: u64, now: u64, min_delay: u64) -> (r: u64)
    ensures
        r == sleep_until(next, now, min_delay),
        r >= min_delay,
{
    let wait = if next > now { next - now } else { 0 };
    if wait >= min_delay { wait } else { min_delay }
}

/// Whether every deadline is `now`.
pub open spec fn all_at(deadlines: Seq<u64>, now: u64) -> bool {
    forall|i: int| 0 <= i < deadlines.len() ==> #[trigger] deadlines[i] == now
}

/// Which plugins are due at `now`.
pub open spec fn due_mask(deadlines: Seq<u64>, now: u64) -> Seq<bool> {
    Seq::new(deadlines.len(), |j: int| is_due(deadlines[j], now))
}

/// A plugin's deadline after a round at `now` in which, if it was due, it was
/// polled and asked to rest for `cooldown`.
pub open spec fn round_deadline(deadline: u64, now: u64, cooldown: u64) -> u64 {
    if is_due(deadline, now) {
        later(now, cooldown)
    } else {
        deadline
    }
}

proof fn lemma_earliest_polled_bounded(deadlines: Seq<u64>, polled: Seq<bool>, bound: u64)
    ensures
        earliest_polled(deadlines, polled, bound) <= bound,
    decreases deadlines.len(),
{
    if deadlines.len() > 0 {
        lemma_earliest_polled_bounded(deadlines.drop_last(), polled.drop_last(), bound);
    }
}

proof fn lemma_earliest_polled_is_min(deadlines: Seq<u64>, polled: Seq<bool>, bound: u64)
    requires
        deadlines.len() == polled.len(),
    ensures
        ({
            let e = earliest_polled(deadlines, polled, bound);
            &&& e <= bound
            &&& forall|j: int| 0 <= j < deadlines.len() && #[trigger] polled[j] ==> e <= deadlines[j]
            &&& e == bound || exists|j: int| 0 <= j < deadlines.len() && #[trigger] polled[j] && e == deadlines[j]
        }),
    decreases deadlines.len(),
{
    if deadlines.len() > 0 {
        let dl = deadlines.drop_last();
        let pl = polled.drop_last();
        lemma_earliest_polled_is_min(dl, pl, bound);
        let rest = earliest_polled(dl, pl, bound);
        let e = earliest_polled(deadlines, polled, bound);
        let n = deadlines.len() - 1;
        assert forall|j: int| 0 <= j < deadlines.len() && #[trigger] polled[j] implies e <= deadlines[j] by {
            if j < n {
                assert(pl[j] == polled[j]);
                assert(dl[j] == deadlines[j]);
            }
        }
        if e != bound {
            if polled.last() && deadlines.last() < rest {
                assert(polled[n] && e == deadlines[n]);
            } else {
                let k = choose|k: int| 0 <= k < dl.len() && #[trigger] pl[k] && rest == dl[k];
                assert(polled[k] && e == deadlines[k]);
            }
        }
    }
}

/// The sleep after a round at `now` is never shorter than the minimum delay,
/// and never longer than the maximum delay unless the minimum delay asks for
/// more, whatever the new deadlines of the polled plugins are.
pub proof fn lemma_delay_bounds(now: u64, max_delay: u64, min_delay: u64, deadlines: Seq<u64>, polled: Seq<bool>)
    ensures
        ({
            let d = sleep_until(earliest_polled(deadlines, polled, later(now, max_delay)), now, min_delay);
            &&& d >= min_delay
            &&& d <= (if max_delay >= min_delay { max_delay } else { min_delay })
        }),
{
    lemma_earliest_polled_bounded(deadlines, polled, later(now, max_delay));
}

/// Polls plugins when their deadlines come.
pub struct PluginRunner<T: Time> {
    plugins: Vec<Box<dyn Plugin>>,
    deadlines: Vec<u64>,
    time: T,
    min_delay: u64,
    max_delay: u64,
}

impl<T: Time> PluginRunner<T> {
    /// Every plugin has a deadline.
    pub closed spec fn well_formed(&self) -> bool {
        self.plugins@.len() == self.deadlines@.len()
    }

    /// The deadlines of the plugins, in the order they were given.
    pub closed spec fn deadlines_view(&self) -> Seq<u64> {
        self.deadlines@
    }

    /// The plugins, in the order they were given.
    pub closed spec fn plugins_view(&self) -> Seq<Box<dyn Plugin>> {
        self.plugins@
    }

    /// The runner's clock.
    pub closed spec fn clock(&self) -> T {
        self.time
    }

    pub closed spec fn min_delay_view(&self) -> u64 {
        self.min_delay
    }

    pub closed spec fn max_delay_view(&self) -> u64 {
        self.max_delay
    }

    /// A runner for `plugins`, all due at once.
    pub fn new(time: T, plugins: Vec<Box<dyn Plugin>>, min_delay: u64, max_delay: u64) -> (r: Self)
        ensures
            r.well_formed(),
            r.deadlines_view().len() == plugins@.len(),
            exists|now: u64| #[trigger] all_at(r.deadlines_view(), now),
            r.plugins_view() == plugins@,
            r.clock() == time,
            r.min_delay_view() == min_delay,
            r.max_delay_view() == max_delay,
    {
        let now = time.now_instant();
        let n = plugins.len();
        let mut deadlines: Vec<u64> = Vec::new();
        while deadlines.len() < n
            invariant
                deadlines@.len() <= n,
                forall|i: int| 0 <= i < deadlines@.len() ==> #[trigger] deadlines@[i] == now,
            decreases n - deadlines@.len(),
        {
            deadlines.push(now);
        }
        assert(all_at(deadlines@, now));
        PluginRunner { plugins, deadlines, time, min_delay, max_delay }
    }

    /// How many plugins the runner holds.
    pub fn entry_count(&self) -> (r: usize)
        requires
            self.well_formed(),
        ensures
            r == self.deadlines_view().len(),
    {
        self.plugins.len()
    }

    /// Sleeps on the runner's clock, as the caller does between rounds.
    pub fn sleep(&mut self, dur: u64)
        ensures
            final(self).clock().slept() == old(self).clock().slept().push(dur),
            final(self).deadlines_view() == old(self).deadlines_view(),
            final(self).plugins_view() == old(self).plugins_view(),
            final(self).min_delay_view() == old(self).min_delay_view(),
            final(self).max_delay_view() == old(self).max_delay_view(),
            old(self).well_formed() ==> final(self).well_formed(),
    {
        self.time.sleep(dur);
    }

    /// The runner's clock.
    pub fn time(&self) -> (r: &T)
        ensures
            *r == self.clock(),
    {
        &self.time
    }

    /// Whether `next` and `delay` are what a round at `now` makes of
    /// `self`: the plugins that are due at `now` are polled once each and get
    /// the deadline `now` plus their cooldown; the others are untouched. The
    /// delay is the span from `now` to the earliest new deadline of a polled
    /// plugin, or to `now + max_delay` if that is earlier, but never less
    /// than `min_delay`.
    pub open spec fn is_round(&self, now: u64, next: &Self, delay: u64) -> bool {
        let n = self.deadlines_view().len();
        &&& next.well_formed()
        &&& next.deadlines_view().len() == n
        &&& next.plugins_view().len() == n
        &&& next.min_delay_view() == self.min_delay_view()
        &&& next.max_delay_view() == self.max_delay_view()
        &&& next.clock() == self.clock()
        &&& forall|j: int|
            0 <= j < n ==> #[trigger] next.deadlines_view()[j] == round_deadline(
                self.deadlines_view()[j],
                now,
                next.plugins_view()[j].last_cooldown(),
            )
        &&& forall|j: int|
            0 <= j < n ==> #[trigger] next.plugins_view()[j].polls() == self.plugins_view()[j].polls()
                + if is_due(self.deadlines_view()[j], now) { 1nat } else { 0nat }
        &&& delay == sleep_until(
            earliest_polled(next.deadlines_view(), due_mask(self.deadlines_view(), now), later(now, self.max_delay_view())),
            now,
            self.min_delay_view(),
        )
    }

    /// One round at the clock reading `now` (see `is_round`): polls every
    /// plugin that is due, in order, and returns the runner with the delay
    /// to sleep before the next round.
    pub fn poll_at(self, now: u64) -> (r: (Self, u64))
        requires
            self.well_formed(),
        ensures
            self.is_round(now, &r.0, r.1),
    {
        let mut me = self;
        let bound = instant_after(now, me.max_delay);
        let mut next = bound;
        let n = me.plugins.len();
        let mut i: usize = 0;
        let ghost mask = due_mask(self.deadlines@, now);
        while i < n
            invariant
                n == me.plugins@.len(),
                n == me.deadlines@.len(),
                n == self.deadlines@.len(),
                n == self.plugins@.len(),
                i <= n,
                me.min_delay == self.min_delay,
                me.max_delay == self.max_delay,
                me.time == self.time,
                bound == later(now, self.max_delay),
                mask == due_mask(self.deadlines@, now),
                next == earliest_polled(me.deadlines@.take(i as int), mask.take(i as int), bound),
                forall|j: int|
                    0 <= j < i ==> #[trigger] me.deadlines@[j] == round_deadline(
                        self.deadlines@[j],
                        now,
                        me.plugins@[j].last_cooldown(),
                    ),
                forall|j: int| i <= j < n ==> #[trigger] me.deadlines@[j] == self.deadlines@[j],
                forall|j: int|
                    0 <= j < i ==> #[trigger] me.plugins@[j].polls() == self.plugins@[j].polls() + if is_due(
                        self.deadlines@[j],
                        now,
                    ) {
                        1nat
                    } else {
                        0nat
                    },
                forall|j: int| i <= j < n ==> #[trigger] me.plugins@[j] == self.plugins@[j],
            decreases n - i,
        {
            let ghost before = me.deadlines@;
            if entry_is_due(me.deadlines[i], now) {
                let cooldown = me.plugins[i].poll();
                let deadline = instant_after(now, cooldown);
                if deadline < next {
                    next = deadline;
                }
                me.deadlines.set(i, deadline);
            }
            proof {
                let t = me.deadlines@.take(i + 1);
                assert(t.drop_last() =~= before.take(i as int));
                assert(mask.take(i + 1).drop_last() =~= mask.take(i as int));
                assert(t.last() == me.deadlines@[i as int]);
                assert(mask.take(i + 1).last() == is_due(self.deadlines@[i as int], now));
            }
            i = i + 1;
        }
        let delay = poll_delay(next, now, me.min_delay);
        proof {
            assert(me.deadlines@.take(n as int) =~= me.deadlines@);
            assert(mask.take(n as int) =~= mask);
        }
        (me, delay)
    }

    /// One round at the clock's current reading (see `poll_at`).
    pub fn poll(self) -> (r: (Self, u64))
        requires
            self.well_formed(),
        ensures
            exists|now: u64| self.is_round(now, &r.0, r.1),
    {
        let now = self.time.now_instant();
        self.poll_at(now)
    }
}

/// The sleep after a round at `now` is the span to the earliest of the new
/// deadlines of the plugins polled in it and `now + max_delay`, but at least
/// `min_delay`: it ends no later than any of those instants (unless the
/// minimum delay asks for more), and it ends exactly at one of them (or lasts
/// exactly the minimum delay).
pub proof fn lemma_round_delay<T: Time>(r0: PluginRunner<T>, now: u64, r1: PluginRunner<T>, delay: u64)
    requires
        r0.is_round(now, &r1, delay),
    ensures
        ({
            let n = r0.deadlines_view().len();
            let min = r0.min_delay_view();
            let cap = later(now, r0.max_delay_view());
            &&& delay >= min
            &&& delay == min || now + delay <= cap
            &&& forall|j: int|
                0 <= j < n && is_due(r0.deadlines_view()[j], now) ==> delay == min || now + delay
                    <= #[trigger] r1.deadlines_view()[j]
            &&& delay == min || now + delay == cap || exists|j: int|
                0 <= j < n && is_due(r0.deadlines_view()[j], now) && now + delay
                    == #[trigger] r1.deadlines_view()[j]
        }),
{
    let n = r0.deadlines_view().len();
    let mask = due_mask(r0.deadlines_view(), now);
    let cap = later(now, r0.max_delay_view());
    let d1 = r1.deadlines_view();
    lemma_earliest_polled_is_min(d1, mask, cap);
    let e = earliest_polled(d1, mask, cap);
    assert forall|j: int| 0 <= j < n && #[trigger] mask[j] implies d1[j] >= now by {
        assert(d1[j] == round_deadline(r0.deadlines_view()[j], now, r1.plugins_view()[j].last_cooldown()));
    }
    if e != cap {
        let k = choose|k: int| 0 <= k < d1.len() && #[trigger] mask[k] && e == d1[k];
        assert(d1[k] >= now);
    }
    assert(e >= now);
    assert forall|j: int|
        0 <= j < n && is_due(r0.deadlines_view()[j], now) implies delay == r0.min_delay_view() || now + delay
            <= #[trigger] r1.deadlines_view()[j] by {
        assert(mask[j]);
    }
    if !(delay == r0.min_delay_view() || now + delay == cap) {
        let k = choose|k: int| 0 <= k < d1.len() && #[trigger] mask[k] && e == d1[k];
        assert(is_due(r0.deadlines_view()[k], now));
        assert(now + delay == r1.deadlines_view()[k]);
    }
}

/// A plugin that counts how many times it has been polled. Shallow clones
/// share the count.
pub struct TallyPlugin {
    data: Rc<RefCell<usize>>,
    cooldown: u64,
    polled: Ghost<nat>,
}

impl TallyPlugin {
    pub closed spec fn cooldown_view(&self) -> u64 {
        self.cooldown
    }

    /// A plugin with a count of zero and the given cooldown.
    pub fn new(cooldown: u64) -> (r: Self)
        ensures
            r.cooldown_view() == cooldown,
            r.polls() == 0,
    {
        TallyPlugin { data: shared_new(0), cooldown, polled: Ghost(0) }
    }

    /// The number of times `poll` has been called across all clones.
    pub fn get_poll_count(&self) -> usize {
        let v = shared_replace(&self.data, 0);
        let _ = shared_replace(&self.data, v);
        v
    }

    /// A clone sharing the same count; the clone itself has not been polled.
    pub fn shallow_clone(&self) -> (r: Self)
        ensures
            r.cooldown_view() == self.cooldown_view(),
            r.polls() == 0,
    {
        TallyPlugin { data: shared_clone(&self.data), cooldown: self.cooldown, polled: Ghost(0) }
    }
}

impl Default for TallyPlugin {
    fn default() -> (r: Self)
        ensures
            r.cooldown_view() == 0,
            r.polls() == 0,
    {
        TallyPlugin::new(0)
    }
}

impl Plugin for TallyPlugin {
    closed spec fn polls(&self) -> nat {
        self.polled@
    }

    closed spec fn last_cooldown(&self) -> u64 {
        self.cooldown
    }

    fn poll(&mut self) -> (r: u64)
        ensures
            r == old(self).cooldown_view(),
            final(self).cooldown_view() == old(self).cooldown_view(),
    {
        let v = shared_replace(&self.data, 0);
        let _ = shared_replace(&self.data, v.saturating_add(1));
        self.polled = Ghost(self.polled@ + 1);
        self.cooldown
    }
}

/// A plugin that pushes a copy of its value onto a shared queue on every
/// poll.
#[verifier::reject_recursive_types(T)]
pub struct EnqueuePlugin<T: Clone> {
    queue: SharedQueue<T>,
    value: T,
    cooldown: u64,
    polled: Ghost<nat>,
}

impl<T: Clone> EnqueuePlugin<T> {
    pub closed spec fn cooldown_view(&self) -> u64 {
        self.cooldown
    }

    /// The value pushed on each poll.
    pub closed spec fn value_view(&self) -> T {
        self.value
    }

    /// The queue the value is pushed onto.
    pub closed spec fn queue_view(&self) -> SharedQueue<T> {
        self.queue
    }

    /// A plugin that pushes `value` onto `queue` on each poll.
    pub fn new(queue: SharedQueue<T>, value: T, cooldown: u64) -> (r: Self)
        ensures
            r.cooldown_view() == cooldown,
            r.value_view() == value,
            r.queue_view() == queue,
            r.polls() == 0,
    {
        EnqueuePlugin { queue, value, cooldown, polled: Ghost(0) }
    }
}

impl<T: Clone> Plugin for EnqueuePlugin<T> {
    closed spec fn polls(&self) -> nat {
        self.polled@
    }

    closed spec fn last_cooldown(&self) -> u64 {
        self.cooldown
    }

    fn poll(&mut self) -> (r: u64)
        ensures
            r == old(self).cooldown_view(),
            final(self).cooldown_view() == old(self).cooldown_view(),
            final(self).value_view() == old(self).value_view(),
            final(self).queue_view() == old(self).queue_view(),
    {
        self.queue.push_back(self.value.clone());
        self.polled = Ghost(self.polled@ + 1);
        self.cooldown
    }
}

} // verus!
