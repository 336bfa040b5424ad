//! A callback run at most once per period, when asked.
use crate::plugins::later;
use crate::time::Time;
use std::marker::PhantomData;
use vstd::prelude::*;

verus! {

/// Calls a callback when at least a period has passed since the last call.
///
/// It is not a thread: the owner calls `run` often, and `run` calls the
/// callback only when the time has come.
pub struct PeriodicTask<T, F: Fn(T), C: Time> {
    callback: F,
    t_next: u64,
    period: u64,
    time: C,
    _phantom_args: PhantomData<T>,
}

/// Whether a task whose next time is `t_next` runs at `now`.
pub open spec fn task_is_due(t_next: u64, now: u64) -> bool {
    t_next < now
}

impl<T, F: Fn(T), C: Time> PeriodicTask<T, F, C> {
    pub closed spec fn next_view(&self) -> u64 {
        self.t_next
    }

    pub closed spec fn period_view(&self) -> u64 {
        self.period
    }

    pub closed spec fn callback_view(&self) -> F {
        self.callback
    }

    /// A task that first runs when `run` is called after the current time.
    pub fn new(callback: F, period: u64, time: C) -> (r: Self)
        ensures
            r.period_view() == period,
            r.callback_view() == callback,
    {
        let t_next = time.now_instant();
        PeriodicTask { callback, t_next, period, time, _phantom_args: PhantomData }
    }

    /// At the clock reading `now`: runs the callback with `args` if the next
    /// time has passed, and then moves the next time to `now` plus the
    /// period; otherwise does nothing.
    pub fn run_at(&mut self, args: T, now: u64)
        requires
            forall|a: T| old(self).callback_view().requires((a,)),
        ensures
            final(self).period_view() == old(self).period_view(),
            final(self).callback_view() == old(self).callback_view(),
            final(self).next_view() == (if task_is_due(old(self).next_view(), now) {
                later(now, old(self).period_view())
            } else {
                old(self).next_view()
            }),
            task_is_due(old(self).next_view(), now) ==> old(self).callback_view().ensures((args,), ()),
    {
        if self.t_next < now {
            assert(old(self).callback_view() == self.callback);
            assert(self.callback.requires((args,)));
            (self.callback)(args);
            self.t_next = now.saturating_add(self.period);
        }
    }

    /// Runs the task (see `run_at`) at the clock's current reading.
    pub fn run(&mut self, args: T)
        requires
            forall|a: T| old(self).callback_view().requires((a,)),
        ensures
            final(self).period_view() == old(self).period_view(),
            final(self).callback_view() == old(self).callback_view(),
            exists|now: u64|
                {
                    &&& final(self).next_view() == (if task_is_due(old(self).next_view(), now) {
                        later(now, old(self).period_view())
                    } else {
                        old(self).next_view()
                    })
                    &&& task_is_due(old(self).next_view(), now) ==> old(self).callback_view().ensures(
                        (args,),
                        (),
                    )
                },
    {
        let now = self.time.now_instant();
        self.run_at(args, now);
    }
}

} // verus!
