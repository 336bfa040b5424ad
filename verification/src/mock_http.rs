//! A mock `Http` that serves a scripted list of expected calls.
//!
//! A `MockHttpController` collects the expected calls (URL, instant and
//! result) and turns into a `MockHttp`; each `get` must then match the next
//! expected call, in order, at the expected instant of the mock clock.
use crate::errors::{ErrorSmart, TraceView};
use crate::http::{Http, HttpGetResponse};
use crate::text::str_eq;
use crate::time::{MockTime, Time};
use std::collections::VecDeque;
use vstd::prelude::*;

verus! {

/// One expected call.
#[derive(Debug)]
pub struct MockHttpDataPoint {
    pub url: String,
    pub t_expected: u64,
    pub result: Result<HttpGetResponse, ErrorSmart>,
}

/// What a `get` on the mock finds.
#[derive(Debug)]
pub enum MockHttpOutcome {
    /// The call matched the next expected one, whose result is handed back.
    Served(Result<HttpGetResponse, ErrorSmart>),
    /// No call was expected any more.
    NoCallExpected,
    /// The next expected call was for another instant or another URL; the
    /// expected calls are all dropped.
    Mismatch { wrong_time: bool, wrong_url: bool },
}

/// The instant of the first expected call still queued, if any.
pub fn expected_time_of_front(queue: &VecDeque<MockHttpDataPoint>) -> (r: Option<u64>)
    ensures
        queue@.len() == 0 ==> r is None,
        queue@.len() > 0 ==> r == Some(queue@[0].t_expected),
{
    if queue.len() == 0 {
        None
    } else {
        Some(queue[0].t_expected)
    }
}

/// Serves a call of `url` at instant `now` from the queue of expected calls.
pub fn serve_expected_call(queue: &mut VecDeque<MockHttpDataPoint>, url: &str, now: u64) -> (r: MockHttpOutcome)
    ensures
        old(queue)@.len() == 0 ==> r is NoCallExpected && final(queue)@ == old(queue)@,
        old(queue)@.len() > 0 ==> {
            let next = old(queue)@[0];
            let wrong_time = next.t_expected != now;
            let wrong_url = next.url@ != url@;
            if wrong_time || wrong_url {
                &&& r == (MockHttpOutcome::Mismatch { wrong_time, wrong_url })
                &&& final(queue)@.len() == 0
            } else {
                &&& r == MockHttpOutcome::Served(next.result)
                &&& final(queue)@ == old(queue)@.drop_first()
            }
        },
{
    match queue.pop_front() {
        None => MockHttpOutcome::NoCallExpected,
        Some(next) => {
            let wrong_time = next.t_expected != now;
            let wrong_url = !str_eq(next.url.as_str(), url);
            if wrong_time || wrong_url {
                queue.clear();
                MockHttpOutcome::Mismatch { wrong_time, wrong_url }
            } else {
                assert(queue@ =~= old(queue)@.drop_first());
                MockHttpOutcome::Served(next.result)
            }
        },
    }
}

/// Whether every expected call has been made.
pub fn data_is_clean(queue: &VecDeque<MockHttpDataPoint>) -> (r: Result<(), ()>)
    ensures
        r is Ok <==> queue@.len() == 0,
{
    if queue.len() == 0 {
        Ok(())
    } else {
        Err(())
    }
}

/// The message of the error for a call that does not match the next
/// expected one.
pub open spec fn mismatch_message(wrong_time: bool, wrong_url: bool) -> Seq<char> {
    if wrong_time && wrong_url {
        "MockHttp: get was called at the wrong time with the wrong URL"@
    } else if wrong_time {
        "MockHttp: get was called at the wrong time"@
    } else {
        "MockHttp: get was called with the wrong URL"@
    }
}

/// What a call of `url` at instant `now` does to the expected calls `q`
/// (leaving `q2`) and what it returns (`r`): with no call expected, an error;
/// when the next expected call is for another instant or URL, an error, and
/// no call is expected any more; otherwise the next call is consumed and its
/// result returned.
pub open spec fn mock_get_step(
    q: Seq<MockHttpDataPoint>,
    url: Seq<char>,
    now: u64,
    q2: Seq<MockHttpDataPoint>,
    r: Result<HttpGetResponse, ErrorSmart>,
) -> bool {
    if q.len() == 0 {
        &&& q2 == q
        &&& r matches Err(e) && e@ == seq![
            TraceView::Light { message: "MockHttp: get was called more times than expected"@ },
        ]
    } else {
        let next = q[0];
        let wrong_time = next.t_expected != now;
        let wrong_url = next.url@ != url;
        if wrong_time || wrong_url {
            &&& q2.len() == 0
            &&& r matches Err(e) && e@ == seq![
                TraceView::Light { message: mismatch_message(wrong_time, wrong_url) },
            ]
        } else {
            &&& q2 == q.drop_first()
            &&& r == next.result
        }
    }
}

/// Builds the list of expected calls of a `MockHttp`.
pub struct MockHttpController {
    data: VecDeque<MockHttpDataPoint>,
    time: MockTime,
}

/// The mock `Http` itself; it takes over the expected calls and the clock
/// of the controller it came from.
pub struct MockHttp {
    data: VecDeque<MockHttpDataPoint>,
    time: MockTime,
    history: Ghost<Seq<(Seq<char>, Result<HttpGetResponse, ErrorSmart>)>>,
}

impl MockHttpController {
    /// The expected calls, first expected first.
    pub closed spec fn expected_calls(&self) -> Seq<MockHttpDataPoint> {
        self.data@
    }

    /// The mock clock that the calls are checked against.
    pub closed spec fn clock(&self) -> MockTime {
        self.time
    }

    /// A controller with no expected call and a new mock clock.
    pub fn new() -> (r: Self)
        ensures
            r.expected_calls().len() == 0,
    {
        MockHttpController { data: VecDeque::new(), time: MockTime::new() }
    }

    /// The mock clock that the calls are checked against.
    pub fn get_mock_time(&self) -> (r: &MockTime)
        ensures
            *r == self.clock(),
    {
        &self.time
    }

    /// The instant of the first expected call still queued, if any.
    pub fn get_expected_time_of_most_recent_expected_fn_call(&self) -> (r: Option<u64>)
        ensures
            self.expected_calls().len() == 0 ==> r is None,
            self.expected_calls().len() > 0 ==> r == Some(self.expected_calls()[0].t_expected),
    {
        expected_time_of_front(&self.data)
    }

    /// Expects a call of `url` answered with `result`, at the instant of the
    /// first expected call still queued, or at the current mock time if there
    /// is none.
    pub fn add_expected_fn_call(self, url: String, result: Result<HttpGetResponse, ErrorSmart>) -> (r: Self)
        ensures
            r.clock() == self.clock(),
            self.expected_calls().len() > 0 ==> r.expected_calls() == self.expected_calls().push(
                MockHttpDataPoint { url, t_expected: self.expected_calls()[0].t_expected, result },
            ),
            self.expected_calls().len() == 0 ==> exists|now: u64|
                r.expected_calls() == seq![MockHttpDataPoint { url, t_expected: now, result }],
    {
        let current_time = self.time.now_instant();
        let t_expected = match self.get_expected_time_of_most_recent_expected_fn_call() {
            Some(t) => t,
            None => current_time,
        };
        let r = self.add_timed_expected_fn_call(t_expected, url, result);
        assert(self.expected_calls().len() == 0 ==> r.expected_calls() =~= seq![
            MockHttpDataPoint { url, t_expected: current_time, result },
        ]);
        r
    }

    /// Expects a call of `url` at instant `t_expected`, answered with
    /// `result`.
    pub fn add_timed_expected_fn_call(self, t_expected: u64, url: String, result: Result<HttpGetResponse, ErrorSmart>) -> (r: Self)
        ensures
            r.clock() == self.clock(),
            r.expected_calls() == self.expected_calls().push(MockHttpDataPoint { url, t_expected, result }),
    {
        let mut me = self;
        me.data.push_back(MockHttpDataPoint { url, t_expected, result });
        me
    }

    /// The mock `Http`, with the expected calls and the clock.
    pub fn to_impl(self) -> (r: MockHttp)
        ensures
            r.expected_calls() == self.expected_calls(),
            r.clock() == self.clock(),
            r.calls().len() == 0,
    {
        MockHttp { data: self.data, time: self.time, history: Ghost(Seq::empty()) }
    }
}

impl MockHttp {
    /// The calls still expected, first expected first.
    pub closed spec fn expected_calls(&self) -> Seq<MockHttpDataPoint> {
        self.data@
    }

    /// The mock clock that the calls are checked against.
    pub closed spec fn clock(&self) -> MockTime {
        self.time
    }

    /// Drops every expected call.
    pub fn clear(&mut self)
        ensures
            final(self).expected_calls().len() == 0,
            final(self).clock() == old(self).clock(),
            final(self).calls() == old(self).calls(),
    {
        self.data.clear();
    }

    /// Whether every expected call has been made.
    pub fn is_clean(&self) -> (r: bool)
        ensures
            r == (self.expected_calls().len() == 0),
    {
        data_is_clean(&self.data).is_ok()
    }
}

impl Default for MockHttpController {
    fn default() -> (r: Self)
        ensures
            r.expected_calls().len() == 0,
    {
        MockHttpController::new()
    }
}

impl Http for MockHttp {
    closed spec fn calls(&self) -> Seq<(Seq<char>, Result<HttpGetResponse, ErrorSmart>)> {
        self.history@
    }

    /// Serves the next expected call at the mock clock's current instant
    /// (see `mock_get_step`). A call that was not expected, or that comes at
    /// another instant or for another URL than the next expected one, is
    /// answered with an error.
    fn get(&mut self, url: &str) -> (r: Result<HttpGetResponse, ErrorSmart>)
        ensures
            final(self).clock() == old(self).clock(),
            exists|now: u64|
                mock_get_step(old(self).expected_calls(), url@, now, final(self).expected_calls(), r),
    {
        let now = self.time.now_instant();
        let outcome = serve_expected_call(&mut self.data, url, now);
        let r = match outcome {
            MockHttpOutcome::Served(result) => result,
            MockHttpOutcome::NoCallExpected => ErrorSmart::new_light(
                "MockHttp: get was called more times than expected",
            ),
            MockHttpOutcome::Mismatch { wrong_time, wrong_url } => {
                if wrong_time && wrong_url {
                    ErrorSmart::new_light("MockHttp: get was called at the wrong time with the wrong URL")
                } else if wrong_time {
                    ErrorSmart::new_light("MockHttp: get was called at the wrong time")
                } else {
                    ErrorSmart::new_light("MockHttp: get was called with the wrong URL")
                }
            },
        };
        self.history = Ghost(self.history@.push((url@, r)));
        assert(mock_get_step(old(self).expected_calls(), url@, now, self.expected_calls(), r));
        r
    }
}

} // verus!
