//! Desktop notifications: the `Notification` abstraction, a mock that checks
//! the notifications sent against a list of expectations, and the
//! `notify-send` command.
use crate::errors::{ErrorSmart, TraceView};
use crate::shared::{shared_new, shared_replace};
use crate::text::str_eq;
use std::cell::RefCell;
use std::collections::VecDeque;
use std::rc::Rc;
use vstd::prelude::*;

verus! {

/// Something that can show a notification with a title and a body.
pub trait Notification {
    fn send(&self, title: &str, body: &str) -> Result<(), ErrorSmart>;
}

/// One expected notification. `None` stands for "don't care".
#[derive(Debug, Clone, PartialEq)]
pub struct MockNotificationCall {
    pub title: Option<String>,
    pub body: Option<String>,
    pub should_ret_err: bool,
}

/// What a sent notification finds among the expectations.
#[derive(Debug, Clone, Copy, PartialEq, Eq)]
pub enum MockNotificationOutcome {
    /// It matched the next expectation; `ret_err` says whether `send` fails.
    Accepted { ret_err: bool },
    /// No notification was expected.
    Unexpected,
    /// The next expectation wants another title.
    WrongTitle,
    /// The next expectation wants another body.
    WrongBody,
}

/// Whether an expected text, if there is one, is the given text.
pub open spec fn matches_expected(expected: Option<String>, actual: Seq<char>) -> bool {
    match expected {
        None => true,
        Some(e) => e@ == actual,
    }
}

/// Checks a notification against the next expectation, which it consumes.
pub fn consume_expected_notification(
    calls: &mut VecDeque<MockNotificationCall>,
    title: &str,
    body: &str,
) -> (r: MockNotificationOutcome)
    ensures
        old(calls)@.len() == 0 ==> r == MockNotificationOutcome::Unexpected && final(calls)@ == old(calls)@,
        old(calls)@.len() > 0 ==> {
            let expected = old(calls)@[0];
            &&& final(calls)@ == old(calls)@.drop_first()
            &&& r == if !matches_expected(expected.title, title@) {
                MockNotificationOutcome::WrongTitle
            } else if !matches_expected(expected.body, body@) {
                MockNotificationOutcome::WrongBody
            } else {
                MockNotificationOutcome::Accepted { ret_err: expected.should_ret_err }
            }
        },
{
    let expected = match calls.pop_front() {
        None => return MockNotificationOutcome::Unexpected,
        Some(e) => e,
    };
    assert(calls@ =~= old(calls)@.drop_first());
    if let Some(t) = &expected.title {
        if !str_eq(t.as_str(), title) {
            return MockNotificationOutcome::WrongTitle;
        }
    }
    if let Some(b) = &expected.body {
        if !str_eq(b.as_str(), body) {
            return MockNotificationOutcome::WrongBody;
        }
    }
    MockNotificationOutcome::Accepted { ret_err: expected.should_ret_err }
}

/// What a notification with `title` and `body` finds among the expectations
/// `calls`, the next one first.
pub open spec fn expected_outcome(calls: Seq<MockNotificationCall>, title: Seq<char>, body: Seq<char>) -> MockNotificationOutcome {
    if calls.len() == 0 {
        MockNotificationOutcome::Unexpected
    } else if !matches_expected(calls[0].title, title) {
        MockNotificationOutcome::WrongTitle
    } else if !matches_expected(calls[0].body, body) {
        MockNotificationOutcome::WrongBody
    } else {
        MockNotificationOutcome::Accepted { ret_err: calls[0].should_ret_err }
    }
}

/// The message of the error a mock `send` gives for an outcome; `None` when
/// it succeeds.
pub open spec fn outcome_error(outcome: MockNotificationOutcome) -> Option<Seq<char>> {
    match outcome {
        MockNotificationOutcome::Accepted { ret_err } => if ret_err {
            Some("Mock Error"@)
        } else {
            None
        },
        MockNotificationOutcome::Unexpected => Some("MockNotification: this notification was unexpected"@),
        MockNotificationOutcome::WrongTitle => Some("MockNotification: the notification has the wrong title"@),
        MockNotificationOutcome::WrongBody => Some("MockNotification: the notification has the wrong body"@),
    }
}

/// Whether `r` is what a mock `send` returns for `outcome`: `Ok(())`, or an
/// error whose trace is the outcome's message as one light point.
pub open spec fn is_send_result(outcome: MockNotificationOutcome, r: Result<(), ErrorSmart>) -> bool {
    match outcome_error(outcome) {
        None => r is Ok,
        Some(m) => r matches Err(e) && e@ == seq![TraceView::Light { message: m }],
    }
}

/// The result of a mock `send` for an outcome.
pub fn send_result(outcome: MockNotificationOutcome) -> (r: Result<(), ErrorSmart>)
    ensures
        is_send_result(outcome, r),
{
    match outcome {
        MockNotificationOutcome::Accepted { ret_err } => {
            if ret_err {
                ErrorSmart::new_light("Mock Error")
            } else {
                Ok(())
            }
        },
        MockNotificationOutcome::Unexpected => ErrorSmart::new_light(
            "MockNotification: this notification was unexpected",
        ),
        MockNotificationOutcome::WrongTitle => ErrorSmart::new_light(
            "MockNotification: the notification has the wrong title",
        ),
        MockNotificationOutcome::WrongBody => ErrorSmart::new_light(
            "MockNotification: the notification has the wrong body",
        ),
    }
}

/// Checks a notification against the expectations `calls` (the next one
/// first), consuming the next one, and gives what a mock `send` returns.
pub fn check_notification(calls: &mut VecDeque<MockNotificationCall>, title: &str, body: &str) -> (r: Result<(), ErrorSmart>)
    ensures
        is_send_result(expected_outcome(old(calls)@, title@, body@), r),
        final(calls)@ == (if old(calls)@.len() == 0 {
            old(calls)@
        } else {
            old(calls)@.drop_first()
        }),
{
    let outcome = consume_expected_notification(calls, title, body);
    send_result(outcome)
}

/// A notification is accepted exactly when an expectation is waiting, its
/// title and body (where it names them) are the ones sent, and it does not
/// ask `send` to fail; an accepted notification gives `Ok(())`, any other an
/// error whose trace is one light point.
pub proof fn lemma_send_checks_title_and_body(
    calls: Seq<MockNotificationCall>,
    title: Seq<char>,
    body: Seq<char>,
    r: Result<(), ErrorSmart>,
)
    requires
        is_send_result(expected_outcome(calls, title, body), r),
    ensures
        r is Ok <==> {
            &&& calls.len() > 0
            &&& (calls[0].title matches Some(t) ==> t@ == title)
            &&& (calls[0].body matches Some(b) ==> b@ == body)
            &&& !calls[0].should_ret_err
        },
        r matches Err(e) ==> e@.len() == 1 && e@[0] is Light,
{
}

/// What `flush` returns for the expectations it drained: `Ok` when there
/// were none, otherwise all of them, in order, as the error.
pub fn unmet_expectations(calls: VecDeque<MockNotificationCall>) -> (r: Result<(), VecDeque<MockNotificationCall>>)
    ensures
        r is Ok <==> calls@.len() == 0,
        r matches Err(u) ==> u@ == calls@,
{
    if calls.len() == 0 {
        Ok(())
    } else {
        Err(calls)
    }
}

/// A mock notification sink. Clones share the list of expectations.
#[derive(Debug, Clone)]
pub struct MockNotification {
    calls: Rc<RefCell<VecDeque<MockNotificationCall>>>,
}

impl MockNotification {
    /// A mock that expects nothing yet.
    pub fn new() -> Self {
        MockNotification { calls: shared_new(VecDeque::new()) }
    }

    /// Drops all expectations; the ones that were never met come back as the
    /// error.
    pub fn flush(&self) -> (r: Result<(), VecDeque<MockNotificationCall>>)
        ensures
            r matches Err(unmet) ==> unmet@.len() > 0,
    {
        let calls = shared_replace(&self.calls, VecDeque::new());
        unmet_expectations(calls)
    }

    /// Adds an expectation at the end of the list.
    pub fn expect(&mut self, data: MockNotificationCall) {
        let mut calls = shared_replace(&self.calls, VecDeque::new());
        calls.push_back(data);
        let _ = shared_replace(&self.calls, calls);
    }

    /// Expects a notification with exactly this title and body.
    pub fn expect_exact(&mut self, title: String, body: String) {
        self.expect(MockNotificationCall { title: Some(title), body: Some(body), should_ret_err: false })
    }

    /// Expects any notification.
    pub fn expect_any(&mut self) {
        self.expect(MockNotificationCall { title: None, body: None, should_ret_err: false })
    }

    /// Expects any notification, and makes its `send` fail.
    pub fn expect_any_ret_err(&mut self) {
        self.expect(MockNotificationCall { title: None, body: None, should_ret_err: true })
    }
}

impl Default for MockNotification {
    fn default() -> Self {
        MockNotification::new()
    }
}

impl Notification for MockNotification {
    /// Consumes the next expectation. A notification that was not expected,
    /// or whose title or body is not the expected one, gives an error.
    fn send(&self, title: &str, body: &str) -> (r: Result<(), ErrorSmart>)
        ensures
            exists|calls: Seq<MockNotificationCall>| is_send_result(expected_outcome(calls, title@, body@), r),
    {
        let mut calls = shared_replace(&self.calls, VecDeque::new());
        let r = check_notification(&mut calls, title, body);
        let _ = shared_replace(&self.calls, calls);
        r
    }
}

/// Notifications through the `notify-send` program.
#[derive(Debug, Default, Clone, Copy)]
pub struct NotifySend;

impl NotifySend {
    pub fn new() -> Self {
        NotifySend
    }

    /// The command line that shows a notification: `notify-send TITLE BODY`.
    pub fn command_args(&self, title: &str, body: &str) -> (r: Vec<String>)
        ensures
            r@.map_values(|a: String| a@) == seq!["notify-send"@, title@, body@],
    {
        let mut args: Vec<String> = Vec::new();
        args.push(String::from_str("notify-send"));
        args.push(String::from_str(title));
        args.push(String::from_str(body));
        assert(args@.map_values(|a: String| a@) =~= seq!["notify-send"@, title@, body@]);
        args
    }
}

} // verus!
