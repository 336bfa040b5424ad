use itj_tiny_deps::notification::{
    send_result, unmet_expectations, MockNotification, MockNotificationCall, MockNotificationOutcome, Notification,
    NotifySend,
};
use std::collections::VecDeque;

const TITLE1: &str = "Test Title";
const BODY1: &str = "Test Body";
const TITLE2: &str = "Another Title";
const BODY2: &str = "Another Body";

#[test]
fn test_expect_exact_happy() {
    let mut mn = MockNotification::new();
    mn.expect(MockNotificationCall {
        title: Some(TITLE1.to_string()),
        body: Some(BODY1.to_string()),
        should_ret_err: false,
    });
    mn.send(TITLE1, BODY1).unwrap();
}

#[test]
fn test_expect_any_happy() {
    let mut mn = MockNotification::new();
    mn.expect_any();
    mn.send(TITLE1, BODY1).unwrap();
}

#[test]
fn test_two_expects_consumed_lifo() {
    let mut mn = MockNotification::new();
    mn.expect_exact(TITLE1.to_string(), BODY1.to_string());
    mn.expect_exact(TITLE2.to_string(), BODY2.to_string());
    mn.send(TITLE1, BODY1).unwrap();
    mn.send(TITLE2, BODY2).unwrap();
}

#[test]
fn test_expect_any_ret_err_returns_err() {
    let mut mn = MockNotification::new();
    mn.expect_any_ret_err();
    let result = mn.send(TITLE1, BODY1);
    assert!(result.is_err());
}

#[test]
fn test_expect_any_returns_ok() {
    let mut mn = MockNotification::new();
    mn.expect_any();
    let result = mn.send(TITLE1, BODY1);
    assert!(result.is_ok());
}

#[test]
fn test_clone_shares_state() {
    let mut original = MockNotification::new();
    original.expect_any();
    let clone = original.clone();
    clone.send(TITLE1, BODY1).unwrap();
}

#[test]
fn notification_flush_reports_unsent() {
    let mut mn = MockNotification::new();
    mn.expect_exact(TITLE1.to_string(), BODY1.to_string());
    let unsent = mn.flush().unwrap_err();
    assert_eq!(unsent.len(), 1);
    assert_eq!(unsent[0].title, Some(TITLE1.to_string()));
    assert!(mn.flush().is_ok());
}

#[test]
fn notification_wrong_title_is_an_error() {
    let mut mn = MockNotification::new();
    mn.expect(MockNotificationCall {
        title: Some(TITLE1.to_string()),
        body: None,
        should_ret_err: false,
    });
    assert!(mn.send("wrong title", BODY1).is_err());
    assert!(mn.flush().is_ok());
}

#[test]
fn notification_wrong_body_is_an_error() {
    let mut mn = MockNotification::new();
    mn.expect(MockNotificationCall {
        title: None,
        body: Some(BODY1.to_string()),
        should_ret_err: false,
    });
    assert!(mn.send(TITLE1, "wrong body").is_err());
}

#[test]
fn notification_unexpected_send_is_an_error() {
    let mn = MockNotification::new();
    let e = mn.send(TITLE1, BODY1).unwrap_err();
    assert!(e.display_string().contains("This notification was unexpected")
        || e.display_string().contains("this notification was unexpected"));
}

#[test]
fn notification_expectations_are_met_in_order() {
    let mut mn = MockNotification::new();
    mn.expect_exact(TITLE1.to_string(), BODY1.to_string());
    mn.expect_exact(TITLE2.to_string(), BODY2.to_string());
    assert!(mn.send(TITLE2, BODY2).is_err());
    mn.send(TITLE2, BODY2).unwrap();
}

#[test]
fn notify_send_command_line() {
    let args = NotifySend::new().command_args("a title", "a body");
    assert_eq!(args, vec!["notify-send".to_string(), "a title".to_string(), "a body".to_string()]);
}

#[test]
fn notification_send_results() {
    assert!(send_result(MockNotificationOutcome::Accepted { ret_err: false }).is_ok());
    let e = send_result(MockNotificationOutcome::Accepted { ret_err: true }).unwrap_err();
    assert_eq!(e.display_string(), "ErrorSmart([Light(Mock Error)])");
    let e = send_result(MockNotificationOutcome::WrongBody).unwrap_err();
    assert_eq!(e.display_string(), "ErrorSmart([Light(MockNotification: the notification has the wrong body)])");
}

#[test]
fn notification_unmet_expectations() {
    assert!(unmet_expectations(VecDeque::new()).is_ok());
    let call = MockNotificationCall { title: None, body: None, should_ret_err: false };
    let mut q = VecDeque::new();
    q.push_back(call.clone());
    assert_eq!(unmet_expectations(q).unwrap_err(), VecDeque::from(vec![call]));
}
