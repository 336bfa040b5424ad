use itj_tiny_deps::errors::ErrorSmart;
use itj_tiny_deps::http::{Http, HttpGetResponse};
use itj_tiny_deps::mock_http::MockHttpController;
use itj_tiny_deps::time::{MockTime, Time, DURATION_SECOND};

const URL1: &str = "url1";
const URL2: &str = "url2";
const URL_UNUSED: &str = "url999";
const RESPONSE1: &str = "response1";
const RESPONSE2: &str = "response2";

fn minimal_response_from_body(body: &str) -> HttpGetResponse {
    HttpGetResponse {
        headers: vec![],
        body: body.to_string(),
    }
}

fn get_standard_impl() -> (impl Http, MockTime) {
    let controller = MockHttpController::default()
        .add_expected_fn_call(URL1.to_string(), Ok(minimal_response_from_body(RESPONSE1)))
        .add_expected_fn_call(URL2.to_string(), Ok(minimal_response_from_body(RESPONSE2)));
    let time = controller.get_mock_time().shallow_clone();
    (controller.to_impl(), time)
}

#[test]
fn mock_http_test_happy() {
    let (mut http, _) = get_standard_impl();

    assert_eq!(Ok(minimal_response_from_body(RESPONSE1)), http.get(URL1));
    assert_eq!(Ok(minimal_response_from_body(RESPONSE2)), http.get(URL2));
}

#[test]
fn mock_http_extra_call_is_an_error() {
    let (mut http, _) = get_standard_impl();

    assert_eq!(Ok(minimal_response_from_body(RESPONSE1)), http.get(URL1));
    assert_eq!(Ok(minimal_response_from_body(RESPONSE2)), http.get(URL2));
    assert!(http.get(URL1).is_err());
}

#[test]
fn mock_http_wrong_order_is_an_error() {
    let (mut http, _) = get_standard_impl();
    assert!(http.get(URL2).is_err());
}

#[test]
fn mock_http_unknown_url_is_an_error() {
    let (mut http, _) = get_standard_impl();
    assert!(http.get(URL_UNUSED).is_err());
}

#[test]
fn mock_http_late_call_is_an_error() {
    let (mut http, mut time) = get_standard_impl();
    assert_eq!(Ok(minimal_response_from_body(RESPONSE1)), http.get(URL1));
    time.sleep(DURATION_SECOND);
    assert!(http.get(URL2).is_err());
}

#[test]
fn mock_http_early_call_is_an_error() {
    let controller = MockHttpController::default();
    let time = controller.get_mock_time().shallow_clone();
    let controller = controller.add_timed_expected_fn_call(
        time.now_instant() + DURATION_SECOND,
        URL1.to_string(),
        Ok(minimal_response_from_body(RESPONSE1)),
    );
    let mut http = controller.to_impl();
    assert!(http.get(URL1).is_err());
}

#[test]
fn mock_http_expected_time_is_that_of_the_first_queued_call() {
    let controller = MockHttpController::default();
    let time = controller.get_mock_time().shallow_clone();
    assert_eq!(controller.get_expected_time_of_most_recent_expected_fn_call(), None);
    let start = time.now_instant();
    let controller = controller.add_timed_expected_fn_call(
        start + 5 * DURATION_SECOND,
        URL1.to_string(),
        ErrorSmart::new_light("first"),
    );
    let controller = controller.add_timed_expected_fn_call(
        start + 9 * DURATION_SECOND,
        URL2.to_string(),
        ErrorSmart::new_light("second"),
    );
    assert_eq!(
        controller.get_expected_time_of_most_recent_expected_fn_call(),
        Some(start + 5 * DURATION_SECOND)
    );
}

#[test]
fn mock_http_clear_and_is_clean() {
    let (mut http, _) = get_standard_impl();
    let _ = &mut http;
    let controller = MockHttpController::default()
        .add_expected_fn_call(URL1.to_string(), Ok(minimal_response_from_body(RESPONSE1)));
    let mut mock = controller.to_impl();
    assert!(!mock.is_clean());
    mock.clear();
    assert!(mock.is_clean());
}
