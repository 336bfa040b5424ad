use itj_tiny_deps::errors::ErrorSmart;
use itj_tiny_deps::http::{Http, HttpGetResponse};
use itj_tiny_deps::leaky_bucket::{full_bucket_threshold, leaky_bucket_admit, LeakyBucket};
use itj_tiny_deps::mock_http::MockHttpController;
use itj_tiny_deps::time::{Time, DURATION_SECOND};

struct TestOperationConstructorArgs {
    bucket_size: u32,
    query_delay: u64,
}

#[derive(Debug)]
struct TestOperationGet {
    /// Time at which the request is made, relative to the start of the test
    t_enqueue: u64,
    /// Time at which the leaky bucket is expected to call the underlying HTTP
    /// get function, relative to the start of the test
    t_dequeue: u64,
    /// True if the operation succeeds, false if it returns an error
    success: bool,
}

fn secs(n: u64) -> u64 {
    n * DURATION_SECOND
}

fn op(t_enqueue: u64, t_dequeue: u64) -> TestOperationGet {
    TestOperationGet {
        t_enqueue: secs(t_enqueue),
        t_dequeue: secs(t_dequeue),
        success: true,
    }
}

fn run_test(args: TestOperationConstructorArgs, operations: impl Iterator<Item = TestOperationGet>) {
    let mut http_controller = MockHttpController::default();
    let mut time_mock = http_controller.get_mock_time().shallow_clone();
    let time_start: u64 = time_mock.now_instant();

    let operations: Vec<_> = operations.collect();

    let url = "asdf".to_string();
    let expected_err: Result<HttpGetResponse, ErrorSmart> = ErrorSmart::new_light("asdf");
    let expected_ok: Result<HttpGetResponse, ErrorSmart> = Ok(HttpGetResponse {
        headers: vec![],
        body: "asdf".to_string(),
    });
    for TestOperationGet {
        t_enqueue: _,
        t_dequeue,
        success,
    } in &operations
    {
        let expected_response = if *success {
            expected_ok.clone()
        } else {
            expected_err.clone()
        };
        http_controller = http_controller.add_timed_expected_fn_call(
            time_start + *t_dequeue,
            url.clone(),
            expected_response,
        );
    }
    let http_mock = Box::new(http_controller.to_impl());

    let mut bucket = LeakyBucket::new(http_mock, time_mock.shallow_clone(), args.bucket_size, args.query_delay);

    for TestOperationGet {
        t_enqueue,
        t_dequeue,
        success,
    } in &operations
    {
        let expected_response = if *success {
            expected_ok.clone()
        } else {
            expected_err.clone()
        };
        let t_enqueue = time_start + *t_enqueue;
        let t_dequeue = time_start + *t_dequeue;
        assert!(t_enqueue <= t_dequeue);

        let t_now = time_mock.now_instant();
        assert!(t_now <= t_enqueue);
        let t_sleep = t_enqueue - t_now;
        time_mock.sleep(t_sleep);
        assert!(time_mock.now_instant() == t_enqueue);

        let actual_response = bucket.get(&url);
        assert_eq!(expected_response, actual_response);
    }
}

// Test the trivial case where no sleeping occurs
#[test]
fn test_trivial() {
    let args = TestOperationConstructorArgs { bucket_size: 3, query_delay: secs(10) };
    let operations = [op(0, 0), op(0, 0), op(0, 0)];
    run_test(args, operations.into_iter());
}

// Test the basic case where there is an instantanous burst in traffic that is
// larger than the bucket size
#[test]
fn test_burst_instantanous() {
    let args = TestOperationConstructorArgs { bucket_size: 3, query_delay: secs(10) };
    let operations = [op(0, 0), op(0, 0), op(0, 0), op(0, 10), op(10, 20)];
    run_test(args, operations.into_iter());
}

// Test the basic case where there is a near instantanous burst in traffic that
// is larger than the bucket size
#[test]
fn test_near_burst() {
    let args = TestOperationConstructorArgs { bucket_size: 3, query_delay: secs(10) };
    let operations = [op(0, 0), op(1, 1), op(2, 2), op(3, 10), op(11, 20)];
    run_test(args, operations.into_iter());
}

/// Verify that only `bucket_size` charges are accumulated after a long delay
#[test]
fn test_overcharge() {
    let args = TestOperationConstructorArgs { bucket_size: 3, query_delay: secs(10) };
    let operations = [
        op(0, 0),
        op(1, 1),
        op(2, 2),
        op(3, 10),
        // bucket is now fully depleated

        // Wait a long time, then verify that only three requests can be made without delay
        op(100, 100),
        op(101, 101),
        op(102, 102),
        op(103, 110),
    ];
    run_test(args, operations.into_iter());
}

/// Run a test where at least one "charge" has been accumulated in the time it
/// takes to deplete all of the charges
#[test]
fn test_slow_depletion() {
    let args = TestOperationConstructorArgs { bucket_size: 3, query_delay: secs(10) };
    let operations = [
        // count: 3
        op(0, 0),
        // count: 2
        op(1, 1),
        // count: 1
        op(12, 12),
        // count: 1
        op(20, 20),
        // count: 1
        op(21, 21),
        // count: 0
        op(22, 30),
        // count: 0
    ];
    run_test(args, operations.into_iter());
}

#[test]
fn leaky_bucket_failed_requests_still_use_a_charge() {
    let args = TestOperationConstructorArgs { bucket_size: 2, query_delay: secs(5) };
    let operations = [
        TestOperationGet { t_enqueue: secs(0), t_dequeue: secs(0), success: false },
        TestOperationGet { t_enqueue: secs(0), t_dequeue: secs(0), success: true },
        TestOperationGet { t_enqueue: secs(0), t_dequeue: secs(5), success: false },
    ];
    run_test(args, operations.into_iter());
}

#[test]
fn leaky_bucket_admit_exact_values() {
    // A full bucket of 3 with a 10 s delay, at t = 100 s.
    let d = full_bucket_threshold(secs(100), secs(10), 3);
    assert_eq!(d, secs(80));
    // The threshold is behind the full-bucket threshold: no wait.
    assert_eq!(leaky_bucket_admit(secs(50), d, secs(100), secs(10)), Some((0, secs(90))));
    // The threshold is ahead of the clock: wait for it.
    assert_eq!(leaky_bucket_admit(secs(107), d, secs(100), secs(10)), Some((secs(7), secs(117))));
    // The next threshold would not fit.
    assert_eq!(leaky_bucket_admit(u64::MAX - 1, d, secs(100), secs(10)), None);
}

#[test]
fn leaky_bucket_full_threshold_clamps_at_the_epoch() {
    assert_eq!(full_bucket_threshold(secs(5), secs(10), 3), 0);
    assert_eq!(full_bucket_threshold(secs(5), secs(10), 1), secs(5));
}
