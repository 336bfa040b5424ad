use itj_tiny_deps::errors::{ErrorSmart, ResultSmart};
use itj_tiny_deps::ipc::{in_addr_from_ipv4_octets, ipv4_bits_from_in_addr, port_from_sockaddr, sockaddr_port};
use itj_tiny_deps::periodic_task::PeriodicTask;
use itj_tiny_deps::random::{rand_duration_from_sample, rand_int_from_sample};
use itj_tiny_deps::time::{MockTime, Time, NANOS_PER_SECOND};
use itj_tiny_deps::tick_plugins::{Plugin, PluginRunner};
use std::cell::Cell;
use std::rc::Rc;

#[test]
fn error_trace_and_description() {
    let r: Result<(), ErrorSmart> = ErrorSmart::new_light("first");
    let r = r.push_light("second").push_heavy_at("third".to_string(), "file.rs", 7);
    let e = r.unwrap_err();
    assert_eq!(e.display_string(), "ErrorSmart([Light(first)Light(second)Heavy(third)])".to_string());
    let ok: Result<u8, ErrorSmart> = Ok(3);
    assert_eq!(ok.push_light("ignored"), Ok(3));
}

#[test]
fn error_heavy_frames() {
    let r: Result<(), ErrorSmart> = ErrorSmart::new_heavy_at("boom".to_string(), "here.rs", 1);
    let mut e = r.unwrap_err();
    e.push_heavy_manual("again".to_string(), "there.rs", 2);
    assert_eq!(e.display_string(), "ErrorSmart([Heavy(boom)Heavy(again)])".to_string());
}

#[test]
fn rand_int_uses_the_remainder_or_rejects() {
    assert_eq!(rand_int_from_sample(10, 13, 7), Some(11));
    assert_eq!(rand_int_from_sample(-5, 5, 23), Some(-2));
    // The largest multiple of 3 that a u64 holds is u64::MAX itself.
    assert_eq!(rand_int_from_sample(0, 3, u64::MAX), None);
    assert_eq!(rand_int_from_sample(0, 2, u64::MAX), None);
    assert_eq!(rand_int_from_sample(0, 2, u64::MAX - 1), None);
    assert_eq!(rand_int_from_sample(0, 2, u64::MAX - 2), Some(1));
}

#[test]
fn rand_duration_in_whole_seconds() {
    assert_eq!(rand_duration_from_sample(1 * NANOS_PER_SECOND, 12345), Some(0));
    assert_eq!(rand_duration_from_sample(10 * NANOS_PER_SECOND + 5, 13), Some(3 * NANOS_PER_SECOND));
}

#[test]
fn sockaddr_port_round_trip() {
    for p in [0u16, 80, 15829, 65535] {
        assert_eq!(port_from_sockaddr(sockaddr_port(p)), p);
    }
    assert_eq!(in_addr_from_ipv4_octets([127, 0, 0, 1]), u32::from_be_bytes([127, 0, 0, 1]).to_be());
    // The `s_addr` holds the octets in memory in the order they are written.
    let s_addr = in_addr_from_ipv4_octets([192, 168, 1, 2]);
    assert_eq!(s_addr.to_ne_bytes(), [192, 168, 1, 2]);
    assert_eq!(ipv4_bits_from_in_addr(s_addr), 0xc0a8_0102);
    assert_eq!(sockaddr_port(0x1234).to_ne_bytes(), [0x12, 0x34]);
}

#[test]
fn periodic_task_runs_once_per_period() {
    let count = Rc::new(Cell::new(0u32));
    let c = count.clone();
    let mut time = MockTime::new();
    let mut task = PeriodicTask::new(move |n: u32| c.set(c.get() + n), 10, time.shallow_clone());
    task.run(1);
    assert_eq!(count.get(), 0);
    time.sleep(1);
    task.run(1);
    assert_eq!(count.get(), 1);
    time.sleep(5);
    task.run(1);
    assert_eq!(count.get(), 1);
    time.sleep(6);
    task.run(2);
    assert_eq!(count.get(), 3);
}

struct Counter(Rc<Cell<u32>>);

impl Plugin for Counter {
    fn poll(&mut self) {
        self.0.set(self.0.get() + 1);
    }
}

#[test]
fn tick_polls_every_plugin() {
    let a = Rc::new(Cell::new(0));
    let b = Rc::new(Cell::new(0));
    let mut runner = PluginRunner::new(vec![Box::new(Counter(a.clone())), Box::new(Counter(b.clone()))]);
    runner.tick();
    runner.tick();
    assert_eq!((a.get(), b.get()), (2, 2));
}

#[test]
fn periodic_task_run_at_given_readings() {
    let count = Rc::new(Cell::new(0u32));
    let c = count.clone();
    let mut task = PeriodicTask::new(move |n: u32| c.set(c.get() + n), 10, MockTime::new());
    task.run_at(1, 0);
    assert_eq!(count.get(), 0);
    task.run_at(1, MockTime::new().now_instant() + 1);
    assert_eq!(count.get(), 1);
    task.run_at(1, MockTime::new().now_instant() + 11);
    assert_eq!(count.get(), 1);
    task.run_at(1, MockTime::new().now_instant() + 12);
    assert_eq!(count.get(), 2);
}
