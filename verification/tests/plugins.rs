use itj_tiny_deps::shared::SharedQueue;
use itj_tiny_deps::plugins::{poll_delay, EnqueuePlugin, Plugin, PluginRunner, TallyPlugin};
use itj_tiny_deps::time::{MockTime, Time, NANOS_PER_MILLI, NANOS_PER_SECOND};

const MIN_DELAY: u64 = NANOS_PER_MILLI;
const MAX_DELAY: u64 = 100 * NANOS_PER_SECOND;

#[test]
fn test_basic_enqueue() {
    let queue: SharedQueue<char> = SharedQueue::new();
    let mut plugin = EnqueuePlugin::new(queue.shallow_clone(), 'x', 0);

    let cooldown = plugin.poll();
    assert_eq!(cooldown, 0);
    assert_eq!(queue.pop_front(), Some('x'));
}

#[test]
fn test_shared_queue() {
    let queue: SharedQueue<&str> = SharedQueue::new();
    let mut plugin_a = EnqueuePlugin::new(queue.shallow_clone(), "a", 0);
    let mut plugin_b = EnqueuePlugin::new(queue.shallow_clone(), "b", 0);

    let _ = plugin_a.poll();
    let _ = plugin_b.poll();

    assert_eq!(queue.pop_front(), Some("a"));
    assert_eq!(queue.pop_front(), Some("b"));
    assert!(queue.is_empty());
}

#[test]
fn test_poll_once() {
    let time = MockTime::default();
    let tally = TallyPlugin::new(0);
    let held = tally.shallow_clone();

    let runner = PluginRunner::new(time.shallow_clone(), vec![Box::new(tally)], MIN_DELAY, MAX_DELAY);
    let (runner, _delay) = runner.poll();

    assert_eq!(held.get_poll_count(), 1);
    assert_eq!(runner.entry_count(), 1);
}

#[test]
fn test_poll_twice() {
    let time = MockTime::default();
    let tally = TallyPlugin::new(0);
    let held = tally.shallow_clone();

    let runner = PluginRunner::new(time.shallow_clone(), vec![Box::new(tally)], MIN_DELAY, MAX_DELAY);
    let (mut runner, _delay) = runner.poll();

    // Advance time so deadline passes
    runner.sleep(NANOS_PER_MILLI);
    let (runner, _delay) = runner.poll();

    assert_eq!(held.get_poll_count(), 2);
    assert_eq!(runner.entry_count(), 1);
}

#[test]
fn test_poll_order() {
    let time = MockTime::default();
    let queue: SharedQueue<char> = SharedQueue::new();
    let enqueue_a = EnqueuePlugin::new(queue.shallow_clone(), 'a', 0);
    let enqueue_b = EnqueuePlugin::new(queue.shallow_clone(), 'b', 0);

    let runner = PluginRunner::new(
        time.shallow_clone(),
        vec![Box::new(enqueue_a), Box::new(enqueue_b)],
        MIN_DELAY,
        MAX_DELAY,
    );
    let (mut runner, _delay) = runner.poll();

    assert_eq!(queue.pop_front(), Some('a'));
    assert_eq!(queue.pop_front(), Some('b'));
    assert!(queue.is_empty());

    runner.sleep(NANOS_PER_MILLI);
    let _runner = runner.poll();

    assert_eq!(queue.pop_front(), Some('a'));
    assert_eq!(queue.pop_front(), Some('b'));
    assert!(queue.is_empty());
}

#[test]
fn test_plugin_not_polled_before_deadline() {
    let time = MockTime::default();
    let tally = TallyPlugin::new(10 * NANOS_PER_SECOND);
    let held = tally.shallow_clone();

    let runner = PluginRunner::new(time.shallow_clone(), vec![Box::new(tally)], MIN_DELAY, MAX_DELAY);

    // First poll: deadline is now, so it gets polled
    let (runner, _delay) = runner.poll();
    assert_eq!(held.get_poll_count(), 1);

    // Second poll at same instant: deadline is now + 10s, should NOT poll
    let _runner = runner.poll();
    assert_eq!(held.get_poll_count(), 1);
}

#[test]
fn test_plugin_polled_after_deadline() {
    let mut time = MockTime::default();
    let tally = TallyPlugin::new(5 * NANOS_PER_SECOND);
    let held = tally.shallow_clone();

    let runner = PluginRunner::new(time.shallow_clone(), vec![Box::new(tally)], MIN_DELAY, MAX_DELAY);

    // First poll
    let (runner, _delay) = runner.poll();
    assert_eq!(held.get_poll_count(), 1);

    // Advance time past deadline
    time.sleep(5 * NANOS_PER_SECOND);
    let _runner = runner.poll();
    assert_eq!(held.get_poll_count(), 2);
}

#[test]
fn test_zero_duration_repoll() {
    let time = MockTime::default();
    let tally = TallyPlugin::new(0);
    let held = tally.shallow_clone();

    let mut runner = PluginRunner::new(time.shallow_clone(), vec![Box::new(tally)], MIN_DELAY, MAX_DELAY);

    // Poll three times, each after advancing time slightly
    for _ in 0..3 {
        runner.sleep(NANOS_PER_MILLI);
        (runner, _) = runner.poll();
    }

    assert_eq!(held.get_poll_count(), 3);
}

#[test]
fn test_clone_shares_count() {
    let mut tally = TallyPlugin::default();
    let clone = tally.shallow_clone();

    assert_eq!(tally.get_poll_count(), 0);
    assert_eq!(clone.get_poll_count(), 0);

    let _ = tally.poll();

    assert_eq!(clone.get_poll_count(), 1);
}

#[test]
fn plugin_runner_delay_is_the_span_to_the_next_deadline() {
    let time = MockTime::default();
    let tally = TallyPlugin::new(7 * NANOS_PER_SECOND);
    let runner = PluginRunner::new(time.shallow_clone(), vec![Box::new(tally)], MIN_DELAY, MAX_DELAY);
    let (runner, delay) = runner.poll();
    assert_eq!(delay, 7 * NANOS_PER_SECOND);
    // Nothing is due: the delay is the maximum delay.
    let (_runner, delay) = runner.poll();
    assert_eq!(delay, MAX_DELAY);
}

#[test]
fn plugin_runner_delay_is_at_least_the_minimum() {
    assert_eq!(poll_delay(10, 10, 3), 3);
    assert_eq!(poll_delay(5, 10, 3), 3);
    assert_eq!(poll_delay(20, 10, 3), 10);
}

#[test]
fn shared_queue_handles_share_contents() {
    let q: SharedQueue<u8> = SharedQueue::new();
    let other = q.shallow_clone();
    assert!(q.is_empty());
    q.push_back(1);
    other.push_back(2);
    assert_eq!(other.pop_front(), Some(1));
    assert_eq!(q.pop_front(), Some(2));
    assert_eq!(q.pop_front(), None);
}

#[test]
fn plugin_runner_poll_at_a_given_reading() {
    let time = MockTime::default();
    let start = time.now_instant();
    let tally = TallyPlugin::new(5 * NANOS_PER_SECOND);
    let held = tally.shallow_clone();
    let runner = PluginRunner::new(time.shallow_clone(), vec![Box::new(tally)], MIN_DELAY, MAX_DELAY);
    // Before its deadline nothing is polled and the sleep is the longest one.
    let (runner, delay) = runner.poll_at(start - 1);
    assert_eq!(held.get_poll_count(), 0);
    assert_eq!(delay, MAX_DELAY);
    // At its deadline it is polled, and the sleep lasts its cooldown.
    let (_runner, delay) = runner.poll_at(start);
    assert_eq!(held.get_poll_count(), 1);
    assert_eq!(delay, 5 * NANOS_PER_SECOND);
}
