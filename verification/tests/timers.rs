use hosted_time::handler::classify_wait;
use hosted_time::handler::sleep_nanos;
use hosted_time::handler::Wait;
use hosted_time::message::MessageId;
use hosted_time::timers::TimerSet;

#[test]
fn new_set_is_empty() {
    let mut set = TimerSet::new();
    assert_eq!(set.len(), 0);
    assert_eq!(set.next_deadline(), None);
    assert_eq!(set.pop_expired(u128::MAX), None);
}

#[test]
fn timers_fire_earliest_deadline_first() {
    let mut set = TimerSet::new();
    set.insert(30, MessageId(1));
    set.insert(10, MessageId(2));
    set.insert(20, MessageId(3));
    assert_eq!(set.len(), 3);
    assert_eq!(set.next_deadline(), Some(10));
    assert_eq!(set.pop_expired(100), Some(MessageId(2)));
    assert_eq!(set.next_deadline(), Some(20));
    assert_eq!(set.pop_expired(100), Some(MessageId(3)));
    assert_eq!(set.pop_expired(100), Some(MessageId(1)));
    assert_eq!(set.pop_expired(100), None);
    assert_eq!(set.len(), 0);
}

#[test]
fn timers_of_one_deadline_fire_in_order_of_arrival() {
    let mut set = TimerSet::new();
    set.insert(10, MessageId(1));
    set.insert(5, MessageId(2));
    set.insert(10, MessageId(3));
    set.insert(10, MessageId(4));
    assert_eq!(set.pop_expired(10), Some(MessageId(2)));
    assert_eq!(set.pop_expired(10), Some(MessageId(1)));
    assert_eq!(set.pop_expired(10), Some(MessageId(3)));
    assert_eq!(set.pop_expired(10), Some(MessageId(4)));
}

#[test]
fn timer_does_not_fire_before_its_deadline() {
    let mut set = TimerSet::new();
    set.insert(10, MessageId(1));
    set.insert(20, MessageId(2));
    assert_eq!(set.pop_expired(0), None);
    assert_eq!(set.pop_expired(9), None);
    assert_eq!(set.len(), 2);
    assert_eq!(set.pop_expired(10), Some(MessageId(1)));
    assert_eq!(set.pop_expired(10), None);
    assert_eq!(set.pop_expired(19), None);
    assert_eq!(set.next_deadline(), Some(20));
    assert_eq!(set.pop_expired(20), Some(MessageId(2)));
}

#[test]
fn classify_wait_over() {
    assert_eq!(classify_wait(0, 0), Wait::Over);
    assert_eq!(classify_wait(10, 10), Wait::Over);
    assert_eq!(classify_wait(9, 10), Wait::Over);
    assert_eq!(classify_wait(0, u128::MAX), Wait::Over);
}

#[test]
fn classify_wait_for() {
    assert_eq!(classify_wait(11, 10), Wait::For(1));
    assert_eq!(classify_wait(50_000_100, 100), Wait::For(50_000_000));
    assert_eq!(classify_wait(u64::MAX as u128, 0), Wait::For(u64::MAX));
    assert_eq!(classify_wait(u64::MAX as u128 + 7, 7), Wait::For(u64::MAX));
}

#[test]
fn classify_wait_never() {
    assert_eq!(classify_wait(u64::MAX as u128 + 1, 0), Wait::Never);
    assert_eq!(classify_wait(u64::MAX as u128 + 8, 7), Wait::Never);
    assert_eq!(classify_wait(u128::MAX, 0), Wait::Never);
}

#[test]
fn sleep_nanos_until_deadline() {
    assert_eq!(sleep_nanos(150, 100), 50);
    assert_eq!(sleep_nanos(150, 150), 0);
    assert_eq!(sleep_nanos(150, 151), 0);
    assert_eq!(sleep_nanos(100 + 50_000_000, 100), 50_000_000);
    assert_eq!(sleep_nanos(u64::MAX as u128 + 5, 5), u64::MAX);
    assert_eq!(sleep_nanos(u128::MAX, 0), u64::MAX);
}
