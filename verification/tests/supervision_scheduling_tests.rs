use agentropic_runtime::scheduler::{
    FairShareScheduler, RoundRobinScheduler, Scheduler, SchedulingPolicy, TaskQueue,
};
use agentropic_runtime::supervisor::ExponentialBackoff;
use agentropic_runtime::AgentId;

const SECOND: u128 = 1_000_000_000;

#[test]
fn default_backoff_doubles_up_to_a_minute() {
    let mut b = ExponentialBackoff::default();
    let delays: Vec<u128> = (0..9).map(|_| b.next_delay()).collect();
    let secs: Vec<u128> = delays.iter().map(|d| d / SECOND).collect();
    assert_eq!(secs, vec![1, 2, 4, 8, 16, 32, 60, 60, 60]);
    assert_eq!(b.retries(), 9);
}

#[test]
fn backoff_reset_restarts_from_one_second() {
    let mut b = ExponentialBackoff::new(250_000_000, 10 * SECOND);
    assert_eq!(b.next_delay(), 250_000_000);
    assert_eq!(b.next_delay(), 500_000_000);
    b.reset();
    assert_eq!(b.retries(), 0);
    assert_eq!(b.next_delay(), SECOND);
    assert_eq!(b.next_delay(), 2 * SECOND);
}

#[test]
fn backoff_starting_above_cap_drops_to_cap() {
    let mut b = ExponentialBackoff::new(100, 30);
    assert_eq!(b.next_delay(), 100);
    assert_eq!(b.next_delay(), 30);
    assert_eq!(b.next_delay(), 30);
}

#[test]
fn backoff_odd_cap() {
    let mut b = ExponentialBackoff::new(3, 7);
    assert_eq!(b.next_delay(), 3);
    assert_eq!(b.next_delay(), 6);
    assert_eq!(b.next_delay(), 7);
}

#[test]
fn round_robin_advances_and_resets() {
    let mut s = RoundRobinScheduler::default();
    assert_eq!(s.time_slice(), 100_000_000);
    assert_eq!(s.current_index(), 0);
    s.next();
    s.next();
    assert_eq!(s.current_index(), 2);
    s.reset();
    assert_eq!(s.current_index(), 0);
    let t = RoundRobinScheduler::new(5);
    assert_eq!(t.time_slice(), 5);
}

#[test]
fn fair_share_holds_its_share() {
    let mut s = FairShareScheduler::default();
    assert_eq!(f64::from_bits(s.shares()), 1.0);
    s.set_shares(2.5f64.to_bits());
    assert_eq!(f64::from_bits(s.shares()), 2.5);
    assert_eq!(f64::from_bits(FairShareScheduler::new(0.75f64.to_bits()).shares()), 0.75);
}

#[test]
fn scheduler_queue_is_first_in_first_out() {
    let mut s = Scheduler::new(SchedulingPolicy::RoundRobin);
    assert_eq!(*s.policy(), SchedulingPolicy::RoundRobin);
    assert!(s.queue().is_empty());
    let a = AgentId::from_u128(1);
    let b = AgentId::from_u128(2);
    s.queue_mut().push(a);
    s.queue_mut().push(b);
    assert_eq!(s.queue().len(), 2);
    assert_eq!(s.queue_mut().pop(), Some(a));
    assert_eq!(s.queue_mut().pop(), Some(b));
    assert_eq!(s.queue_mut().pop(), None);
    let mut q = TaskQueue::new();
    assert_eq!(q.len(), 0);
    q.push(b);
    assert!(!q.is_empty());
}
