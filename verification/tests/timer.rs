use raft::timeout::{ResetSignal, TimerPoll, Timeout, ELECTION_MAX_MS, ELECTION_MIN_MS, HEARTBEAT_MS};

#[test]
fn new_timer_draws_election_timeout() {
    for _ in 0..200 {
        let t = Timeout::new();
        assert!(!t.is_leader);
        assert!(t.duration_ms >= ELECTION_MIN_MS && t.duration_ms <= ELECTION_MAX_MS);
    }
}

#[test]
fn leader_timer_uses_heartbeat() {
    let mut t = Timeout::new();
    t.is_leader = true;
    t.reset();
    assert_eq!(t.duration_ms, HEARTBEAT_MS);
    assert_eq!(HEARTBEAT_MS, 100);
    t.is_leader = false;
    t.reset();
    assert!((150..=250).contains(&t.duration_ms));
}

#[test]
fn poll_step_outcomes() {
    let mut t = Timeout { is_leader: true, duration_ms: 7 };
    assert_eq!(t.poll_step(true, ResetSignal::Received), TimerPoll::Elapsed);
    assert_eq!(t.duration_ms, 7);
    assert_eq!(t.poll_step(false, ResetSignal::Empty), TimerPoll::Pending);
    assert_eq!(t.duration_ms, 7);
    assert_eq!(t.poll_step(false, ResetSignal::Closed), TimerPoll::Elapsed);
    assert_eq!(t.duration_ms, 7);
    assert_eq!(t.poll_step(false, ResetSignal::Received), TimerPoll::Rearmed);
    assert_eq!(t.duration_ms, 100);
}
