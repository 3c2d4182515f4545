use sshchic::shared::SharedState;

#[test]
fn fresh_state_runs_with_zero_count() {
    let s = SharedState::new();
    assert!(s.is_running());
    assert_eq!(s.total_generated(), 0);
}

#[test]
fn counter_counts_each_attempt() {
    let s = SharedState::new();
    for _ in 0..1000 {
        s.record_attempt();
    }
    assert_eq!(s.total_generated(), 1000);
}

#[test]
fn only_first_claim_wins() {
    let s = SharedState::new();
    assert!(s.try_claim());
    assert!(!s.is_running());
    assert!(!s.try_claim());
    assert!(!s.try_claim());
    assert!(!s.is_running());
}

#[test]
fn interrupt_leaves_no_winner() {
    let s = SharedState::new();
    s.record_attempt();
    s.stop();
    assert!(!s.is_running());
    assert!(!s.try_claim());
    assert_eq!(s.total_generated(), 1);
}
