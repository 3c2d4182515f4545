use sshchic::monitor::{Monitor, Phase, Progress};
use sshchic::rate::{RATE_UNIT, WEIGHT_SCALE};

#[test]
fn lifecycle_runs_through_all_phases() {
    let mut m = Monitor::new();
    assert_eq!(m.phase, Phase::Idle);
    m.start();
    assert!(m.is_running());
    m.tick(10, 0, false);
    assert_eq!(m.phase, Phase::ShuttingDown);
    m.joined();
    assert_eq!(m.phase, Phase::Joined);
    m.terminate();
    assert_eq!(m.phase, Phase::Terminated);
}

#[test]
fn first_tick_seeds_with_raw_count() {
    let mut m = Monitor::new();
    m.start();
    let p = m.tick(400, WEIGHT_SCALE / 2, true);
    assert_eq!(p, Progress { processed: 400, avg_rate: 400 * RATE_UNIT });
    // delta 400 against seed 400
    assert_eq!(m.avg_rate, 400 * RATE_UNIT);
    assert_eq!(m.old_counter, 400);
}

#[test]
fn later_ticks_smooth_the_delta() {
    let mut m = Monitor::new();
    m.start();
    m.tick(400, WEIGHT_SCALE / 2, true);
    let p = m.tick(1000, WEIGHT_SCALE / 2, true);
    assert_eq!(p, Progress { processed: 1000, avg_rate: 400 * RATE_UNIT });
    // delta 600 blended half and half with 400
    assert_eq!(m.avg_rate, 500 * RATE_UNIT);
    let p = m.tick(1000, 0, true);
    assert_eq!(p.avg_rate, 500 * RATE_UNIT);
    assert_eq!(m.avg_rate, 500 * RATE_UNIT);
}

#[test]
fn zero_counter_keeps_seeding() {
    let mut m = Monitor::new();
    m.start();
    let p = m.tick(0, WEIGHT_SCALE, true);
    assert_eq!(p.avg_rate, 0);
    assert_eq!(m.phase, Phase::Running);
}
