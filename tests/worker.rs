use sshchic::worker::{Worker, WorkerAction, WorkerEvent, WorkerPhase};

#[test]
fn cleared_flag_stops_worker() {
    let mut w = Worker::new(false);
    assert_eq!(w.step(WorkerEvent::FlagRead { running: false }), WorkerAction::Stop);
    assert!(w.is_finished());
}

#[test]
fn no_match_goes_back_to_flag() {
    let mut w = Worker::new(false);
    assert_eq!(w.step(WorkerEvent::FlagRead { running: true }), WorkerAction::Attempt);
    assert_eq!(w.step(WorkerEvent::Tested { matched: false }), WorkerAction::CheckFlag);
    assert_eq!(w.phase, WorkerPhase::AtLoopEntry);
}

#[test]
fn match_claims_then_persists_on_win() {
    let mut w = Worker::new(false);
    w.step(WorkerEvent::FlagRead { running: true });
    assert_eq!(w.step(WorkerEvent::Tested { matched: true }), WorkerAction::ReportAndClaim);
    assert_eq!(w.step(WorkerEvent::ClaimResult { won: true }), WorkerAction::PersistAndStop);
    assert!(w.is_finished());
    assert_eq!(w.step(WorkerEvent::FlagRead { running: true }), WorkerAction::Stop);
}

#[test]
fn lost_claim_stops_without_saving() {
    let mut w = Worker::new(false);
    w.step(WorkerEvent::FlagRead { running: true });
    w.step(WorkerEvent::Tested { matched: true });
    assert_eq!(w.step(WorkerEvent::ClaimResult { won: false }), WorkerAction::Stop);
    assert!(w.is_finished());
}

#[test]
fn streaming_reports_and_continues() {
    let mut w = Worker::new(true);
    for _ in 0..3 {
        assert_eq!(w.step(WorkerEvent::FlagRead { running: true }), WorkerAction::Attempt);
        assert_eq!(w.step(WorkerEvent::Tested { matched: true }), WorkerAction::ReportAndContinue);
    }
    assert_eq!(w.step(WorkerEvent::FlagRead { running: false }), WorkerAction::Stop);
}

#[test]
fn event_out_of_place_ends_worker() {
    let mut w = Worker::new(false);
    assert_eq!(w.step(WorkerEvent::Tested { matched: true }), WorkerAction::Stop);
    assert!(w.is_finished());
}
