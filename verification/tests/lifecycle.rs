use cdn::database::FileDocument;
use cdn::lifecycle::Phase;
use cdn::lifecycle::Reaper;
use cdn::lifecycle::ReaperAction;
use cdn::lifecycle::ReaperEvent;
use cdn::lifecycle::CLEANUP_PERIOD_SECONDS;

fn file(id: &str) -> FileDocument {
    FileDocument::new_at(
        id.to_string(),
        None,
        "text/plain".to_string(),
        1,
        "u".to_string(),
        "k".repeat(32),
        0,
    )
}

fn object(id: &str) -> ReaperAction {
    ReaperAction::DeleteObject(id.to_string())
}

fn record(id: &str) -> ReaperAction {
    ReaperAction::DeleteRecord(id.to_string())
}

const SLEEP: ReaperAction = ReaperAction::Sleep(1800);

#[test]
fn task_begins_with_a_sleep_of_half_an_hour() {
    let reaper = Reaper::new();
    assert_eq!(CLEANUP_PERIOD_SECONDS, 30 * 60);
    assert_eq!(reaper.phase(), Phase::Idle);
    assert_eq!(reaper.pending(), SLEEP);
}

#[test]
fn timer_starts_a_scan() {
    let (reaper, action) = Reaper::new().step(ReaperEvent::TimerFired);
    assert_eq!(action, ReaperAction::FindExpired);
    assert_eq!(reaper.phase(), Phase::Scanning);
}

#[test]
fn failed_scan_ends_the_run_and_the_next_starts_all_the_same() {
    let (reaper, _) = Reaper::new().step(ReaperEvent::TimerFired);
    let (reaper, action) = reaper.step(ReaperEvent::ScanFailed);
    assert_eq!(action, SLEEP);
    assert_eq!(reaper.phase(), Phase::Idle);
    let (reaper, action) = reaper.step(ReaperEvent::TimerFired);
    assert_eq!(action, ReaperAction::FindExpired);
    assert_eq!(reaper.phase(), Phase::Scanning);
}

#[test]
fn empty_scan_ends_the_run() {
    let (reaper, _) = Reaper::new().step(ReaperEvent::TimerFired);
    let (reaper, action) = reaper.step(ReaperEvent::ScanCompleted(vec![]));
    assert_eq!(action, SLEEP);
    assert_eq!(reaper.phase(), Phase::Idle);
}

#[test]
fn object_goes_before_record() {
    let (reaper, _) = Reaper::new().step(ReaperEvent::TimerFired);
    let (reaper, action) = reaper.step(ReaperEvent::ScanCompleted(vec![file("a"), file("b")]));
    assert_eq!(action, object("a"));
    assert_eq!(reaper.phase(), Phase::DeletingObject);
    let (reaper, action) = reaper.step(ReaperEvent::ObjectDeleted);
    assert_eq!(action, record("a"));
    assert_eq!(reaper.phase(), Phase::DeletingRecord);
    let (reaper, action) = reaper.step(ReaperEvent::RecordDeleted);
    assert_eq!(action, object("b"));
    let (reaper, action) = reaper.step(ReaperEvent::ObjectDeleted);
    assert_eq!(action, record("b"));
    let (reaper, action) = reaper.step(ReaperEvent::RecordDeleted);
    assert_eq!(action, SLEEP);
    assert_eq!(reaper.phase(), Phase::Idle);
}

#[test]
fn failed_object_keeps_its_record_and_the_run_goes_on() {
    let (reaper, _) = Reaper::new().step(ReaperEvent::TimerFired);
    let (reaper, _) = reaper.step(ReaperEvent::ScanCompleted(vec![file("a"), file("b"), file("c")]));
    let (reaper, action) = reaper.step(ReaperEvent::ObjectDeleteFailed);
    assert_eq!(action, object("b"));
    let (reaper, action) = reaper.step(ReaperEvent::ObjectDeleted);
    assert_eq!(action, record("b"));
    let (reaper, action) = reaper.step(ReaperEvent::RecordDeleteFailed);
    assert_eq!(action, object("c"));
    let (reaper, action) = reaper.step(ReaperEvent::ObjectDeleteFailed);
    assert_eq!(action, SLEEP);
    assert_eq!(reaper.phase(), Phase::Idle);
}

#[test]
fn event_that_nothing_waits_for_changes_nothing() {
    let (reaper, action) = Reaper::new().step(ReaperEvent::ObjectDeleted);
    assert_eq!(action, SLEEP);
    assert_eq!(reaper.phase(), Phase::Idle);
    let (reaper, action) = reaper.step(ReaperEvent::ScanCompleted(vec![file("x")]));
    assert_eq!(action, SLEEP);
    let (reaper, _) = reaper.step(ReaperEvent::TimerFired);
    let (reaper, action) = reaper.step(ReaperEvent::RecordDeleted);
    assert_eq!(action, ReaperAction::FindExpired);
    assert_eq!(reaper.phase(), Phase::Scanning);
    let (reaper, _) = reaper.step(ReaperEvent::ScanCompleted(vec![file("a")]));
    let (reaper, action) = reaper.step(ReaperEvent::RecordDeleted);
    assert_eq!(action, object("a"));
    assert_eq!(reaper.phase(), Phase::DeletingObject);
    let (reaper, action) = reaper.step(ReaperEvent::TimerFired);
    assert_eq!(action, object("a"));
    let (reaper, _) = reaper.step(ReaperEvent::ObjectDeleted);
    let (reaper, action) = reaper.step(ReaperEvent::ObjectDeleted);
    assert_eq!(action, record("a"));
    assert_eq!(reaper.phase(), Phase::DeletingRecord);
    assert_eq!(reaper.pending(), record("a"));
}

#[test]
fn reaping_the_same_id_twice_raises_no_error() {
    let (reaper, _) = Reaper::new().step(ReaperEvent::TimerFired);
    let (reaper, action) = reaper.step(ReaperEvent::ScanCompleted(vec![file("gone"), file("gone")]));
    assert_eq!(action, object("gone"));
    let (reaper, action) = reaper.step(ReaperEvent::ObjectDeleted);
    assert_eq!(action, record("gone"));
    let (reaper, action) = reaper.step(ReaperEvent::RecordDeleted);
    assert_eq!(action, object("gone"));
    let (reaper, action) = reaper.step(ReaperEvent::ObjectDeleted);
    assert_eq!(action, record("gone"));
    let (reaper, action) = reaper.step(ReaperEvent::RecordDeleted);
    assert_eq!(action, SLEEP);
    assert_eq!(reaper.phase(), Phase::Idle);
}

#[test]
fn ids_are_collected_in_order() {
    let ids = cdn::lifecycle::collect_ids(&vec![file("x"), file("y"), file("x")]);
    assert_eq!(ids, vec!["x", "y", "x"]);
    assert!(cdn::lifecycle::collect_ids(&vec![]).is_empty());
}

#[test]
fn task_at_rest_stops_at_once() {
    let (reaper, action) = Reaper::new().step(ReaperEvent::StopRequested);
    assert_eq!(action, ReaperAction::Stop);
    assert_eq!(reaper.phase(), Phase::Stopped);
    assert_eq!(reaper.pending(), ReaperAction::Stop);
}

#[test]
fn stop_in_the_middle_of_a_run_waits_for_its_end() {
    let (reaper, _) = Reaper::new().step(ReaperEvent::TimerFired);
    let (reaper, _) = reaper.step(ReaperEvent::ScanCompleted(vec![file("a"), file("b")]));
    let (reaper, action) = reaper.step(ReaperEvent::StopRequested);
    assert_eq!(action, object("a"));
    assert_eq!(reaper.phase(), Phase::DeletingObject);
    let (reaper, action) = reaper.step(ReaperEvent::ObjectDeleted);
    assert_eq!(action, record("a"));
    let (reaper, action) = reaper.step(ReaperEvent::StopRequested);
    assert_eq!(action, record("a"));
    let (reaper, action) = reaper.step(ReaperEvent::RecordDeleted);
    assert_eq!(action, object("b"));
    let (reaper, action) = reaper.step(ReaperEvent::ObjectDeleteFailed);
    assert_eq!(action, ReaperAction::Stop);
    assert_eq!(reaper.phase(), Phase::Stopped);
}

#[test]
fn stop_during_a_scan_waits_for_the_files_it_lists() {
    let (reaper, _) = Reaper::new().step(ReaperEvent::TimerFired);
    let (reaper, action) = reaper.step(ReaperEvent::StopRequested);
    assert_eq!(action, ReaperAction::FindExpired);
    assert_eq!(reaper.phase(), Phase::Scanning);
    let (reaper, action) = reaper.step(ReaperEvent::ScanCompleted(vec![file("a")]));
    assert_eq!(action, object("a"));
    let (reaper, _) = reaper.step(ReaperEvent::ObjectDeleted);
    let (reaper, action) = reaper.step(ReaperEvent::RecordDeleted);
    assert_eq!(action, ReaperAction::Stop);
    assert_eq!(reaper.phase(), Phase::Stopped);

    let (reaper, _) = Reaper::new().step(ReaperEvent::TimerFired);
    let (reaper, _) = reaper.step(ReaperEvent::StopRequested);
    let (reaper, action) = reaper.step(ReaperEvent::ScanFailed);
    assert_eq!(action, ReaperAction::Stop);
    assert_eq!(reaper.phase(), Phase::Stopped);

    let (reaper, _) = Reaper::new().step(ReaperEvent::TimerFired);
    let (reaper, _) = reaper.step(ReaperEvent::StopRequested);
    let (_, action) = reaper.step(ReaperEvent::ScanCompleted(vec![]));
    assert_eq!(action, ReaperAction::Stop);
}

#[test]
fn stopped_task_stays_stopped() {
    let (reaper, _) = Reaper::new().step(ReaperEvent::StopRequested);
    let (reaper, action) = reaper.step(ReaperEvent::TimerFired);
    assert_eq!(action, ReaperAction::Stop);
    let (reaper, action) = reaper.step(ReaperEvent::ScanCompleted(vec![file("a")]));
    assert_eq!(action, ReaperAction::Stop);
    let (reaper, action) = reaper.step(ReaperEvent::StopRequested);
    assert_eq!(action, ReaperAction::Stop);
    assert_eq!(reaper.phase(), Phase::Stopped);
}
