use std::sync::Arc;

use contact_archiver::archiver::{should_yield, YIELD_EVERY};
use contact_archiver::error::shared;
use contact_archiver::{Action, ArchiverState, ArchiverStatus, Command, Error, Event};

fn start() -> Event {
    Event::Command(Command::Start)
}

fn reset() -> Event {
    Event::Command(Command::Reset)
}

fn get_status() -> Event {
    Event::Command(Command::GetStatus)
}

fn status_of(state: ArchiverState) -> (ArchiverState, ArchiverStatus) {
    match state.step(get_status()) {
        (next, Action::Reply(status)) => (next, status),
        _ => panic!("a status query must be answered"),
    }
}

/// Runs `start` and reports `total` as the counted total.
fn started(state: ArchiverState, total: u64) -> ArchiverState {
    let (state, action) = state.step(start());
    assert!(matches!(action, Action::BeginExport));
    let _ = state;
    ArchiverState::begun(Ok(total))
}

fn deliver_records(mut state: ArchiverState, n: u64) -> ArchiverState {
    for _ in 0..n {
        let (next, action) = state.step(Event::Record);
        assert!(matches!(action, Action::Write));
        state = next;
    }
    state
}

fn is_running(status: &ArchiverStatus, processed: u64, total: u64) -> bool {
    matches!(status, ArchiverStatus::Running { processed: p, total: t } if *p == processed && *t == total)
}

#[test]
fn new_state_is_waiting() {
    let (_, status) = status_of(ArchiverState::new());
    assert!(matches!(status, ArchiverStatus::Waiting));
}

#[test]
fn start_from_waiting_begins_export() {
    let (state, action) = ArchiverState::new().step(start());
    assert!(matches!(action, Action::BeginExport));
    assert!(matches!(state, ArchiverState::Waiting));
    let state = ArchiverState::begun(Ok(10));
    let (_, status) = status_of(state);
    assert!(is_running(&status, 0, 10));
}

#[test]
fn failed_begin_completes_with_error() {
    let state = ArchiverState::begun(Err(shared(Error::Database("no table".to_string()))));
    let (_, status) = status_of(state);
    match status {
        ArchiverStatus::Complete(Err(e)) => assert!(matches!(&*e, Error::Database(m) if m == "no table")),
        _ => panic!("expected a failed completion"),
    }
}

#[test]
fn reset_while_waiting_stays_waiting() {
    let (state, action) = ArchiverState::new().step(reset());
    assert!(matches!(state, ArchiverState::Waiting));
    assert!(matches!(action, Action::Nothing));
}

#[test]
fn second_start_while_running_is_no_op() {
    let state = started(ArchiverState::new(), 3);
    let state = deliver_records(state, 1);
    let (state, action) = state.step(start());
    assert!(matches!(action, Action::Nothing));
    let (state, action) = state.step(start());
    assert!(matches!(action, Action::Nothing));
    let (_, status) = status_of(state);
    assert!(is_running(&status, 1, 3));
}

#[test]
fn progress_never_goes_down_while_running() {
    let mut state = started(ArchiverState::new(), 50);
    let mut last = 0u64;
    for i in 0..50u64 {
        let (next, status) = status_of(state);
        let (next2, status2) = status_of(next);
        let p1 = match status {
            ArchiverStatus::Running { processed, .. } => processed,
            _ => panic!("should be running"),
        };
        let p2 = match status2 {
            ArchiverStatus::Running { processed, .. } => processed,
            _ => panic!("should be running"),
        };
        assert!(p1 >= last && p2 >= p1);
        assert_eq!(p1, i);
        last = p2;
        let (next3, _) = next2.step(start());
        state = deliver_records(next3, 1);
    }
}

#[test]
fn reset_while_running_reports_waiting() {
    let state = started(ArchiverState::new(), 1000);
    let state = deliver_records(state, 17);
    let (state, action) = state.step(reset());
    assert!(matches!(action, Action::Abandon));
    let (_, status) = status_of(state);
    assert!(matches!(status, ArchiverStatus::Waiting));
}

#[test]
fn reset_at_half_way_then_restart_counts_from_zero() {
    let state = started(ArchiverState::new(), 1000);
    let state = deliver_records(state, 500);
    let (state, status) = status_of(state);
    assert!(is_running(&status, 500, 1000));
    let (state, action) = state.step(reset());
    assert!(matches!(action, Action::Abandon));
    let (state, status) = status_of(state);
    assert!(matches!(status, ArchiverStatus::Waiting));
    let state = started(state, 998);
    let (_, status) = status_of(state);
    assert!(is_running(&status, 0, 998));
}

#[test]
fn empty_source_completes_ok() {
    let state = started(ArchiverState::new(), 0);
    let (state, action) = state.step(Event::Exhausted);
    assert!(matches!(action, Action::FinishWriter));
    let _ = state;
    let state = ArchiverState::finished(Ok(()));
    let (_, status) = status_of(state);
    assert!(matches!(status, ArchiverStatus::Complete(Ok(()))));
}

#[test]
fn source_error_on_fifth_of_ten_records() {
    let state = started(ArchiverState::new(), 10);
    let state = deliver_records(state, 4);
    let (state, action) = state.step(Event::SourceFailed(shared(Error::Database("lost".to_string()))));
    assert!(matches!(action, Action::CloseWriter));
    let (state, status) = status_of(state);
    assert!(matches!(status, ArchiverStatus::Complete(Err(_))));
    // Records after the failure are not taken.
    let (state, action) = state.step(Event::Record);
    assert!(matches!(action, Action::Nothing));
    let (_, status) = status_of(state);
    assert!(matches!(status, ArchiverStatus::Complete(Err(_))));
}

#[test]
fn flush_error_is_carried_into_complete() {
    let state = ArchiverState::finished(Err(shared(Error::Io("disk full".to_string()))));
    let (state, status) = status_of(state);
    match status {
        ArchiverStatus::Complete(Err(e)) => assert!(matches!(&*e, Error::Io(m) if m == "disk full")),
        _ => panic!("expected a failed completion"),
    }
    // Several readers see the same error.
    let (_, again) = status_of(state);
    match again {
        ArchiverStatus::Complete(Err(e)) => assert!(Arc::strong_count(&e) >= 1),
        _ => panic!("expected a failed completion"),
    }
}

#[test]
fn complete_then_start_runs_again() {
    let state = ArchiverState::finished(Ok(()));
    let (state, action) = state.step(start());
    assert!(matches!(action, Action::BeginExport));
    let (_, status) = status_of(state);
    assert!(matches!(status, ArchiverStatus::Complete(Ok(()))));
    let (_, status) = status_of(ArchiverState::begun(Ok(5)));
    assert!(is_running(&status, 0, 5));
}

#[test]
fn complete_then_reset_discards_outcome() {
    let state = ArchiverState::finished(Err(shared(Error::Io("x".to_string()))));
    let (state, action) = state.step(reset());
    assert!(matches!(action, Action::Nothing));
    let (_, status) = status_of(state);
    assert!(matches!(status, ArchiverStatus::Waiting));
}

#[test]
fn stream_events_without_export_do_nothing() {
    let (state, action) = ArchiverState::new().step(Event::Record);
    assert!(matches!(action, Action::Nothing));
    let (state, action) = state.step(Event::Exhausted);
    assert!(matches!(action, Action::Nothing));
    let (state, action) = state.step(Event::SourceFailed(shared(Error::CommandSendFailed)));
    assert!(matches!(action, Action::Nothing));
    assert!(matches!(state, ArchiverState::Waiting));
}

#[test]
fn random_interleaving_matches_table() {
    // A small deterministic generator drives a mix of commands and stream events.
    let mut seed: u64 = 0x2545_f491_4f6c_dd1d;
    let mut state = ArchiverState::new();
    // Reference model: None = waiting, Some(Ok((p, t))) running, Some(Err(ok)) complete.
    let mut model: Option<Result<(u64, u64), bool>> = None;
    for _ in 0..2000 {
        seed ^= seed << 13;
        seed ^= seed >> 7;
        seed ^= seed << 17;
        let pick = seed % 7;
        let event = match pick {
            0 => start(),
            1 => reset(),
            2 => get_status(),
            3 | 4 => Event::Record,
            5 => Event::SourceFailed(shared(Error::Database("e".to_string()))),
            _ => Event::Exhausted,
        };
        let (next, action) = state.step(event);
        state = match (&model, pick, action) {
            (Some(Ok(_)), 0, Action::Nothing) => next,
            (_, 0, Action::BeginExport) => {
                assert!(!matches!(model, Some(Ok(_))));
                let total = seed % 13;
                model = Some(Ok((0, total)));
                ArchiverState::begun(Ok(total))
            }
            (Some(Ok(_)), 1, Action::Abandon) | (_, 1, Action::Nothing) => {
                model = None;
                next
            }
            (_, 2, Action::Reply(status)) => {
                match (&model, &status) {
                    (None, ArchiverStatus::Waiting) => {}
                    (Some(Ok((p, t))), s) => assert!(is_running(s, *p, *t)),
                    (Some(Err(true)), ArchiverStatus::Complete(Ok(()))) => {}
                    (Some(Err(false)), ArchiverStatus::Complete(Err(_))) => {}
                    _ => panic!("status does not match the model"),
                }
                next
            }
            (Some(Ok((p, t))), 3 | 4, Action::Write) => {
                model = Some(Ok((p + 1, *t)));
                next
            }
            (Some(Ok(_)), 5, Action::CloseWriter) => {
                model = Some(Err(false));
                next
            }
            (Some(Ok(_)), 6, Action::FinishWriter) => {
                model = Some(Err(true));
                ArchiverState::finished(Ok(()))
            }
            (Some(Ok(_)), _, _) => panic!("unexpected action while running"),
            (_, 3..=6, Action::Nothing) => next,
            _ => panic!("unexpected action"),
        };
    }
}

#[test]
fn yields_every_few_hundred_records() {
    assert_eq!(YIELD_EVERY, 256);
    assert!(should_yield(256));
    assert!(should_yield(512));
    assert!(!should_yield(255));
    assert!(!should_yield(257));
}

#[test]
fn record_step_at_largest_count_is_guarded() {
    let state = ArchiverState::begun(Ok(u64::MAX));
    assert!(state.can_take_record());
    let done = ArchiverState::finished(Ok(()));
    assert!(done.can_take_record());
}
