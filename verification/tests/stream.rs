use floopfloop::projects::stream_event_key;
use floopfloop::stream::{StreamAction, StreamInput, StreamMachine};
use floopfloop::{FloopError, FloopErrorCode, StreamOptions};
use std::time::Duration;

fn opts(interval_secs: u64, max_wait_secs: u64) -> StreamOptions {
    StreamOptions {
        interval: Duration::from_secs(interval_secs),
        max_wait: Duration::from_secs(max_wait_secs),
    }
}

fn snapshot(status: &str, step: i64, message: &str) -> StreamInput {
    StreamInput::Status {
        key: stream_event_key(status, step, "", None),
        status: status.to_string(),
        message: message.to_string(),
    }
}

fn clock(secs: u64) -> StreamInput {
    StreamInput::Clock(Duration::from_secs(secs))
}

#[test]
fn stream_reports_changed_snapshots_only() {
    let mut m = StreamMachine::new("p_1", opts(2, 600));
    assert!(matches!(m.step(clock(600)), StreamAction::Poll));
    assert!(matches!(m.step(snapshot("queued", 1, "")), StreamAction::Report));
    assert!(matches!(m.step(StreamInput::Reported), StreamAction::ReadClock));
    match m.step(clock(500)) {
        StreamAction::Sleep(d) => assert_eq!(d, Duration::from_secs(2)),
        other => panic!("expected a sleep, got {other:?}"),
    }
    assert!(matches!(m.step(clock(498)), StreamAction::Poll));
    // The same snapshot again: no report, straight on to the pause.
    assert!(matches!(m.step(snapshot("queued", 1, "")), StreamAction::ReadClock));
    match m.step(clock(1)) {
        StreamAction::Sleep(d) => assert_eq!(d, Duration::from_secs(1)),
        other => panic!("expected a sleep, got {other:?}"),
    }
    assert!(matches!(m.step(clock(1)), StreamAction::Poll));
    // A changed snapshot that is terminal: reported, then finished.
    assert!(matches!(m.step(snapshot("live", 3, "")), StreamAction::Report));
    assert!(matches!(m.step(StreamInput::Reported), StreamAction::Finish(Ok(()))));
    assert!(matches!(m.step(clock(10)), StreamAction::Idle));
}

#[test]
fn stream_unchanged_terminal_snapshot_finishes_without_report() {
    let mut m = StreamMachine::new("p_1", opts(2, 600));
    assert!(matches!(m.step(clock(10)), StreamAction::Poll));
    assert!(matches!(m.step(snapshot("failed", 4, "boom")), StreamAction::Report));
    match m.step(StreamInput::Reported) {
        StreamAction::Finish(Err(e)) => {
            assert_eq!(e.code, FloopErrorCode::BuildFailed);
            assert_eq!(e.message, "boom");
        }
        other => panic!("expected a failure, got {other:?}"),
    }

    let mut m = StreamMachine::new("p_2", opts(2, 600));
    assert!(matches!(m.step(clock(10)), StreamAction::Poll));
    assert!(matches!(m.step(snapshot("generating", 2, "")), StreamAction::Report));
    assert!(matches!(m.step(StreamInput::Reported), StreamAction::ReadClock));
    assert!(matches!(m.step(clock(0)), StreamAction::ReadClock));
    assert!(matches!(m.step(clock(5)), StreamAction::Poll));
    let key = stream_event_key("generating", 2, "", None);
    let same_key_cancelled = StreamInput::Status {
        key,
        status: "cancelled".to_string(),
        message: String::new(),
    };
    match m.step(same_key_cancelled) {
        StreamAction::Finish(Err(e)) => {
            assert_eq!(e.code, FloopErrorCode::BuildCancelled);
            assert_eq!(e.message, "build cancelled");
        }
        other => panic!("expected a cancellation, got {other:?}"),
    }
}

#[test]
fn stream_times_out_when_no_time_is_left() {
    let mut m = StreamMachine::new("p_9", opts(2, 5));
    match m.step(clock(0)) {
        StreamAction::Finish(Err(e)) => {
            assert_eq!(e.code, FloopErrorCode::Timeout);
            assert_eq!(e.status, 0);
            assert_eq!(
                e.message,
                "stream: project p_9 did not reach a terminal state within 5s"
            );
        }
        other => panic!("expected a timeout, got {other:?}"),
    }
    assert!(matches!(m.step(clock(5)), StreamAction::Idle));
    assert!(matches!(m.step(StreamInput::Reported), StreamAction::Idle));
}

#[test]
fn stream_ignores_inputs_it_did_not_ask_for() {
    let mut m = StreamMachine::new("p_1", opts(2, 600));
    assert!(matches!(m.step(StreamInput::Reported), StreamAction::Idle));
    assert!(matches!(m.step(snapshot("queued", 1, "")), StreamAction::Idle));
    assert!(matches!(m.step(clock(3)), StreamAction::Poll));
    assert!(matches!(m.step(clock(3)), StreamAction::Idle));
    assert!(matches!(m.step(snapshot("queued", 1, "")), StreamAction::Report));
}

#[test]
fn stream_zero_interval_polls_again_at_once() {
    let mut m = StreamMachine::new("p_1", opts(0, 600));
    assert!(matches!(m.step(clock(600)), StreamAction::Poll));
    assert!(matches!(m.step(snapshot("queued", 1, "")), StreamAction::Report));
    assert!(matches!(m.step(StreamInput::Reported), StreamAction::ReadClock));
    assert!(matches!(m.step(clock(600)), StreamAction::ReadClock));
    assert!(matches!(m.step(clock(600)), StreamAction::Poll));
}

#[test]
fn stream_failed_poll_ends_with_its_error() {
    let mut m = StreamMachine::new("p_1", opts(2, 600));
    assert!(matches!(m.step(clock(10)), StreamAction::Poll));
    let err = FloopError::new(FloopErrorCode::ServiceUnavailable, 503, "down".to_string());
    match m.step(StreamInput::PollFailed(err)) {
        StreamAction::Finish(Err(e)) => {
            assert_eq!(e.code, FloopErrorCode::ServiceUnavailable);
            assert_eq!(e.status, 503);
            assert_eq!(e.message, "down");
        }
        other => panic!("expected the poll error, got {other:?}"),
    }
    assert!(matches!(m.step(clock(10)), StreamAction::Idle));
}

#[test]
fn stream_refusing_handler_ends_with_its_error() {
    let mut m = StreamMachine::new("p_1", opts(2, 600));
    assert!(matches!(m.step(clock(10)), StreamAction::Poll));
    assert!(matches!(m.step(snapshot("queued", 1, "")), StreamAction::Report));
    let err = FloopError::new(FloopErrorCode::Unknown, 0, "stop".to_string());
    match m.step(StreamInput::HandlerFailed(err)) {
        StreamAction::Finish(Err(e)) => {
            assert_eq!(e.code, FloopErrorCode::Unknown);
            assert_eq!(e.message, "stop");
        }
        other => panic!("expected the handler error, got {other:?}"),
    }
    assert!(matches!(m.step(StreamInput::Reported), StreamAction::Idle));
    // A failure that was not asked for changes nothing.
    let mut m = StreamMachine::new("p_2", opts(2, 600));
    let err = FloopError::new(FloopErrorCode::Unknown, 0, "early".to_string());
    assert!(matches!(m.step(StreamInput::HandlerFailed(err)), StreamAction::Idle));
    assert!(matches!(m.step(clock(10)), StreamAction::Poll));
}
