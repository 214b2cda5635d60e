//! Repeated attempts to reach a server.
use slipstream::reconnect::{Reconnect, ReconnectStep};

#[test]
fn three_attempts_are_made() {
    let mut attempts = Reconnect::new();
    assert_eq!(
        attempts.attempt_failed("first".to_string()),
        ReconnectStep::TryAgain { pause_millis: 500 }
    );
    assert_eq!(
        attempts.attempt_failed("second".to_string()),
        ReconnectStep::TryAgain { pause_millis: 1000 }
    );
    assert_eq!(
        attempts.attempt_failed("third".to_string()),
        ReconnectStep::GiveUp {
            error: "third".to_string()
        }
    );
}
