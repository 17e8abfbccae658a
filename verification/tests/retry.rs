use boundless_agent::error::AgentError;
use boundless_agent::retry::{Backoff, RetryStep};

fn delays(max_attempts: u32) -> (Vec<u64>, String) {
    let mut backoff = Backoff::start();
    let mut waits = Vec::new();
    loop {
        let error = AgentError::PollingError("down".to_string());
        match backoff.after_failure("op", max_attempts, &error) {
            RetryStep::Retry { delay_ms } => waits.push(delay_ms),
            RetryStep::GiveUp(error) => return (waits, error.message()),
        }
    }
}

#[test]
fn waits_double_up_to_ten_seconds() {
    let (waits, message) = delays(8);
    assert_eq!(waits, vec![500, 1000, 2000, 4000, 8000, 10000, 10000]);
    assert_eq!(
        message,
        "Retry error: op failed after 8 attempts: Transient polling error: down"
    );
}

#[test]
fn one_attempt_is_always_made() {
    let (waits, message) = delays(0);
    assert!(waits.is_empty());
    assert_eq!(
        message,
        "Retry error: op failed after 1 attempts: Transient polling error: down"
    );
    assert!(delays(1).0.is_empty());
    assert_eq!(delays(3).0.len(), 2);
}
