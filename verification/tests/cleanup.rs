use boundless_agent::cleanup::{CleanupEvent, CleanupStep, RunningTask};
use boundless_agent::config::StockOrderStreams;
use boundless_agent::error::AgentError;
use boundless_agent::prover::{BoundlessProver, ProverConfig};
use serde_json::Value;

const INTERVAL: CleanupStep = CleanupStep::Wait { secs: 3 * 3600 };

fn prover(ids: &[&str]) -> BoundlessProver {
    let stock = StockOrderStreams { sepolia: None, base: None };
    let mut prover = BoundlessProver::new(ProverConfig::default(), &stock).unwrap();
    for id in ids {
        prover.batch_run(id.to_string(), vec![], vec![], &Value::Null, Ok(None)).unwrap();
    }
    prover
}

#[test]
fn cleanups_come_every_three_hours() {
    let mut prover = prover(&["a", "b", "c"]);
    assert_eq!(prover.next_cleanup_step(&CleanupEvent::Started), INTERVAL);
    assert_eq!(prover.next_cleanup_step(&CleanupEvent::Waited), CleanupStep::DeleteExpired);
    assert!(prover.cached("a").is_some());

    // A failure changes nothing, and the next cleanup comes as if there had been none.
    let failed = CleanupEvent::Deleted(Err(AgentError::StorageProviderRequired));
    assert_eq!(prover.next_cleanup_step(&failed), INTERVAL);
    assert!(prover.cached("a").is_some());
    assert_eq!(prover.next_cleanup_step(&CleanupEvent::Waited), CleanupStep::DeleteExpired);

    prover.record_poll_error("a");
    let deleted = CleanupEvent::Deleted(Ok(vec!["a".to_string(), "x".to_string()]));
    assert_eq!(prover.next_cleanup_step(&deleted), INTERVAL);
    assert!(prover.cached("a").is_none());
    assert!(prover.cached("b").is_some());
    assert_eq!(prover.poll_error_count("a"), 1);

    assert_eq!(prover.next_cleanup_step(&CleanupEvent::Waited), CleanupStep::DeleteExpired);
    let deleted = CleanupEvent::Deleted(Ok(vec!["c".to_string()]));
    assert_eq!(prover.next_cleanup_step(&deleted), INTERVAL);
    assert!(prover.cached("b").is_some());
    assert!(prover.cached("c").is_none());
}

#[test]
fn only_the_last_task_is_kept() {
    let mut running: RunningTask<u32> = RunningTask::none();
    assert_eq!(running.take_over(1), None);
    assert_eq!(running.take_over(2), Some(1));
    assert_eq!(running.take_over(3), Some(2));
}
