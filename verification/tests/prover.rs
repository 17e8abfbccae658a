use boundless_agent::config::StockOrderStreams;
use boundless_agent::error::{AgentError, AgentResult};
use boundless_agent::prover::{
    database_path, image_name, images_to_refresh, BoundlessProver, ProverConfig, RunPlan,
};
use boundless_agent::types::{AsyncProofRequest, ProofRequestStatus, ProofType};
use boundless_agent::u256::U256;
use serde_json::Value;

fn stock() -> StockOrderStreams {
    StockOrderStreams { sepolia: None, base: None }
}

fn prover() -> BoundlessProver {
    BoundlessProver::new(ProverConfig::default(), &stock()).unwrap()
}

fn market_id() -> U256 {
    U256::from_u64(77)
}

fn submitted() -> ProofRequestStatus {
    ProofRequestStatus::Submitted { market_request_id: market_id() }
}

fn locked() -> ProofRequestStatus {
    ProofRequestStatus::Locked { market_request_id: market_id(), prover: Some("p".to_string()) }
}

fn fulfilled() -> ProofRequestStatus {
    ProofRequestStatus::Fulfilled { market_request_id: market_id(), proof: vec![1, 2] }
}

fn failed() -> ProofRequestStatus {
    ProofRequestStatus::Failed { error: "broken".to_string() }
}

fn request(id: &str, status: ProofRequestStatus) -> AsyncProofRequest {
    AsyncProofRequest {
        request_id: id.to_string(),
        market_request_id: market_id(),
        last_error: status.failure(),
        status,
        proof_type: ProofType::Aggregate,
        input: vec![1],
        output: vec![2],
        config: Value::Bool(true),
    }
}

fn storage_error() -> AgentError {
    AgentError::ClientBuildError("disk full".to_string())
}

/// What a request holds, as text.
fn shown(request: &AsyncProofRequest) -> String {
    format!("{:?}", request)
}

fn holds(prover: &BoundlessProver, id: &str, expected: Option<&AsyncProofRequest>) -> bool {
    prover.cached(id).map(shown) == expected.map(shown)
}

fn run(
    prover: &mut BoundlessProver,
    id: &str,
    existing: AgentResult<Option<AsyncProofRequest>>,
) -> AgentResult<RunPlan> {
    prover.batch_run(id.to_string(), vec![5], vec![6], &Value::Null, existing)
}

#[test]
fn test_batch_run() {
    BoundlessProver::new(ProverConfig::default(), &stock()).unwrap();
}

#[test]
fn a_new_agent_remembers_nothing() {
    let mut config = ProverConfig::default();
    config.pull_interval = 33;
    let prover = BoundlessProver::new(config, &stock()).unwrap();
    assert_eq!(prover.prover_config().pull_interval, 33);
    assert!(prover.cached("a").is_none());
    assert_eq!(prover.poll_error_count("a"), 0);
    assert!(prover.list_active_requests(Err(storage_error())).is_empty());
}

#[test]
fn a_proof_without_a_request_gets_one() {
    let mut prover = prover();
    let plan = run(&mut prover, "a", Ok(None)).unwrap();
    assert_eq!(plan.request_id(), "a");
    let new = match plan {
        RunPlan::New { request } => request,
        RunPlan::Existing { .. } => panic!("nothing is stored"),
    };
    assert_eq!(new.market_request_id, U256::zero());
    assert!(matches!(new.status, ProofRequestStatus::Preparing));
    assert_eq!(new.proof_type, ProofType::Batch);
    assert_eq!((new.input.as_slice(), new.output.as_slice()), (&[5u8][..], &[6u8][..]));
    assert_eq!(new.config, Value::Null);
    assert_eq!(new.last_error, None);
    assert!(holds(&prover, "a", Some(&new)));

    let plan = prover
        .aggregate("b".to_string(), vec![], vec![], &Value::Bool(false), Ok(None))
        .unwrap();
    match plan {
        RunPlan::New { request } => assert_eq!(request.proof_type, ProofType::Aggregate),
        RunPlan::Existing { .. } => panic!("nothing is stored"),
    }
}

#[test]
fn a_request_under_way_answers_the_same_proof() {
    for status in [ProofRequestStatus::Preparing, submitted(), locked()] {
        let mut prover = prover();
        let known = request("a", status);
        let plan = run(&mut prover, "b", Ok(Some(known.clone()))).unwrap();
        assert!(matches!(plan, RunPlan::Existing { .. }));
        assert_eq!(plan.request_id(), "a");
        assert!(holds(&prover, "a", Some(&known)));
        assert!(holds(&prover, "b", None));

        // What is in memory already is kept as it is.
        let mut older = request("a", ProofRequestStatus::Preparing);
        older.input = vec![9];
        let plan = prover
            .aggregate("b".to_string(), vec![], vec![], &Value::Null, Ok(Some(older)))
            .unwrap();
        assert_eq!(plan.request_id(), "a");
        assert!(holds(&prover, "a", Some(&known)));
    }
}

#[test]
fn a_fulfilled_request_answers_and_stays_out_of_memory() {
    let mut prover = prover();
    let plan = run(&mut prover, "b", Ok(Some(request("a", fulfilled())))).unwrap();
    assert!(matches!(plan, RunPlan::Existing { .. }));
    assert_eq!(plan.request_id(), "a");
    assert!(holds(&prover, "a", None));
    assert!(holds(&prover, "b", None));
}

#[test]
fn a_failed_request_makes_way_for_a_new_one() {
    let mut prover = prover();
    let plan = run(&mut prover, "b", Ok(Some(request("a", failed())))).unwrap();
    assert!(matches!(plan, RunPlan::New { .. }));
    assert_eq!(plan.request_id(), "b");
    assert!(holds(&prover, "a", None));
    assert!(prover.cached("b").is_some());
}

#[test]
fn a_failed_lookup_is_handed_on() {
    let mut prover = prover();
    let error = run(&mut prover, "a", Err(storage_error())).unwrap_err();
    assert_eq!(error.message(), "Failed to build boundless client: disk full");
    assert!(holds(&prover, "a", None));
}

#[test]
fn the_same_proof_is_requested_once() {
    let mut prover = prover();
    let first = match run(&mut prover, "a", Ok(None)).unwrap() {
        RunPlan::New { request } => request,
        RunPlan::Existing { .. } => panic!("nothing is stored"),
    };
    let again = run(&mut prover, "b", Ok(Some(first.clone()))).unwrap();
    assert_eq!(again.request_id(), "a");
    assert!(matches!(again, RunPlan::Existing { .. }));
    assert!(holds(&prover, "a", Some(&first)));
    assert!(holds(&prover, "b", None));
}

#[test]
fn only_failed_requests_are_retried() {
    let mut prover = prover();
    let refused = |prover: &mut BoundlessProver, stored| {
        prover.retry_failed_request("a", stored).unwrap_err().message()
    };
    assert_eq!(
        refused(&mut prover, Err(storage_error())),
        "Failed to build boundless client: disk full"
    );
    assert_eq!(refused(&mut prover, Ok(None)), "Retry error: Request a not found");
    for status in [ProofRequestStatus::Preparing, submitted(), locked(), fulfilled()] {
        assert_eq!(
            refused(&mut prover, Ok(Some(request("a", status)))),
            "Retry error: Request a is not in a failed state"
        );
    }
}

#[test]
fn a_retried_request_starts_over() {
    let mut prover = prover();
    prover.record_poll_error("a");
    prover.record_poll_error("b");
    let reset = prover.retry_failed_request("a", Ok(Some(request("a", failed())))).unwrap();
    assert_eq!(prover.poll_error_count("a"), 0);
    assert_eq!(prover.poll_error_count("b"), 1);
    assert_eq!(reset.market_request_id, U256::zero());
    assert!(matches!(reset.status, ProofRequestStatus::Preparing));
    assert_eq!(reset.last_error, None);
    assert_eq!((reset.input.clone(), reset.output.clone()), (vec![1], vec![2]));
    assert_eq!(reset.config, Value::Bool(true));
    assert_eq!(reset.proof_type, ProofType::Aggregate);
    assert!(holds(&prover, "a", None));

    let error = prover.finish_retry("a", &reset, Err(storage_error())).unwrap_err();
    assert_eq!(error.message(), "Failed to build boundless client: disk full");
    assert!(holds(&prover, "a", None));
    assert_eq!(prover.finish_retry("a", &reset, Ok(())).unwrap(), "a");
    assert!(holds(&prover, "a", Some(&reset)));
    assert!(prover.retry_failed_request("a", Ok(Some(reset))).is_err());
}

#[test]
fn storage_tells_the_status_of_a_request() {
    let mut prover = prover();
    let stored = request("a", locked());
    let found = prover.get_request_status("a", Ok(Some(stored.clone()))).unwrap();
    assert_eq!(shown(&found), shown(&stored));
    assert!(holds(&prover, "a", Some(&stored)));

    // Where storage knows nothing, or fails, memory answers.
    let found = prover.get_request_status("a", Ok(None)).unwrap();
    assert_eq!(shown(&found), shown(&stored));
    let found = prover.get_request_status("a", Err(storage_error())).unwrap();
    assert_eq!(shown(&found), shown(&stored));
    assert!(prover.get_request_status("b", Ok(None)).is_none());
    assert!(prover.get_request_status("b", Err(storage_error())).is_none());

    // A request that is done leaves memory.
    for status in [fulfilled(), failed()] {
        prover.get_request_status("a", Ok(Some(request("a", submitted()))));
        assert!(prover.cached("a").is_some());
        let done = request("a", status);
        let found = prover.get_request_status("a", Ok(Some(done.clone()))).unwrap();
        assert_eq!(shown(&found), shown(&done));
        assert!(holds(&prover, "a", None));
    }
}

#[test]
fn memory_lists_what_storage_cannot() {
    let mut prover = prover();
    for id in ["a", "b", "c"] {
        prover.get_request_status(id, Ok(Some(request(id, submitted()))));
    }
    // While storage is told that a request is done, the request is not active any more.
    prover.begin_status_update("b", &failed());
    assert!(prover.cached("b").is_some());

    let mut ids: Vec<String> = prover
        .list_active_requests(Err(storage_error()))
        .into_iter()
        .map(|request| request.request_id)
        .collect();
    ids.sort();
    assert_eq!(ids, vec!["a".to_string(), "c".to_string()]);

    let listed = prover.list_active_requests(Ok(vec![request("z", locked())]));
    assert_eq!(listed.len(), 1);
    assert_eq!(listed[0].request_id, "z");
    assert!(prover.list_active_requests(Ok(vec![])).is_empty());
}

#[test]
fn all_requests_are_deleted_from_storage_and_memory() {
    let mut prover = prover();
    run(&mut prover, "a", Ok(None)).unwrap();
    prover.record_poll_error("a");
    assert!(prover.delete_all_requests(Err(storage_error())).is_err());
    assert!(prover.cached("a").is_some());
    assert_eq!(prover.poll_error_count("a"), 1);
    assert_eq!(prover.delete_all_requests(Ok(4)).unwrap(), 4);
    assert!(prover.cached("a").is_none());
    assert_eq!(prover.poll_error_count("a"), 0);
}

#[test]
fn expired_requests_leave_memory() {
    let mut prover = prover();
    for id in ["a", "b", "c"] {
        run(&mut prover, id, Ok(None)).unwrap();
    }
    prover.finish_ttl_cleanup(&Err(storage_error()));
    assert!(prover.cached("a").is_some());
    prover.finish_ttl_cleanup(&Ok(vec!["c".to_string(), "x".to_string(), "a".to_string()]));
    assert!(prover.cached("a").is_none());
    assert!(prover.cached("b").is_some());
    assert!(prover.cached("c").is_none());
}

#[test]
fn a_new_status_is_recorded_with_what_it_carries() {
    let mut prover = prover();
    run(&mut prover, "a", Ok(None)).unwrap();
    prover.begin_status_update("a", &locked());
    let cached = prover.cached("a").unwrap();
    assert_eq!(cached.market_request_id, market_id());
    assert!(matches!(cached.status, ProofRequestStatus::Locked { .. }));
    prover.finish_status_update("a", &locked(), Ok(())).unwrap();
    assert!(prover.cached("a").is_some());

    // A failure keeps the market's id, and says why.
    prover.begin_status_update("a", &failed());
    let cached = prover.cached("a").unwrap();
    assert_eq!(cached.market_request_id, market_id());
    assert_eq!(cached.last_error, Some("broken".to_string()));
    assert_eq!((cached.input.clone(), cached.output.clone()), (vec![5], vec![6]));

    // The next status drops the error.
    prover.begin_status_update("a", &submitted());
    assert_eq!(prover.cached("a").unwrap().last_error, None);

    // A request that is not in memory is not put there.
    prover.begin_status_update("b", &submitted());
    assert!(prover.cached("b").is_none());
}

#[test]
fn a_request_that_is_done_is_forgotten() {
    for status in [fulfilled(), failed()] {
        let mut prover = prover();
        run(&mut prover, "a", Ok(None)).unwrap();
        run(&mut prover, "b", Ok(None)).unwrap();
        prover.record_poll_error("a");
        prover.record_poll_error("b");
        prover.begin_status_update("a", &status);
        let error = prover.finish_status_update("a", &status, Err(storage_error())).unwrap_err();
        assert_eq!(
            error.message(),
            "Failed to build boundless client: Storage update failed: \
             Failed to build boundless client: disk full"
        );
        assert!(prover.cached("a").is_none());
        assert_eq!(prover.poll_error_count("a"), 1);

        run(&mut prover, "a", Ok(None)).unwrap();
        prover.begin_status_update("a", &status);
        prover.finish_status_update("a", &status, Ok(())).unwrap();
        assert!(prover.cached("a").is_none());
        assert_eq!(prover.poll_error_count("a"), 0);
        assert!(prover.cached("b").is_some());
        assert_eq!(prover.poll_error_count("b"), 1);
    }
}

#[test]
fn a_refused_status_that_ends_nothing_stays_in_memory() {
    let mut prover = prover();
    run(&mut prover, "a", Ok(None)).unwrap();
    prover.begin_status_update("a", &locked());
    let error = prover.finish_status_update("a", &locked(), Err(storage_error())).unwrap_err();
    assert_eq!(
        error.message(),
        "Failed to build boundless client: Storage update failed: \
         Failed to build boundless client: disk full"
    );
    assert!(matches!(prover.cached("a").unwrap().status, ProofRequestStatus::Locked { .. }));
}

#[test]
fn start_up_settings() {
    assert_eq!(database_path(None), "./boundless_requests.db");
    assert_eq!(database_path(Some("/x.db".to_string())), "/x.db");
    assert_eq!(image_name(&ProofType::Batch), "batch");
    assert_eq!(image_name(&ProofType::Aggregate), "aggregation");
    assert_eq!(images_to_refresh(false, false), vec![]);
    assert_eq!(images_to_refresh(true, false), vec![ProofType::Batch]);
    assert_eq!(images_to_refresh(false, true), vec![ProofType::Aggregate]);
    assert_eq!(images_to_refresh(true, true), vec![ProofType::Batch, ProofType::Aggregate]);
}
