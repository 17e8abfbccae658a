use boundless_agent::config::StockOrderStreams;
use boundless_agent::error::{AgentError, AgentResult};
use boundless_agent::market::{
    check_fulfillment, check_market_status, check_receipt, check_seal, fulfilled_status,
    poll_error_threshold, process_input, receipt_of, stage_error, CheckStep, DecodedSeal,
    Fulfillment, MarketStatus, Operation, Origin, PollPlan, SubmitRoute, SubmitStage,
};
use boundless_agent::prover::{BoundlessProver, ProverConfig};
use boundless_agent::types::{ProofRequestStatus, ProofType};
use boundless_agent::u256::U256;
use serde_json::Value;

fn with_config(config: ProverConfig) -> BoundlessProver {
    BoundlessProver::new(config, &StockOrderStreams { sepolia: None, base: None }).unwrap()
}

/// An agent with one request, "a", under way.
fn prover() -> BoundlessProver {
    let mut prover = with_config(ProverConfig::default());
    prover.batch_run("a".to_string(), vec![5], vec![6], &Value::Null, Ok(None)).unwrap();
    prover
}

fn id() -> U256 {
    U256::from_u64(77)
}

fn down() -> AgentError {
    AgentError::PollingError("down".to_string())
}

fn status(step: CheckStep) -> AgentResult<ProofRequestStatus> {
    match step {
        CheckStep::Done(outcome) => outcome,
        _ => panic!("the check is not done"),
    }
}

fn failure(step: CheckStep) -> String {
    status(step).unwrap().failure().unwrap()
}

fn proof_of(outcome: AgentResult<ProofRequestStatus>) -> (U256, Vec<u8>) {
    match outcome {
        Ok(ProofRequestStatus::Fulfilled { market_request_id, proof }) => {
            (market_request_id, proof)
        }
        _ => panic!("not fulfilled"),
    }
}

fn fulfillment(journal: Result<Option<Vec<u8>>, String>) -> AgentResult<Fulfillment> {
    Ok(Fulfillment { seal: vec![8, 9], journal })
}

#[test]
fn market_statuses_are_understood() {
    match status(check_market_status(id(), Ok(MarketStatus::Unknown))).unwrap() {
        ProofRequestStatus::Submitted { market_request_id } => assert_eq!(market_request_id, id()),
        _ => panic!("open for bidding"),
    }
    match status(check_market_status(id(), Ok(MarketStatus::Locked))).unwrap() {
        ProofRequestStatus::Locked { market_request_id, prover } => {
            assert_eq!(market_request_id, id());
            assert_eq!(prover, None);
        }
        _ => panic!("locked"),
    }
    assert_eq!(
        failure(check_market_status(id(), Ok(MarketStatus::Expired))),
        "Request expired in boundless market"
    );
    assert!(matches!(
        check_market_status(id(), Ok(MarketStatus::Fulfilled)),
        CheckStep::FetchFulfillment
    ));
    assert_eq!(
        status(check_market_status(id(), Err(down()))).unwrap_err().message(),
        "Transient polling error: Failed to check market status: Transient polling error: down"
    );
}

#[test]
fn fulfillments_are_checked() {
    let check = |proof_type: &ProofType, image, fetched| {
        check_fulfillment(id(), proof_type, image, fetched)
    };
    assert_eq!(
        status(check(&ProofType::Batch, None, Err(down()))).unwrap_err().message(),
        "Transient polling error: Failed to get proof data: Transient polling error: down"
    );
    assert_eq!(
        failure(check(&ProofType::Batch, Some([1; 32]), fulfillment(Ok(None)))),
        "Missing journal in fulfillment data"
    );
    assert_eq!(
        failure(check(&ProofType::Aggregate, None, fulfillment(Err("odd".to_string())))),
        "Failed to decode fulfillment data: odd"
    );
    match check(&ProofType::Batch, Some([1; 32]), fulfillment(Ok(Some(vec![3])))) {
        CheckStep::DecodeReceipt { image_id, seal, journal } => {
            assert_eq!(image_id, [1; 32]);
            assert_eq!(seal, vec![8, 9]);
            assert_eq!(journal, vec![3]);
        }
        _ => panic!("the receipt of a batch is decoded"),
    }
    let plain = vec![2, 0, 0, 0, 0, 0, 0, 0, 8, 9, 1, 0, 0, 0, 0, 0, 0, 0, 3, 0];
    for (proof_type, image) in [
        (ProofType::Batch, None),
        (ProofType::Aggregate, None),
        (ProofType::Aggregate, Some([1; 32])),
    ] {
        let step = check(&proof_type, image, fulfillment(Ok(Some(vec![3]))));
        assert_eq!(proof_of(status(step)), (id(), plain.clone()));
    }
}

#[test]
fn responses_are_encoded() {
    let receipt = Some("r\u{e9}".to_string());
    let (market_id, bytes) = proof_of(check_receipt(id(), vec![], vec![7; 300], receipt));
    let mut expected = vec![0u8; 8];
    expected.extend_from_slice(&300u64.to_le_bytes());
    expected.extend_from_slice(&[7; 300]);
    expected.push(1);
    expected.extend_from_slice(&3u64.to_le_bytes());
    expected.extend_from_slice("r\u{e9}".as_bytes());
    assert_eq!(market_id, id());
    assert_eq!(bytes, expected);

    let (seal, journal, receipt): (Vec<u8>, Vec<u8>, Option<String>) =
        bincode::deserialize(&bytes).unwrap();
    assert_eq!((seal, journal), (vec![], vec![7; 300]));
    assert_eq!(receipt, Some("r\u{e9}".to_string()));

    assert_eq!(
        fulfilled_status(id(), Err("full".to_string())).unwrap_err().message(),
        "Failed to encode response: Failed to encode response: full"
    );
}

#[test]
fn responses_tell_their_parts_apart() {
    let encoded = |seal: &[u8], journal: &[u8], receipt: Option<&str>| {
        proof_of(check_receipt(id(), seal.to_vec(), journal.to_vec(), receipt.map(str::to_string))).1
    };
    let one = encoded(&[1], &[2], None);
    assert_ne!(one, encoded(&[1, 2], &[], None));
    assert_ne!(one, encoded(&[], &[1, 2], None));
    assert_ne!(one, encoded(&[1], &[2], Some("")));
    assert_eq!(one, encoded(&[1], &[2], None));
}

#[test]
fn the_threshold_is_a_positive_number() {
    let set = |text: &str| poll_error_threshold(Some(text.to_string()));
    assert_eq!(poll_error_threshold(None), 5);
    assert_eq!(set("1"), 1);
    assert_eq!(set("+12"), 12);
    assert_eq!(set("4294967295"), 4294967295);
    for text in ["0", "", "-3", "4294967296", "many", " 3"] {
        assert_eq!(set(text), 5, "{:?}", text);
    }
}

#[test]
fn failed_polls_are_tolerated_up_to_the_threshold() {
    let mut prover = prover();
    for count in 1..3 {
        let plan = prover.begin_poll("a", Err(down()), 3);
        assert!(matches!(plan, PollPlan::Wait));
        assert!(plan.status().is_none());
        assert!(prover.finish_poll("a", &plan, Ok(())));
        assert_eq!(prover.poll_error_count("a"), count);
        assert!(matches!(prover.cached("a").unwrap().status, ProofRequestStatus::Preparing));
    }
    let plan = prover.begin_poll("a", Err(down()), 3);
    assert!(matches!(plan, PollPlan::GiveUp(_)));
    assert!(!plan.keeps_polling());
    let message = "Polling error threshold exceeded (3 consecutive errors). \
                   Last error: Transient polling error: down";
    assert_eq!(plan.status().unwrap().failure(), Some(message.to_string()));
    assert_eq!(prover.cached("a").unwrap().last_error, Some(message.to_string()));
    assert!(!prover.finish_poll("a", &plan, Ok(())));
    assert!(prover.cached("a").is_none());
    assert_eq!(prover.poll_error_count("a"), 0);
}

#[test]
fn a_successful_poll_starts_the_count_anew() {
    let mut prover = prover();
    for _ in 0..4 {
        let plan = prover.begin_poll("a", Err(down()), 5);
        assert!(prover.finish_poll("a", &plan, Ok(())));
    }
    let polled = Ok(ProofRequestStatus::Submitted { market_request_id: id() });
    let plan = prover.begin_poll("a", polled, 5);
    assert!(matches!(plan, PollPlan::Report(_)));
    assert!(prover.finish_poll("a", &plan, Ok(())));
    assert_eq!(prover.poll_error_count("a"), 0);
    assert_eq!(prover.cached("a").unwrap().market_request_id, id());
    for _ in 0..4 {
        let plan = prover.begin_poll("a", Err(down()), 5);
        assert!(prover.finish_poll("a", &plan, Ok(())));
    }
    assert!(!prover.begin_poll("a", Err(down()), 5).keeps_polling());
}

#[test]
fn polling_ends_with_the_request() {
    for done in [
        ProofRequestStatus::Fulfilled { market_request_id: id(), proof: vec![1] },
        ProofRequestStatus::Failed { error: "no".to_string() },
    ] {
        let mut prover = prover();
        let plan = prover.begin_poll("a", Ok(done), 5);
        assert!(!prover.finish_poll("a", &plan, Ok(())));
        assert!(prover.cached("a").is_none());
    }
    // Whether or not storage takes the status.
    for done in [
        ProofRequestStatus::Fulfilled { market_request_id: id(), proof: vec![1] },
        ProofRequestStatus::Failed { error: "no".to_string() },
    ] {
        let mut prover = prover();
        let plan = prover.begin_poll("a", Ok(done), 5);
        assert!(!prover.finish_poll("a", &plan, Err(down())));
        assert!(prover.cached("a").is_none());
    }
}

#[test]
fn giving_up_drops_all_even_where_storage_fails() {
    let mut prover = prover();
    let plan = prover.begin_poll("a", Err(down()), 1);
    assert_eq!(prover.poll_error_count("a"), 1);
    assert!(!prover.finish_poll("a", &plan, Err(down())));
    assert!(prover.cached("a").is_none());
    assert_eq!(prover.poll_error_count("a"), 0);

    // A status that ends nothing stays, taken or not.
    let mut prover = with_config(ProverConfig::default());
    prover.batch_run("a".to_string(), vec![5], vec![6], &Value::Null, Ok(None)).unwrap();
    let polled = Ok(ProofRequestStatus::Submitted { market_request_id: id() });
    let plan = prover.begin_poll("a", polled, 1);
    assert!(prover.finish_poll("a", &plan, Err(down())));
    assert_eq!(prover.cached("a").unwrap().market_request_id, id());
}

#[test]
fn requests_time_out() {
    for stored in [true, false] {
        let mut prover = prover();
        prover.record_poll_error("a");
        let status = prover.handle_polling_timeout("a");
        assert_eq!(status.failure(), Some("Request timed out after 1 hour".to_string()));
        assert_eq!(prover.cached("a").unwrap().last_error, status.failure());
        let answer = if stored { Ok(()) } else { Err(down()) };
        prover.finish_polling_timeout("a", &status, answer);
        assert!(prover.cached("a").is_none());
        assert_eq!(prover.poll_error_count("a"), if stored { 0 } else { 1 });
    }
}

#[test]
fn polls_keep_their_distance() {
    for (configured, interval) in [(0, 5), (4, 5), (5, 5), (6, 6), (10, 10), (600, 600)] {
        let mut config = ProverConfig::default();
        config.pull_interval = configured;
        assert_eq!(with_config(config).poll_interval_secs(), interval);
    }
}

#[test]
fn offers_need_an_uploaded_program() {
    let prover = prover();
    let batch = prover.submission_offer(&ProofType::Batch, Origin::Submitted, true).unwrap();
    assert_eq!(batch.ramp_up_sec, 1000);
    let aggregate = prover.submission_offer(&ProofType::Aggregate, Origin::Retried, true).unwrap();
    assert_eq!(aggregate.ramp_up_sec, 200);

    let missing = |proof_type, origin| prover.submission_offer(proof_type, origin, false).err();
    let batch = "Batch image not uploaded. Please upload via /upload-image endpoint first.";
    let aggregation =
        "Aggregation image not uploaded. Please upload via /upload-image endpoint first.";
    assert_eq!(missing(&ProofType::Batch, Origin::Submitted), Some(batch.to_string()));
    assert_eq!(missing(&ProofType::Aggregate, Origin::Submitted), Some(aggregation.to_string()));
    assert_eq!(
        missing(&ProofType::Batch, Origin::Retried),
        Some(format!("Retry error: {}", batch))
    );
    assert_eq!(
        missing(&ProofType::Aggregate, Origin::Retried),
        Some(format!("Retry error: {}", aggregation))
    );
}

#[test]
fn requests_are_submitted_on_the_configured_route() {
    let mut config = ProverConfig::default();
    assert_eq!(with_config(config.clone()).submit_route(), SubmitRoute::Onchain);
    config.offchain = true;
    assert_eq!(with_config(config).submit_route(), SubmitRoute::Offchain);
    assert_eq!(SubmitRoute::Onchain.operation_name(), "submit_request_onchain");
    assert_eq!(SubmitRoute::Offchain.operation_name(), "submit_request_offchain");
    assert_eq!(
        SubmitRoute::Onchain.attempt_error("x").message(),
        "Failed to submit request: Failed to submit request onchain: x"
    );
    assert_eq!(
        SubmitRoute::Offchain.attempt_error("x").message(),
        "Failed to submit request: Failed to submit request offchain: x"
    );
}

#[test]
fn a_submitted_request_has_its_market_id() {
    let mut prover = prover();
    match prover.mark_submitted("a", id()) {
        ProofRequestStatus::Submitted { market_request_id } => assert_eq!(market_request_id, id()),
        _ => panic!("submitted"),
    }
    let cached = prover.cached("a").unwrap();
    assert_eq!(cached.market_request_id, id());
    assert_eq!(cached.status.market_id(), Some(id()));
    assert_eq!(cached.input, vec![5]);
    prover.mark_submitted("b", id());
    assert!(prover.cached("b").is_none());
}

#[test]
fn each_step_to_the_market_has_its_error() {
    let error = |stage| stage_error(stage, "x").message();
    assert_eq!(
        error(SubmitStage::ProcessInput),
        "Failed to encode guest environment: Failed to process input: x"
    );
    assert_eq!(
        error(SubmitStage::UploadInput),
        "Failed to upload input: Failed to upload input: x"
    );
    assert_eq!(
        error(SubmitStage::BuildRequest),
        "Failed to build request: Failed to build request: x"
    );
    assert_eq!(
        error(SubmitStage::SubmitRequest),
        "Failed to submit request: Failed to submit to market: x"
    );
    assert_eq!(process_input(Ok(vec![4])).unwrap(), vec![4]);
    assert_eq!(
        process_input(Err("x".to_string())).unwrap_err().message(),
        "Failed to build boundless client: Failed to encode guest environment: x"
    );
}

#[test]
fn operations_are_named_and_bounded() {
    for (operation, name, attempts) in [
        (Operation::BuildClient, "build_boundless_client", 3),
        (Operation::GetStatus, "get_market_status", 3),
        (Operation::GetFulfillment, "get_request_fulfillment", 5),
        (Operation::CheckStatus, "check_market_status_polling", 3),
        (Operation::Submit(SubmitRoute::Offchain), "submit_request_offchain", 5),
        (Operation::Submit(SubmitRoute::Onchain), "submit_request_onchain", 5),
    ] {
        assert_eq!(operation.name(), name);
        assert_eq!(operation.max_attempts(), attempts);
    }
}

#[test]
fn only_a_receipt_of_its_own_is_carried() {
    let cases = || {
        vec![
            (DecodedSeal::Base(Ok("{}".to_string())), Some("{}".to_string())),
            (DecodedSeal::Base(Err("odd".to_string())), None),
            (DecodedSeal::Other, None),
            (DecodedSeal::Undecodable("short".to_string()), None),
        ]
    };
    for (decoded, receipt) in cases() {
        assert_eq!(receipt_of(decoded), receipt);
    }
    for (decoded, receipt) in cases() {
        assert_eq!(
            proof_of(check_seal(id(), vec![8], vec![3], decoded)),
            proof_of(check_receipt(id(), vec![8], vec![3], receipt))
        );
    }
}
