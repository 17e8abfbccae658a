use boundless_agent::config::{BoundlessOfferParams, StockOrderStreams};
use boundless_agent::error::AgentError;
use boundless_agent::market::SubmitRoute;
use boundless_agent::offer::{offer_terms, RequestTerms};
use boundless_agent::prover::{BoundlessProver, ProverConfig};
use boundless_agent::submission::{build_failure, SubmitEvent, SubmitStep};
use boundless_agent::types::ProofRequestStatus;
use boundless_agent::u256::U256;
use serde_json::Value;

/// An agent with one request, "a", that is not on the market yet.
fn prover(offchain: bool) -> BoundlessProver {
    let mut config = ProverConfig::default();
    config.offchain = offchain;
    let stock = StockOrderStreams { sepolia: None, base: None };
    let mut prover = BoundlessProver::new(config, &stock).unwrap();
    prover.batch_run("a".to_string(), vec![5], vec![6], &Value::Null, Ok(None)).unwrap();
    prover
}

fn terms() -> RequestTerms {
    let offer = BoundlessOfferParams::batch();
    offer_terms([3; 32], U256::zero(), U256::zero(), &offer, 100, vec![], 5)
}

fn id() -> U256 {
    U256::from_u64(77)
}

fn down() -> AgentError {
    AgentError::PollingError("down".to_string())
}

#[test]
fn a_submission_takes_its_steps_in_order() {
    for (offchain, expected) in [(false, SubmitRoute::Onchain), (true, SubmitRoute::Offchain)] {
        let mut prover = prover(offchain);
        let step = prover.next_submit_step("a", SubmitEvent::Connected(Ok(())));
        assert!(matches!(step, SubmitStep::EncodeInput));
        match prover.next_submit_step("a", SubmitEvent::Encoded(Ok(vec![1, 2]))) {
            SubmitStep::UploadInput { env_bytes } => assert_eq!(env_bytes, vec![1, 2]),
            _ => panic!("the input is uploaded"),
        }
        match prover.next_submit_step("a", SubmitEvent::Uploaded(Ok(()))) {
            SubmitStep::MakeTerms { mcycles } => assert_eq!(mcycles, 6000),
            _ => panic!("the terms are made"),
        }
        match prover.next_submit_step("a", SubmitEvent::TermsMade(Ok(terms()))) {
            SubmitStep::BuildRequest { terms } => assert_eq!(terms.image_id, [3; 32]),
            _ => panic!("the request is built"),
        }
        match prover.next_submit_step("a", SubmitEvent::Built(Ok(()))) {
            SubmitStep::SubmitRequest { route } => assert_eq!(route, expected),
            _ => panic!("the request is submitted"),
        }
        assert_eq!(prover.cached("a").unwrap().market_request_id, U256::zero());

        match prover.next_submit_step("a", SubmitEvent::Submitted(Ok(id()))) {
            SubmitStep::StoreStatus { market_request_id, status } => {
                assert_eq!(market_request_id, id());
                assert!(matches!(status, ProofRequestStatus::Submitted { .. }));
                assert_eq!(status.market_id(), Some(id()));
            }
            _ => panic!("the status is stored"),
        }
        assert_eq!(prover.cached("a").unwrap().market_request_id, id());
        assert_eq!(prover.cached("a").unwrap().status.market_id(), Some(id()));

        // The request is on the market, whether or not the status could be stored.
        for stored in [Ok(()), Err(down())] {
            let event = SubmitEvent::StatusStored { market_request_id: id(), stored };
            match prover.next_submit_step("a", event) {
                SubmitStep::Poll { market_request_id } => assert_eq!(market_request_id, id()),
                _ => panic!("the status is polled"),
            }
        }
    }
}

#[test]
fn a_failing_step_ends_a_submission() {
    let mut prover = prover(false);
    let before = format!("{:?}", prover.cached("a"));
    for (event, expected) in [
        (SubmitEvent::Connected(Err(down())), "Transient polling error: down"),
        (
            SubmitEvent::Encoded(Err("x".to_string())),
            "Failed to encode guest environment: Failed to process input: \
             Failed to build boundless client: Failed to encode guest environment: x",
        ),
        (
            SubmitEvent::Uploaded(Err("x".to_string())),
            "Failed to upload input: Failed to upload input: x",
        ),
        (
            SubmitEvent::TermsMade(Err(down())),
            "Failed to build request: Failed to build request: Transient polling error: down",
        ),
        (
            SubmitEvent::Built(Err("x".to_string())),
            "Failed to build request: Failed to build request: \
             Failed to build boundless client: Failed to build request: x",
        ),
        (
            SubmitEvent::Submitted(Err(down())),
            "Failed to submit request: Failed to submit to market: Transient polling error: down",
        ),
    ] {
        match prover.next_submit_step("a", event) {
            SubmitStep::Fail(error) => assert_eq!(error.message(), expected),
            _ => panic!("the submission goes on"),
        }
        assert_eq!(format!("{:?}", prover.cached("a")), before);
    }
    assert_eq!(
        build_failure("x").message(),
        "Failed to build boundless client: Failed to build request: x"
    );
}
