//! What the calls on the market's answers promise.

use crate::config::{BoundlessConfig, BoundlessOfferParams};
use crate::error::{AgentError, AgentResult};
use crate::market::{check_fulfillment, check_market_status, check_receipt, check_seal};
use crate::market::{fulfilled_status, poll_error_threshold, process_input, receipt_of, stage_error};
use crate::market::{CheckStep, DecodedSeal, Fulfillment, MarketStatus, Operation, Origin};
use crate::market::{PollPlan, SubmitRoute, SubmitStage};
use crate::promises::settings::same_offer;
use crate::prover::BoundlessProver;
use crate::response::read_response;
use crate::text::parse_u32;
use crate::types::{ProofRequestStatus, ProofType};
use crate::u256::U256;
use vstd::prelude::*;
use vstd::utf8::encode_utf8;

verus! {

/// The text of an optional string.
pub open spec fn text_of(text: Option<String>) -> Option<Seq<char>> {
    match text {
        Some(s) => Some(s@),
        None => None,
    }
}

/// Whether a receipt is short enough for its length to be written.
pub open spec fn receipt_fits(receipt: Option<String>) -> bool {
    receipt matches Some(text) ==> encode_utf8(text@).len() <= u64::MAX
}

/// Whether an outcome is a fulfilled request with an id, whose proof reads back to a seal, a
/// journal and a receipt.
pub open spec fn proves(
    outcome: AgentResult<ProofRequestStatus>,
    id: U256,
    seal: Seq<u8>,
    journal: Seq<u8>,
    receipt: Option<Seq<char>>,
) -> bool {
    outcome matches Ok(ProofRequestStatus::Fulfilled { market_request_id, proof })
        && market_request_id == id && read_response(proof@) == Some((seal, journal, receipt))
}

proof fn lemma_proof_reads_back(
    id: U256,
    seal: Vec<u8>,
    journal: Vec<u8>,
    receipt: Option<Seq<char>>,
    r: AgentResult<ProofRequestStatus>,
)
    requires
        crate::market::status_result(r) == Ok::<
            crate::types::StatusView,
            crate::error::AgentErrorView,
        >(crate::market::fulfilled(id, seal@, journal@, receipt)),
        receipt matches Some(text) ==> encode_utf8(text).len() <= u64::MAX,
    ensures
        proves(r, id, seal@, journal@, receipt),
{
    assert(seal@.len() == seal.len());
    assert(journal@.len() == journal.len());
    crate::response::law_response_reads_back(seal@, journal@, receipt);
}

/// The proof of a fulfilled request reads back to the seal, the journal and the receipt that it was
/// made of.
pub proof fn law_proof_holds_seal_journal_and_receipt(
    id: U256,
    seal: Vec<u8>,
    journal: Vec<u8>,
    receipt: Option<String>,
    r: AgentResult<ProofRequestStatus>,
)
    requires
        call_ensures(check_receipt, (id, seal, journal, receipt), r),
        receipt_fits(receipt),
    ensures
        proves(r, id, seal@, journal@, text_of(receipt)),
{
    lemma_proof_reads_back(id, seal, journal, text_of(receipt), r);
}

/// Fulfilled requests with the same proof have the same seal, journal and receipt.
pub proof fn law_equal_proofs_are_of_equal_parts(
    id: U256,
    seal: Vec<u8>,
    journal: Vec<u8>,
    receipt: Option<String>,
    other_id: U256,
    other_seal: Vec<u8>,
    other_journal: Vec<u8>,
    other_receipt: Option<String>,
    r: AgentResult<ProofRequestStatus>,
    other_r: AgentResult<ProofRequestStatus>,
)
    requires
        call_ensures(check_receipt, (id, seal, journal, receipt), r),
        call_ensures(check_receipt, (other_id, other_seal, other_journal, other_receipt), other_r),
        receipt_fits(receipt),
        receipt_fits(other_receipt),
        r matches Ok(ProofRequestStatus::Fulfilled { proof, .. }) && (other_r matches Ok(
            ProofRequestStatus::Fulfilled { proof: other_proof, .. },
        ) && proof@ == other_proof@),
    ensures
        seal@ == other_seal@,
        journal@ == other_journal@,
        text_of(receipt) == text_of(other_receipt),
{
    lemma_proof_reads_back(id, seal, journal, text_of(receipt), r);
    lemma_proof_reads_back(other_id, other_seal, other_journal, text_of(other_receipt), other_r);
}

/// The proof of a batch whose seal was decoded holds the seal, the journal, and the receipt where
/// it is one of its own that could be written; whatever the seal decoded to, the request is
/// fulfilled.
pub proof fn law_decoded_batch_is_fulfilled(
    id: U256,
    seal: Vec<u8>,
    journal: Vec<u8>,
    decoded: DecodedSeal,
    receipt: Option<String>,
    r: AgentResult<ProofRequestStatus>,
)
    requires
        call_ensures(receipt_of, (decoded,), receipt),
        receipt_fits(receipt),
        call_ensures(check_seal, (id, seal, journal, decoded), r),
    ensures
        decoded matches DecodedSeal::Base(Ok(text)) ==> (receipt matches Some(told) && told@
            == text@),
        decoded matches DecodedSeal::Base(Err(_)) ==> receipt is None,
        decoded is Other || decoded is Undecodable ==> receipt is None,
        proves(r, id, seal@, journal@, text_of(receipt)),
{
    assert(crate::types::text_view(receipt) == text_of(receipt));
    lemma_proof_reads_back(id, seal, journal, text_of(receipt), r);
}

/// Encoded bytes become the proof as they are; a failed encoding is an error that tells the reason.
pub proof fn law_encoded_response_is_the_proof(
    id: U256,
    encoded: Result<Vec<u8>, String>,
    r: AgentResult<ProofRequestStatus>,
)
    requires
        call_ensures(fulfilled_status, (id, encoded), r),
    ensures
        encoded is Ok ==> (r matches Ok(ProofRequestStatus::Fulfilled { market_request_id, proof })
            && market_request_id == id && proof@ == encoded->Ok_0@),
        encoded matches Err(reason) ==> (r matches Err(AgentError::ResponseEncodeError(text))
            && text@ == "Failed to encode response: "@ + reason@),
{
}

/// The market's status of a request decides: open for bidding means submitted, a committed prover
/// means locked by an unknown one, expired means failed, each with the id that was asked for; a
/// fulfilled request is fetched; and where the market did not answer there is an error and no
/// status.
pub proof fn law_market_status_decides(
    id: U256,
    polled: AgentResult<MarketStatus>,
    shown: String,
    r: CheckStep,
)
    requires
        call_ensures(check_market_status, (id, polled), r),
        polled matches Err(error) ==> call_ensures(AgentError::message, (&error,), shown),
    ensures
        polled matches Ok(MarketStatus::Unknown) ==> (r matches CheckStep::Done(
            Ok(ProofRequestStatus::Submitted { market_request_id }),
        ) && market_request_id == id),
        polled matches Ok(MarketStatus::Locked) ==> (r matches CheckStep::Done(
            Ok(ProofRequestStatus::Locked { market_request_id, prover }),
        ) && market_request_id == id && prover is None),
        polled matches Ok(MarketStatus::Fulfilled) <==> r is FetchFulfillment,
        polled matches Ok(MarketStatus::Expired) ==> (r matches CheckStep::Done(
            Ok(ProofRequestStatus::Failed { error }),
        ) && error@ == "Request expired in boundless market"@),
        polled is Err ==> (r matches CheckStep::Done(Err(AgentError::PollingError(text))) && text@
            == "Failed to check market status: "@ + shown@),
{
}

/// What was fetched decides: without a journal the request has failed; a batch whose image is known
/// has the receipt decoded from the very seal, journal and image; any other is fulfilled with its
/// seal and journal and no receipt; and where nothing was fetched there is an error and no status.
pub proof fn law_fulfillment_decides(
    id: U256,
    proof_type: ProofType,
    image: Option<[u8; 32]>,
    fetched: AgentResult<Fulfillment>,
    shown: String,
    r: CheckStep,
)
    requires
        call_ensures(check_fulfillment, (id, &proof_type, image, fetched), r),
        fetched matches Err(error) ==> call_ensures(AgentError::message, (&error,), shown),
    ensures
        match fetched {
            Err(_) => r matches CheckStep::Done(Err(AgentError::PollingError(text))) && text@
                == "Failed to get proof data: "@ + shown@,
            Ok(fulfillment) => match fulfillment.journal {
                Err(reason) => r matches CheckStep::Done(Ok(ProofRequestStatus::Failed { error }))
                    && error@ == "Failed to decode fulfillment data: "@ + reason@,
                Ok(None) => r matches CheckStep::Done(Ok(ProofRequestStatus::Failed { error }))
                    && error@ == "Missing journal in fulfillment data"@,
                Ok(Some(journal)) => if proof_type is Batch && image is Some {
                    r matches CheckStep::DecodeReceipt { image_id, seal, journal: to_decode }
                        && image_id@ == image->0@ && seal@ == fulfillment.seal@ && to_decode@
                        == journal@
                } else {
                    r matches CheckStep::Done(outcome) && proves(
                        outcome,
                        id,
                        fulfillment.seal@,
                        journal@,
                        None,
                    )
                },
            },
        },
{
    if let Ok(fulfillment) = fetched {
        if let Ok(Some(journal)) = fulfillment.journal {
            if let CheckStep::Done(outcome) = r {
                if !(proof_type is Batch && image is Some) {
                    lemma_proof_reads_back(id, fulfillment.seal, journal, None, outcome);
                }
            }
        }
    }
}

/// The threshold is what the environment sets where that reads as a number other than zero, and
/// five where it does not or where nothing is set.
pub proof fn law_threshold_is_set_or_five(
    setting: Option<String>,
    text: &str,
    read: Option<u32>,
    r: u32,
)
    requires
        call_ensures(poll_error_threshold, (setting,), r),
        setting matches Some(s) ==> text@ == s@,
        call_ensures(parse_u32, (text,), read),
    ensures
        setting is None ==> r == 5,
        setting is Some ==> (read matches Some(n) ==> r == if n > 0 {
            n
        } else {
            5
        }),
        setting is Some && read is None ==> r == 5,
        r > 0,
{
}

/// Polling goes on after a report that does not end the request and after a failed poll that is
/// tolerated, and ends otherwise; there is something to store unless the poll failed and is
/// tolerated.
pub proof fn law_poll_plans_say_what_follows(
    plan: PollPlan,
    again: bool,
    status: Option<&ProofRequestStatus>,
)
    requires
        call_ensures(PollPlan::keeps_polling, (&plan,), again),
        call_ensures(PollPlan::status, (&plan,), status),
    ensures
        match plan {
            PollPlan::Report(reported) => (status matches Some(told) && told@ == reported@) && (again
                <==> !(reported is Fulfilled) && !(reported is Failed)),
            PollPlan::GiveUp(failed) => (status matches Some(told) && told@ == failed@) && !again,
            PollPlan::Wait => status is None && again,
        },
{
}

/// Each step to the market has an error of its own, which tells the step and the reason.
pub proof fn law_each_stage_has_its_error(stage: SubmitStage, detail: &str, r: AgentError)
    requires
        call_ensures(stage_error, (stage, detail), r),
    ensures
        stage is ProcessInput ==> (r matches AgentError::GuestEnvEncodeError(text) && text@
            == "Failed to process input: "@ + detail@),
        stage is UploadInput ==> (r matches AgentError::UploadError(text) && text@
            == "Failed to upload input: "@ + detail@),
        stage is BuildRequest ==> (r matches AgentError::RequestBuildError(text) && text@
            == "Failed to build request: "@ + detail@),
        stage is SubmitRequest ==> (r matches AgentError::RequestSubmitError(text) && text@
            == "Failed to submit to market: "@ + detail@),
{
}

/// An encoded input is handed on as it is; a failed encoding is an error that tells the reason.
pub proof fn law_encoded_input_is_handed_on(
    encoded: Result<Vec<u8>, String>,
    r: AgentResult<Vec<u8>>,
)
    requires
        call_ensures(process_input, (encoded,), r),
    ensures
        encoded is Ok ==> r is Ok && r->Ok_0@ == encoded->Ok_0@,
        encoded matches Err(reason) ==> (r matches Err(AgentError::ClientBuildError(text)) && text@
            == "Failed to encode guest environment: "@ + reason@),
{
}

/// Requests go the way that the settings say; each way has its name and its error.
pub proof fn law_routes_are_told_apart(
    prover: BoundlessProver,
    detail: &str,
    route: SubmitRoute,
    name: &'static str,
    error: AgentError,
)
    requires
        call_ensures(BoundlessProver::submit_route, (&prover,), route),
        call_ensures(SubmitRoute::operation_name, (&route,), name),
        call_ensures(SubmitRoute::attempt_error, (&route, detail), error),
    ensures
        prover.config.offchain ==> route is Offchain && name@ == "submit_request_offchain"@ && (
        error matches AgentError::RequestSubmitError(text) && text@
            == "Failed to submit request offchain: "@ + detail@),
        !prover.config.offchain ==> route is Onchain && name@ == "submit_request_onchain"@ && (
        error matches AgentError::RequestSubmitError(text) && text@
            == "Failed to submit request onchain: "@ + detail@),
{
}

/// Each operation is retried under its own name: a submission and a fetch of a fulfillment five
/// times, any other three times.
pub proof fn law_operations_are_bounded(
    operation: Operation,
    route_name: &'static str,
    name: &'static str,
    attempts: u32,
)
    requires
        call_ensures(Operation::name, (&operation,), name),
        call_ensures(Operation::max_attempts, (&operation,), attempts),
        operation matches Operation::Submit(route) ==> call_ensures(
            SubmitRoute::operation_name,
            (&route,),
            route_name,
        ),
    ensures
        operation is BuildClient ==> name@ == "build_boundless_client"@ && attempts == 3,
        operation is GetStatus ==> name@ == "get_market_status"@ && attempts == 3,
        operation is GetFulfillment ==> name@ == "get_request_fulfillment"@ && attempts == 5,
        operation is CheckStatus ==> name@ == "check_market_status_polling"@ && attempts == 3,
        operation is Submit ==> name@ == route_name@ && attempts == 5,
{
}

/// Polls are as far apart as is configured, and never less than five seconds.
pub proof fn law_polls_keep_their_distance(prover: BoundlessProver, r: u64)
    requires
        call_ensures(BoundlessProver::poll_interval_secs, (&prover,), r),
    ensures
        r >= 5,
        r >= prover.config.pull_interval,
        r == 5 || r == prover.config.pull_interval,
{
}

/// A request whose program is uploaded is offered as the configuration says for its type; one whose
/// program is not is refused, with a text that names the type.
pub proof fn law_offer_goes_with_the_type(
    prover: BoundlessProver,
    proof_type: ProofType,
    origin: Origin,
    uploaded: bool,
    batch: BoundlessOfferParams,
    aggregation: BoundlessOfferParams,
    r: Result<BoundlessOfferParams, String>,
)
    requires
        call_ensures(
            BoundlessProver::submission_offer,
            (&prover, &proof_type, origin, uploaded),
            r,
        ),
        call_ensures(BoundlessConfig::get_batch_offer_params, (&prover.boundless_config,), batch),
        call_ensures(
            BoundlessConfig::get_aggregation_offer_params,
            (&prover.boundless_config,),
            aggregation,
        ),
    ensures
        r is Ok <==> uploaded,
        r matches Ok(offer) ==> match proof_type {
            ProofType::Batch => same_offer(offer, batch),
            ProofType::Aggregate => same_offer(offer, aggregation),
        },
        r matches Err(message) ==> ({
            let missing = match proof_type {
                ProofType::Batch => {
                    "Batch image not uploaded. Please upload via /upload-image endpoint first."@
                },
                ProofType::Aggregate => {
                    "Aggregation image not uploaded. Please upload via /upload-image endpoint first."@
                },
            };
            message@ == match origin {
                Origin::Submitted => missing,
                Origin::Retried => "Retry error: "@ + missing,
            }
        }),
{
}

} // verus!
