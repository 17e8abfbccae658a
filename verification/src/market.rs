//! The dealings with the market: what a poll of a request's status comes to, when polling ends,
//! and how a request gets onto the market.

use crate::config::BoundlessOfferParams;
use crate::error::{AgentError, AgentErrorView, AgentResult};
use crate::prover::BoundlessProver;
use crate::prover::ProverView;
use crate::response::encode_response;
use crate::response::response_bytes;
use crate::text::{decimal, parsed_u32};
use crate::text::{decimal_text, join, join4, parse_u32};
use crate::types::{text_view, StatusView};
use crate::types::{AsyncProofRequest, ProofRequestStatus, ProofType, Risc0Response};
use crate::u256::U256;
use vstd::prelude::*;

verus! {

/// How often a submission, and a fetch of a fulfillment, is tried.
pub const MAX_RETRY_ATTEMPTS: u32 = 5;

/// How often a status poll, and the set-up of the market client, is tried.
pub const STATUS_RETRY_ATTEMPTS: u32 = 3;

/// How many polls in a row must fail before a request is given up, where nothing else is set.
pub const DEFAULT_POLL_ERROR_THRESHOLD: u32 = 5;

/// The shortest time between two polls of a request, in seconds.
pub const MIN_POLL_INTERVAL_SECS: u64 = 5;

/// The time after which an unfinished request is given up, in seconds.
pub const POLLING_TIMEOUT_SECS: u64 = 3600;

/// The size in millions of cycles that every request is offered with.
pub const OFFERED_MCYCLES: u32 = 6000;

/// The status that the market gives a request.
#[derive(Clone, Copy, Debug, PartialEq, Eq, Structural)]
pub enum MarketStatus {
    /// Open for bidding.
    Unknown,
    /// A prover has committed to it.
    Locked,
    /// The proof is there.
    Fulfilled,
    /// No proof came in time.
    Expired,
}

/// What the market hands out for a fulfilled request.
#[derive(Debug)]
pub struct Fulfillment {
    pub seal: Vec<u8>,
    /// The journal in the fulfillment's data, where it has one, or why the data could not be
    /// decoded.
    pub journal: Result<Option<Vec<u8>>, String>,
}

/// What a fulfillment says.
#[verifier::ext_equal]
pub struct FulfillmentView {
    pub seal: Seq<u8>,
    pub journal: Result<Option<Seq<u8>>, Seq<char>>,
}

impl View for Fulfillment {
    type V = FulfillmentView;

    open spec fn view(&self) -> FulfillmentView {
        FulfillmentView {
            seal: self.seal@,
            journal: match self.journal {
                Ok(Some(bytes)) => Ok(Some(bytes@)),
                Ok(None) => Ok(None),
                Err(message) => Err(message@),
            },
        }
    }
}

/// What to do next to learn the status of a request.
#[derive(Debug)]
pub enum CheckStep {
    /// The status is known, or the check has failed.
    Done(AgentResult<ProofRequestStatus>),
    /// Fetch the fulfillment of the request.
    FetchFulfillment,
    /// Decode the receipt in the seal of a batch.
    DecodeReceipt { image_id: [u8; 32], seal: Vec<u8>, journal: Vec<u8> },
}

/// What the next step of a check says.
#[verifier::ext_equal]
pub enum CheckView {
    Done(Result<StatusView, AgentErrorView>),
    FetchFulfillment,
    DecodeReceipt { image_id: Seq<u8>, seal: Seq<u8>, journal: Seq<u8> },
}

/// What a status or an error says.
pub open spec fn status_result(r: AgentResult<ProofRequestStatus>) -> Result<
    StatusView,
    AgentErrorView,
> {
    match r {
        Ok(status) => Ok(status@),
        Err(error) => Err(error@),
    }
}

impl View for CheckStep {
    type V = CheckView;

    open spec fn view(&self) -> CheckView {
        match *self {
            CheckStep::Done(outcome) => CheckView::Done(status_result(outcome)),
            CheckStep::FetchFulfillment => CheckView::FetchFulfillment,
            CheckStep::DecodeReceipt { image_id, seal, journal } => CheckView::DecodeReceipt {
                image_id: image_id@,
                seal: seal@,
                journal: journal@,
            },
        }
    }
}

/// What the market's status of a request comes to.
pub open spec fn market_status_checked(
    market_request_id: U256,
    polled: Result<MarketStatus, AgentErrorView>,
) -> CheckView {
    match polled {
        Ok(MarketStatus::Unknown) => CheckView::Done(Ok(StatusView::Submitted { market_request_id })),
        Ok(MarketStatus::Locked) => CheckView::Done(
            Ok(StatusView::Locked { market_request_id, prover: None }),
        ),
        Ok(MarketStatus::Fulfilled) => CheckView::FetchFulfillment,
        Ok(MarketStatus::Expired) => CheckView::Done(
            Ok(StatusView::Failed { error: "Request expired in boundless market"@ }),
        ),
        Err(error) => CheckView::Done(
            Err(
                AgentErrorView::PollingError(
                    "Failed to check market status: "@ + error.message(),
                ),
            ),
        ),
    }
}

/// The status of a request whose response is complete.
pub open spec fn fulfilled(
    market_request_id: U256,
    seal: Seq<u8>,
    journal: Seq<u8>,
    receipt: Option<Seq<char>>,
) -> StatusView {
    StatusView::Fulfilled { market_request_id, proof: response_bytes(seal, journal, receipt) }
}

/// What the fulfillment of a request comes to. The receipt is decoded for a batch alone, and
/// only where the image of the batch program is known.
pub open spec fn fulfillment_checked(
    market_request_id: U256,
    proof_type: ProofType,
    batch_image_id: Option<Seq<u8>>,
    fetched: Result<FulfillmentView, AgentErrorView>,
) -> CheckView {
    match fetched {
        Err(error) => CheckView::Done(
            Err(AgentErrorView::PollingError("Failed to get proof data: "@ + error.message())),
        ),
        Ok(fulfillment) => match fulfillment.journal {
            Err(message) => CheckView::Done(
                Ok(
                    StatusView::Failed {
                        error: AgentErrorView::FulfillmentDecodeError(message).message(),
                    },
                ),
            ),
            Ok(None) => CheckView::Done(
                Ok(StatusView::Failed { error: AgentErrorView::MissingJournalError.message() }),
            ),
            Ok(Some(journal)) => match (proof_type, batch_image_id) {
                (ProofType::Batch, Some(image_id)) => CheckView::DecodeReceipt {
                    image_id,
                    seal: fulfillment.seal,
                    journal,
                },
                _ => CheckView::Done(
                    Ok(fulfilled(market_request_id, fulfillment.seal, journal, None)),
                ),
            },
        },
    }
}

/// What the market's status of a request comes to.
pub fn check_market_status(market_request_id: U256, polled: AgentResult<MarketStatus>) -> (r:
    CheckStep)
    ensures
        r@ == market_status_checked(
            market_request_id,
            match polled {
                Ok(status) => Ok(status),
                Err(error) => Err(error@),
            },
        ),
{
    match polled {
        Ok(status) => match status {
            MarketStatus::Unknown => CheckStep::Done(
                Ok(ProofRequestStatus::Submitted { market_request_id }),
            ),
            MarketStatus::Locked => CheckStep::Done(
                Ok(ProofRequestStatus::Locked { market_request_id, prover: None }),
            ),
            MarketStatus::Fulfilled => CheckStep::FetchFulfillment,
            MarketStatus::Expired => CheckStep::Done(
                Ok(
                    ProofRequestStatus::Failed {
                        error: "Request expired in boundless market".to_owned(),
                    },
                ),
            ),
        },
        Err(error) => CheckStep::Done(
            Err(
                AgentError::PollingError(
                    join("Failed to check market status: ", error.message().as_str()),
                ),
            ),
        ),
    }
}

/// The status of a fulfilled request, given what encoding its response came to.
pub fn fulfilled_status(market_request_id: U256, encoded: Result<Vec<u8>, String>) -> (r:
    AgentResult<ProofRequestStatus>)
    ensures
        status_result(r) == match encoded {
            Ok(proof) => Ok::<StatusView, AgentErrorView>(
                StatusView::Fulfilled { market_request_id, proof: proof@ },
            ),
            Err(message) => Err(
                AgentErrorView::ResponseEncodeError("Failed to encode response: "@ + message@),
            ),
        },
{
    match encoded {
        Ok(proof) => Ok(ProofRequestStatus::Fulfilled { market_request_id, proof }),
        Err(message) => Err(
            AgentError::ResponseEncodeError(join("Failed to encode response: ", message.as_str())),
        ),
    }
}

/// The status of a fulfilled request with a seal, a journal and, where it could be decoded, a
/// receipt.
pub fn check_receipt(
    market_request_id: U256,
    seal: Vec<u8>,
    journal: Vec<u8>,
    receipt: Option<String>,
) -> (r: AgentResult<ProofRequestStatus>)
    ensures
        status_result(r) == Ok::<StatusView, AgentErrorView>(
            fulfilled(market_request_id, seal@, journal@, text_view(receipt)),
        ),
{
    let response = Risc0Response { seal, journal, receipt };
    fulfilled_status(market_request_id, encode_response(&response))
}

/// What decoding the seal of a batch came to.
#[derive(Debug)]
pub enum DecodedSeal {
    /// A receipt of its own, as JSON text, or why it could not be written as such.
    Base(Result<String, String>),
    /// A receipt of another kind.
    Other,
    /// Nothing, and why.
    Undecodable(String),
}

impl DecodedSeal {
    /// The receipt that a response carries.
    pub open spec fn receipt(self) -> Option<Seq<char>> {
        match self {
            DecodedSeal::Base(Ok(text)) => Some(text@),
            _ => None,
        }
    }
}

/// The receipt that a response carries: a receipt of its own as JSON text, and none for a receipt
/// of another kind, for one that cannot be written, or for a seal that cannot be decoded.
pub fn receipt_of(decoded: DecodedSeal) -> (r: Option<String>)
    ensures
        text_view(r) == decoded.receipt(),
{
    match decoded {
        DecodedSeal::Base(Ok(text)) => Some(text),
        _ => None,
    }
}

/// The status of a fulfilled batch, given what decoding its seal came to. A seal without a receipt
/// of its own does not fail the request.
pub fn check_seal(
    market_request_id: U256,
    seal: Vec<u8>,
    journal: Vec<u8>,
    decoded: DecodedSeal,
) -> (r: AgentResult<ProofRequestStatus>)
    ensures
        status_result(r) == Ok::<StatusView, AgentErrorView>(
            fulfilled(market_request_id, seal@, journal@, decoded.receipt()),
        ),
{
    check_receipt(market_request_id, seal, journal, receipt_of(decoded))
}

/// What the fulfillment of a request comes to.
pub fn check_fulfillment(
    market_request_id: U256,
    proof_type: &ProofType,
    batch_image_id: Option<[u8; 32]>,
    fetched: AgentResult<Fulfillment>,
) -> (r: CheckStep)
    ensures
        r@ == fulfillment_checked(
            market_request_id,
            *proof_type,
            match batch_image_id {
                Some(image_id) => Some(image_id@),
                None => None,
            },
            match fetched {
                Ok(fulfillment) => Ok(fulfillment@),
                Err(error) => Err(error@),
            },
        ),
{
    let fulfillment = match fetched {
        Ok(fulfillment) => fulfillment,
        Err(error) => {
            return CheckStep::Done(
                Err(
                    AgentError::PollingError(
                        join("Failed to get proof data: ", error.message().as_str()),
                    ),
                ),
            );
        },
    };
    let journal = match fulfillment.journal {
        Ok(Some(journal)) => journal,
        Ok(None) => {
            return CheckStep::Done(
                Ok(ProofRequestStatus::Failed { error: AgentError::MissingJournalError.message() }),
            );
        },
        Err(message) => {
            return CheckStep::Done(
                Ok(
                    ProofRequestStatus::Failed {
                        error: AgentError::FulfillmentDecodeError(message).message(),
                    },
                ),
            );
        },
    };
    match (proof_type, batch_image_id) {
        (ProofType::Batch, Some(image_id)) => CheckStep::DecodeReceipt {
            image_id,
            seal: fulfillment.seal,
            journal,
        },
        _ => CheckStep::Done(check_receipt(market_request_id, fulfillment.seal, journal, None)),
    }
}

/// The threshold that the environment sets, else the default: how many polls in a row must fail
/// before a request is given up.
pub open spec fn threshold(setting: Option<Seq<char>>) -> u32 {
    match setting {
        Some(text) => match parsed_u32(text) {
            Some(n) if n > 0 => n,
            _ => DEFAULT_POLL_ERROR_THRESHOLD,
        },
        None => DEFAULT_POLL_ERROR_THRESHOLD,
    }
}

/// How many polls in a row must fail before a request is given up.
pub fn poll_error_threshold(setting: Option<String>) -> (r: u32)
    ensures
        r == threshold(text_view(setting)),
        r > 0,
{
    if let Some(text) = setting {
        if let Some(n) = parse_u32(text.as_str()) {
            if n > 0 {
                return n;
            }
        }
    }
    DEFAULT_POLL_ERROR_THRESHOLD
}

/// What a poll of a request comes to.
#[derive(Debug)]
pub enum PollPlan {
    /// Store the status that was polled.
    Report(ProofRequestStatus),
    /// Too many polls have failed: store that the request has failed.
    GiveUp(ProofRequestStatus),
    /// The poll has failed, and there is nothing to store.
    Wait,
}

/// What the plan after a poll says.
#[verifier::ext_equal]
pub enum PollView {
    Report(StatusView),
    GiveUp(StatusView),
    Wait,
}

impl View for PollPlan {
    type V = PollView;

    open spec fn view(&self) -> PollView {
        match *self {
            PollPlan::Report(status) => PollView::Report(status@),
            PollPlan::GiveUp(status) => PollView::GiveUp(status@),
            PollPlan::Wait => PollView::Wait,
        }
    }
}

impl PollView {
    /// Whether the request is to be polled again.
    pub open spec fn keeps_polling(self) -> bool {
        match self {
            PollView::Report(status) => !status.is_terminal(),
            PollView::GiveUp(_) => false,
            PollView::Wait => true,
        }
    }

    /// The status that is to be stored.
    pub open spec fn status(self) -> Option<StatusView> {
        match self {
            PollView::Report(status) => Some(status),
            PollView::GiveUp(status) => Some(status),
            PollView::Wait => None,
        }
    }
}

impl PollPlan {
    /// Whether the request is to be polled again.
    pub fn keeps_polling(&self) -> (r: bool)
        ensures
            r == self@.keeps_polling(),
    {
        match self {
            PollPlan::Report(status) => !status.is_terminal(),
            PollPlan::GiveUp(_) => false,
            PollPlan::Wait => true,
        }
    }

    /// The status that is to be stored.
    pub fn status(&self) -> (r: Option<&ProofRequestStatus>)
        ensures
            match r {
                Some(status) => self@.status() == Some(status@),
                None => self@.status() is None,
            },
    {
        match self {
            PollPlan::Report(status) => Some(status),
            PollPlan::GiveUp(status) => Some(status),
            PollPlan::Wait => None,
        }
    }
}

/// The status of a request whose polls have failed too often.
pub open spec fn polling_given_up(threshold: u32, error: AgentErrorView) -> StatusView {
    StatusView::Failed {
        error: "Polling error threshold exceeded ("@ + decimal(threshold as nat)
            + " consecutive errors). Last error: "@ + error.message(),
    }
}

/// The status of a request that has not been fulfilled in time.
pub open spec fn timed_out() -> StatusView {
    StatusView::Failed { error: "Request timed out after 1 hour"@ }
}

impl ProverView {
    /// How many polls of a request have failed in a row.
    pub open spec fn poll_error_count(self, id: Seq<char>) -> u32 {
        if self.poll_errors.contains_key(id) {
            self.poll_errors[id]
        } else {
            0
        }
    }

    /// With one more failed poll of a request.
    pub open spec fn poll_error_recorded(self, id: Seq<char>) -> ProverView {
        ProverView {
            poll_errors: self.poll_errors.insert(id, (self.poll_error_count(id) + 1) as u32),
            ..self
        }
    }

    /// What is in memory after a poll of a request, and what the poll comes to.
    pub open spec fn polled(
        self,
        id: Seq<char>,
        outcome: Result<StatusView, AgentErrorView>,
        threshold: u32,
    ) -> (ProverView, PollView) {
        match outcome {
            Ok(status) => (
                self.without_poll_errors(id).status_noted(id, status),
                PollView::Report(status),
            ),
            Err(error) => {
                let counted = self.poll_error_recorded(id);
                if counted.poll_error_count(id) >= threshold {
                    let status = polling_given_up(threshold, error);
                    (counted.status_noted(id, status), PollView::GiveUp(status))
                } else {
                    (counted, PollView::Wait)
                }
            },
        }
    }

    /// What is in memory once storage has been told of what a poll came to, or has failed to
    /// take it.
    pub open spec fn poll_stored(self, id: Seq<char>, plan: PollView, stored: bool) -> ProverView {
        match plan {
            PollView::Report(status) => if stored {
                self.status_stored(id, status)
            } else {
                self.status_refused(id, status)
            },
            PollView::GiveUp(status) => if stored {
                self.status_stored(id, status).without_poll_errors(id)
            } else {
                self.status_refused(id, status).without_poll_errors(id)
            },
            PollView::Wait => self,
        }
    }

    /// With a request on the market under an id of the market's.
    pub open spec fn submitted(self, id: Seq<char>, market_request_id: U256) -> ProverView {
        if self.active.contains_key(id) {
            self.with_request(
                id,
                (crate::types::RequestView {
                    market_request_id,
                    status: StatusView::Submitted { market_request_id },
                    ..self.active[id]
                }),
            )
        } else {
            self
        }
    }
}

/// Where a request to be sent to the market comes from.
#[derive(Clone, Copy, Debug, PartialEq, Eq, Structural)]
pub enum Origin {
    /// It was submitted.
    Submitted,
    /// It failed before and was taken up again.
    Retried,
}

/// Why a request of a type cannot be sent to the market before its program is uploaded.
pub open spec fn image_missing(proof_type: ProofType) -> Seq<char> {
    match proof_type {
        ProofType::Batch => {
            "Batch image not uploaded. Please upload via /upload-image endpoint first."@
        },
        ProofType::Aggregate => {
            "Aggregation image not uploaded. Please upload via /upload-image endpoint first."@
        },
    }
}

/// The steps by which a request gets onto the market that an error can come from.
#[derive(Clone, Copy, Debug, PartialEq, Eq, Structural)]
pub enum SubmitStage {
    ProcessInput,
    UploadInput,
    BuildRequest,
    SubmitRequest,
}

/// The error of a step by which a request gets onto the market.
pub open spec fn stage_failure(stage: SubmitStage, detail: Seq<char>) -> AgentErrorView {
    match stage {
        SubmitStage::ProcessInput => AgentErrorView::GuestEnvEncodeError(
            "Failed to process input: "@ + detail,
        ),
        SubmitStage::UploadInput => AgentErrorView::UploadError(
            "Failed to upload input: "@ + detail,
        ),
        SubmitStage::BuildRequest => AgentErrorView::RequestBuildError(
            "Failed to build request: "@ + detail,
        ),
        SubmitStage::SubmitRequest => AgentErrorView::RequestSubmitError(
            "Failed to submit to market: "@ + detail,
        ),
    }
}

/// The error of a step by which a request gets onto the market.
pub fn stage_error(stage: SubmitStage, detail: &str) -> (r: AgentError)
    ensures
        r@ == stage_failure(stage, detail@),
{
    match stage {
        SubmitStage::ProcessInput => AgentError::GuestEnvEncodeError(
            join("Failed to process input: ", detail),
        ),
        SubmitStage::UploadInput => AgentError::UploadError(
            join("Failed to upload input: ", detail),
        ),
        SubmitStage::BuildRequest => AgentError::RequestBuildError(
            join("Failed to build request: ", detail),
        ),
        SubmitStage::SubmitRequest => AgentError::RequestSubmitError(
            join("Failed to submit to market: ", detail),
        ),
    }
}

/// The encoded input of the guest, given what encoding it came to.
pub fn process_input(encoded: Result<Vec<u8>, String>) -> (r: AgentResult<Vec<u8>>)
    ensures
        match (r, encoded) {
            (Ok(bytes), Ok(given)) => bytes == given,
            (Err(error), Err(message)) => error@ == AgentErrorView::ClientBuildError(
                "Failed to encode guest environment: "@ + message@,
            ),
            _ => false,
        },
{
    match encoded {
        Ok(bytes) => Ok(bytes),
        Err(message) => Err(
            AgentError::ClientBuildError(
                join("Failed to encode guest environment: ", message.as_str()),
            ),
        ),
    }
}

/// The two ways of submitting a request.
#[derive(Clone, Copy, Debug, PartialEq, Eq, Structural)]
pub enum SubmitRoute {
    Offchain,
    Onchain,
}

impl SubmitRoute {
    /// The name under which retries of the submission are reported.
    pub open spec fn operation(self) -> Seq<char> {
        match self {
            SubmitRoute::Offchain => "submit_request_offchain"@,
            SubmitRoute::Onchain => "submit_request_onchain"@,
        }
    }

    /// The name under which retries of the submission are reported.
    pub fn operation_name(&self) -> (r: &'static str)
        ensures
            r@ == self.operation(),
    {
        match self {
            SubmitRoute::Offchain => "submit_request_offchain",
            SubmitRoute::Onchain => "submit_request_onchain",
        }
    }

    /// The error of one attempt to submit.
    pub fn attempt_error(&self, detail: &str) -> (r: AgentError)
        ensures
            r@ == AgentErrorView::RequestSubmitError(
                match *self {
                    SubmitRoute::Offchain => "Failed to submit request offchain: "@ + detail@,
                    SubmitRoute::Onchain => "Failed to submit request onchain: "@ + detail@,
                },
            ),
    {
        match self {
            SubmitRoute::Offchain => AgentError::RequestSubmitError(
                join("Failed to submit request offchain: ", detail),
            ),
            SubmitRoute::Onchain => AgentError::RequestSubmitError(
                join("Failed to submit request onchain: ", detail),
            ),
        }
    }
}

/// The operations that are tried again where they fail for a moment.
#[derive(Clone, Copy, Debug, PartialEq, Eq, Structural)]
pub enum Operation {
    /// Build the market client.
    BuildClient,
    /// Ask the market for the status of a request.
    GetStatus,
    /// Fetch the fulfillment of a request.
    GetFulfillment,
    /// Learn the status of a request, with all that it takes.
    CheckStatus,
    /// Submit a request.
    Submit(SubmitRoute),
}

impl Operation {
    /// The name under which retries of the operation are reported.
    pub open spec fn label(self) -> Seq<char> {
        match self {
            Operation::BuildClient => "build_boundless_client"@,
            Operation::GetStatus => "get_market_status"@,
            Operation::GetFulfillment => "get_request_fulfillment"@,
            Operation::CheckStatus => "check_market_status_polling"@,
            Operation::Submit(route) => route.operation(),
        }
    }

    /// The name under which retries of the operation are reported.
    pub fn name(&self) -> (r: &'static str)
        ensures
            r@ == self.label(),
    {
        match self {
            Operation::BuildClient => "build_boundless_client",
            Operation::GetStatus => "get_market_status",
            Operation::GetFulfillment => "get_request_fulfillment",
            Operation::CheckStatus => "check_market_status_polling",
            Operation::Submit(route) => route.operation_name(),
        }
    }

    /// How often the operation is tried: less often where it is part of a poll, which comes again.
    pub fn max_attempts(&self) -> (r: u32)
        ensures
            r == match *self {
                Operation::GetFulfillment | Operation::Submit(_) => MAX_RETRY_ATTEMPTS,
                _ => STATUS_RETRY_ATTEMPTS,
            },
    {
        match self {
            Operation::GetFulfillment => MAX_RETRY_ATTEMPTS,
            Operation::Submit(_) => MAX_RETRY_ATTEMPTS,
            _ => STATUS_RETRY_ATTEMPTS,
        }
    }
}

impl BoundlessProver {
    /// The seconds between two polls of a request: the configured interval, but never less than
    /// the shortest one.
    pub fn poll_interval_secs(&self) -> (r: u64)
        ensures
            r == if self@.config.pull_interval >= MIN_POLL_INTERVAL_SECS {
                self@.config.pull_interval
            } else {
                MIN_POLL_INTERVAL_SECS
            },
    {
        if self.config.pull_interval >= MIN_POLL_INTERVAL_SECS {
            self.config.pull_interval
        } else {
            MIN_POLL_INTERVAL_SECS
        }
    }

    /// How many polls of a request have failed in a row.
    pub fn poll_error_count(&self, request_id: &str) -> (r: u32)
        ensures
            r == self@.poll_error_count(request_id@),
    {
        match self.poll_error_counts.get(request_id) {
            Some(count) => *count,
            None => 0,
        }
    }

    /// Takes note of a failed poll of a request, and says how many have failed in a row.
    pub fn record_poll_error(&mut self, request_id: &str) -> (r: u32)
        requires
            old(self)@.poll_error_count(request_id@) < u32::MAX,
        ensures
            final(self)@ == old(self)@.poll_error_recorded(request_id@),
            r == old(self)@.poll_error_count(request_id@) + 1,
    {
        let count: u32 = self.poll_error_count(request_id) + 1;
        self.poll_error_counts.insert(request_id.to_owned(), count);
        count
    }

    /// Decides what a poll of a request comes to. A successful poll starts the count of failed
    /// ones anew; the request is given up when the count reaches the threshold.
    pub fn begin_poll(
        &mut self,
        request_id: &str,
        outcome: AgentResult<ProofRequestStatus>,
        threshold: u32,
    ) -> (r: PollPlan)
        requires
            outcome is Err ==> old(self)@.poll_error_count(request_id@) < u32::MAX,
        ensures
            (final(self)@, r@) == old(self)@.polled(request_id@, status_result(outcome), threshold),
    {
        match outcome {
            Ok(status) => {
                self.clear_poll_errors(request_id);
                self.begin_status_update(request_id, &status);
                PollPlan::Report(status)
            },
            Err(error) => {
                let count = self.record_poll_error(request_id);
                if count >= threshold {
                    let status = ProofRequestStatus::Failed {
                        error: join4(
                            "Polling error threshold exceeded (",
                            decimal_text(threshold).as_str(),
                            " consecutive errors). Last error: ",
                            error.message().as_str(),
                        ),
                    };
                    self.begin_status_update(request_id, &status);
                    PollPlan::GiveUp(status)
                } else {
                    PollPlan::Wait
                }
            },
        }
    }

    /// Goes on after a poll once storage has been told of what it came to, and says whether to
    /// poll again.
    pub fn finish_poll(&mut self, request_id: &str, plan: &PollPlan, stored: AgentResult<()>) -> (r:
        bool)
        ensures
            final(self)@ == old(self)@.poll_stored(request_id@, plan@, stored is Ok),
            r == plan@.keeps_polling(),
    {
        match plan {
            PollPlan::Report(status) => {
                let _ = self.finish_status_update(request_id, status, stored);
            },
            PollPlan::GiveUp(status) => {
                let _ = self.finish_status_update(request_id, status, stored);
                self.clear_poll_errors(request_id);
            },
            PollPlan::Wait => {},
        }
        plan.keeps_polling()
    }

    /// Takes note that a request has not been fulfilled in time, and hands back the status that
    /// is to be stored.
    pub fn handle_polling_timeout(&mut self, request_id: &str) -> (r: ProofRequestStatus)
        ensures
            r@ == timed_out(),
            final(self)@ == old(self)@.status_noted(request_id@, timed_out()),
    {
        let status = ProofRequestStatus::Failed {
            error: "Request timed out after 1 hour".to_owned(),
        };
        self.begin_status_update(request_id, &status);
        status
    }

    /// Drops a request that has not been fulfilled in time from memory, whether or not storage
    /// took the status.
    pub fn finish_polling_timeout(
        &mut self,
        request_id: &str,
        status: &ProofRequestStatus,
        stored: AgentResult<()>,
    )
        ensures
            final(self)@ == if stored is Ok {
                old(self)@.status_stored(request_id@, status@).without_request(request_id@)
            } else {
                old(self)@.without_request(request_id@)
            },
    {
        let _ = self.finish_status_update(request_id, status, stored);
        let _ = self.forget(request_id);
    }

    /// The offer that a request is sent to the market with, or why it cannot be sent.
    pub fn submission_offer(&self, proof_type: &ProofType, origin: Origin, image_uploaded: bool)
        -> (r: Result<BoundlessOfferParams, String>)
        ensures
            match r {
                Ok(offer) => image_uploaded && offer@ == match *proof_type {
                    ProofType::Batch => self@.boundless_config.batch_offer(),
                    ProofType::Aggregate => self@.boundless_config.aggregation_offer(),
                },
                Err(message) => !image_uploaded && message@ == match origin {
                    Origin::Submitted => image_missing(*proof_type),
                    Origin::Retried => AgentErrorView::RetryError(
                        image_missing(*proof_type),
                    ).message(),
                },
            },
    {
        if image_uploaded {
            return Ok(
                match proof_type {
                    ProofType::Batch => self.boundless_config.get_batch_offer_params(),
                    ProofType::Aggregate => self.boundless_config.get_aggregation_offer_params(),
                },
            );
        }
        let missing = match proof_type {
            ProofType::Batch => {
                "Batch image not uploaded. Please upload via /upload-image endpoint first."
            },
            ProofType::Aggregate => {
                "Aggregation image not uploaded. Please upload via /upload-image endpoint first."
            },
        };
        Err(
            match origin {
                Origin::Submitted => missing.to_owned(),
                Origin::Retried => AgentError::RetryError(missing.to_owned()).message(),
            },
        )
    }

    /// The way in which requests are submitted.
    pub fn submit_route(&self) -> (r: SubmitRoute)
        ensures
            r == self@.submit_route(),
    {
        if self.config.offchain {
            SubmitRoute::Offchain
        } else {
            SubmitRoute::Onchain
        }
    }

    /// Takes note that a request is on the market, and hands back the status that is to be
    /// stored.
    pub fn mark_submitted(&mut self, request_id: &str, market_request_id: U256) -> (r:
        ProofRequestStatus)
        ensures
            r@ == (StatusView::Submitted { market_request_id }),
            final(self)@ == old(self)@.submitted(request_id@, market_request_id),
    {
        let ghost before = self@;
        match self.forget(request_id) {
            Some(request) => {
                let submitted = AsyncProofRequest {
                    market_request_id,
                    status: ProofRequestStatus::Submitted { market_request_id },
                    ..request
                };
                let ghost after = submitted@;
                self.remember(request_id.to_owned(), submitted);
                assert(before.active.remove(request_id@).insert(request_id@, after)
                    =~= before.active.insert(request_id@, after));
            },
            None => {
                assert(before.active.remove(request_id@) =~= before.active);
            },
        }
        ProofRequestStatus::Submitted { market_request_id }
    }
}

/// A poll that fails is never by itself a failure of the request: the check reports an error,
/// and no status.
pub proof fn law_failed_check_is_no_status(
    market_request_id: U256,
    proof_type: ProofType,
    batch_image_id: Option<Seq<u8>>,
    error: AgentErrorView,
)
    ensures
        market_status_checked(market_request_id, Err(error)) matches CheckView::Done(Err(e)) && e is
            PollingError,
        fulfillment_checked(market_request_id, proof_type, batch_image_id, Err(error)) matches
            CheckView::Done(Err(e)) && e is PollingError,
{
}

/// A status that a check reports carries the market's id of the request that was checked.
pub proof fn law_checked_status_carries_the_id(
    market_request_id: U256,
    polled: Result<MarketStatus, AgentErrorView>,
    proof_type: ProofType,
    batch_image_id: Option<Seq<u8>>,
    fetched: Result<FulfillmentView, AgentErrorView>,
)
    ensures
        market_status_checked(market_request_id, polled) matches CheckView::Done(Ok(status)) ==> (
        status.market_id() is Some ==> status.market_id() == Some(market_request_id)),
        fulfillment_checked(market_request_id, proof_type, batch_image_id, fetched) matches
            CheckView::Done(Ok(status)) ==> (status.market_id() is Some ==> status.market_id()
            == Some(market_request_id)),
{
}

} // verus!
