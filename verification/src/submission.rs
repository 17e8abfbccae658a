//! The way of a request onto the market, step by step.

use crate::error::{AgentError, AgentErrorView, AgentResult};
use crate::market::stage_failure;
use crate::market::{process_input, stage_error, SubmitRoute, SubmitStage, OFFERED_MCYCLES};
use crate::offer::{terms_view, TermsView};
use crate::offer::RequestTerms;
use crate::prover::BoundlessProver;
use crate::prover::ProverView;
use crate::text::join;
use crate::types::ProofRequestStatus;
use crate::types::StatusView;
use crate::u256::U256;
use vstd::prelude::*;

verus! {

/// What to do next to get a request onto the market.
#[derive(Debug)]
pub enum SubmitStep {
    /// Get the market client. This is the first step.
    Connect,
    /// Encode the input for the program.
    EncodeInput,
    /// Upload the encoded input for provers to fetch.
    UploadInput { env_bytes: Vec<u8> },
    /// Make the terms of the request for a run of a size.
    MakeTerms { mcycles: u32 },
    /// Build the market's request on the terms.
    BuildRequest { terms: RequestTerms },
    /// Submit the request.
    SubmitRequest { route: SubmitRoute },
    /// Store the status of the submitted request.
    StoreStatus { market_request_id: U256, status: ProofRequestStatus },
    /// The request is on the market: start polling its status. This is the last step.
    Poll { market_request_id: U256 },
    /// The request did not get onto the market.
    Fail(AgentError),
}

/// What the next step of a submission says.
#[verifier::ext_equal]
pub enum SubmitStepView {
    Connect,
    EncodeInput,
    UploadInput { env_bytes: Seq<u8> },
    MakeTerms { mcycles: u32 },
    BuildRequest { terms: TermsView },
    SubmitRequest { route: SubmitRoute },
    StoreStatus { market_request_id: U256, status: StatusView },
    Poll { market_request_id: U256 },
    Fail(AgentErrorView),
}

impl View for SubmitStep {
    type V = SubmitStepView;

    open spec fn view(&self) -> SubmitStepView {
        match *self {
            SubmitStep::Connect => SubmitStepView::Connect,
            SubmitStep::EncodeInput => SubmitStepView::EncodeInput,
            SubmitStep::UploadInput { env_bytes } => SubmitStepView::UploadInput {
                env_bytes: env_bytes@,
            },
            SubmitStep::MakeTerms { mcycles } => SubmitStepView::MakeTerms { mcycles },
            SubmitStep::BuildRequest { terms } => SubmitStepView::BuildRequest { terms: terms@ },
            SubmitStep::SubmitRequest { route } => SubmitStepView::SubmitRequest { route },
            SubmitStep::StoreStatus { market_request_id, status } => SubmitStepView::StoreStatus {
                market_request_id,
                status: status@,
            },
            SubmitStep::Poll { market_request_id } => SubmitStepView::Poll { market_request_id },
            SubmitStep::Fail(error) => SubmitStepView::Fail(error@),
        }
    }
}

/// The step that has been taken, and what it came to.
#[derive(Debug)]
pub enum SubmitEvent {
    Connected(AgentResult<()>),
    Encoded(Result<Vec<u8>, String>),
    Uploaded(Result<(), String>),
    TermsMade(AgentResult<RequestTerms>),
    Built(Result<(), String>),
    Submitted(AgentResult<U256>),
    StatusStored { market_request_id: U256, stored: AgentResult<()> },
}

/// What a step that has been taken came to.
#[verifier::ext_equal]
pub enum SubmitEventView {
    Connected(Result<(), AgentErrorView>),
    Encoded(Result<Seq<u8>, Seq<char>>),
    Uploaded(Result<(), Seq<char>>),
    TermsMade(Result<TermsView, AgentErrorView>),
    Built(Result<(), Seq<char>>),
    Submitted(Result<U256, AgentErrorView>),
    StatusStored { market_request_id: U256, stored: Result<(), AgentErrorView> },
}

impl View for SubmitEvent {
    type V = SubmitEventView;

    open spec fn view(&self) -> SubmitEventView {
        match *self {
            SubmitEvent::Connected(Ok(())) => SubmitEventView::Connected(Ok(())),
            SubmitEvent::Connected(Err(error)) => SubmitEventView::Connected(Err(error@)),
            SubmitEvent::Encoded(Ok(env_bytes)) => SubmitEventView::Encoded(Ok(env_bytes@)),
            SubmitEvent::Encoded(Err(message)) => SubmitEventView::Encoded(Err(message@)),
            SubmitEvent::Uploaded(Ok(())) => SubmitEventView::Uploaded(Ok(())),
            SubmitEvent::Uploaded(Err(message)) => SubmitEventView::Uploaded(Err(message@)),
            SubmitEvent::TermsMade(made) => SubmitEventView::TermsMade(terms_view(made)),
            SubmitEvent::Built(Ok(())) => SubmitEventView::Built(Ok(())),
            SubmitEvent::Built(Err(message)) => SubmitEventView::Built(Err(message@)),
            SubmitEvent::Submitted(Ok(id)) => SubmitEventView::Submitted(Ok(id)),
            SubmitEvent::Submitted(Err(error)) => SubmitEventView::Submitted(Err(error@)),
            SubmitEvent::StatusStored { market_request_id, stored: Ok(()) } => {
                SubmitEventView::StatusStored { market_request_id, stored: Ok(()) }
            },
            SubmitEvent::StatusStored { market_request_id, stored: Err(error) } => {
                SubmitEventView::StatusStored { market_request_id, stored: Err(error@) }
            },
        }
    }
}

impl SubmitStepView {
    /// The place of a step among the steps, `None` for the failure that ends them.
    pub open spec fn place(self) -> Option<int> {
        match self {
            SubmitStepView::Connect => Some(0),
            SubmitStepView::EncodeInput => Some(1),
            SubmitStepView::UploadInput { .. } => Some(2),
            SubmitStepView::MakeTerms { .. } => Some(3),
            SubmitStepView::BuildRequest { .. } => Some(4),
            SubmitStepView::SubmitRequest { .. } => Some(5),
            SubmitStepView::StoreStatus { .. } => Some(6),
            SubmitStepView::Poll { .. } => Some(7),
            SubmitStepView::Fail(_) => None,
        }
    }
}

impl SubmitEventView {
    /// The place among the steps of the step that has been taken.
    pub open spec fn place(self) -> int {
        match self {
            SubmitEventView::Connected(_) => 0,
            SubmitEventView::Encoded(_) => 1,
            SubmitEventView::Uploaded(_) => 2,
            SubmitEventView::TermsMade(_) => 3,
            SubmitEventView::Built(_) => 4,
            SubmitEventView::Submitted(_) => 5,
            SubmitEventView::StatusStored { .. } => 6,
        }
    }

    /// The error that a step ends the submission with. A status that could not be stored is none:
    /// the request is on the market by then.
    pub open spec fn failure(self) -> Option<AgentErrorView> {
        match self {
            SubmitEventView::Connected(Err(error)) => Some(error),
            SubmitEventView::Encoded(Err(message)) => Some(
                stage_failure(
                    SubmitStage::ProcessInput,
                    AgentErrorView::ClientBuildError(
                        "Failed to encode guest environment: "@ + message,
                    ).message(),
                ),
            ),
            SubmitEventView::Uploaded(Err(message)) => Some(
                stage_failure(SubmitStage::UploadInput, message),
            ),
            SubmitEventView::TermsMade(Err(error)) => Some(
                stage_failure(SubmitStage::BuildRequest, error.message()),
            ),
            SubmitEventView::Built(Err(message)) => Some(
                stage_failure(
                    SubmitStage::BuildRequest,
                    AgentErrorView::ClientBuildError(
                        "Failed to build request: "@ + message,
                    ).message(),
                ),
            ),
            SubmitEventView::Submitted(Err(error)) => Some(
                stage_failure(SubmitStage::SubmitRequest, error.message()),
            ),
            _ => None,
        }
    }
}

impl ProverView {
    /// The way in which requests are submitted.
    pub open spec fn submit_route(self) -> SubmitRoute {
        if self.config.offchain {
            SubmitRoute::Offchain
        } else {
            SubmitRoute::Onchain
        }
    }

    /// What is in memory after a step by which a request gets onto the market, and which step
    /// comes next.
    pub open spec fn submit_stepped(self, id: Seq<char>, event: SubmitEventView) -> (
        ProverView,
        SubmitStepView,
    ) {
        match event {
            SubmitEventView::Connected(Ok(())) => (self, SubmitStepView::EncodeInput),
            SubmitEventView::Encoded(Ok(env_bytes)) => (
                self,
                SubmitStepView::UploadInput { env_bytes },
            ),
            SubmitEventView::Uploaded(Ok(())) => (
                self,
                SubmitStepView::MakeTerms { mcycles: OFFERED_MCYCLES },
            ),
            SubmitEventView::TermsMade(Ok(terms)) => (self, SubmitStepView::BuildRequest { terms }),
            SubmitEventView::Built(Ok(())) => (
                self,
                SubmitStepView::SubmitRequest { route: self.submit_route() },
            ),
            SubmitEventView::Submitted(Ok(market_request_id)) => (
                self.submitted(id, market_request_id),
                SubmitStepView::StoreStatus {
                    market_request_id,
                    status: StatusView::Submitted { market_request_id },
                },
            ),
            SubmitEventView::StatusStored { market_request_id, .. } => (
                self,
                SubmitStepView::Poll { market_request_id },
            ),
            _ => (self, SubmitStepView::Fail(event.failure()->0)),
        }
    }
}

/// The error of a market request that could not be built.
pub fn build_failure(detail: &str) -> (r: AgentError)
    ensures
        r@ == AgentErrorView::ClientBuildError("Failed to build request: "@ + detail@),
{
    AgentError::ClientBuildError(join("Failed to build request: ", detail))
}

impl BoundlessProver {
    /// Goes on after a step by which a request gets onto the market: the next step, or the error
    /// that ends the submission. Memory changes only once the request is on the market.
    pub fn next_submit_step(&mut self, request_id: &str, event: SubmitEvent) -> (r: SubmitStep)
        ensures
            (final(self)@, r@) == old(self)@.submit_stepped(request_id@, event@),
    {
        match event {
            SubmitEvent::Connected(Ok(())) => SubmitStep::EncodeInput,
            SubmitEvent::Connected(Err(error)) => SubmitStep::Fail(error),
            SubmitEvent::Encoded(encoded) => match process_input(encoded) {
                Ok(env_bytes) => SubmitStep::UploadInput { env_bytes },
                Err(error) => SubmitStep::Fail(
                    stage_error(SubmitStage::ProcessInput, error.message().as_str()),
                ),
            },
            SubmitEvent::Uploaded(Ok(())) => SubmitStep::MakeTerms { mcycles: OFFERED_MCYCLES },
            SubmitEvent::Uploaded(Err(message)) => SubmitStep::Fail(
                stage_error(SubmitStage::UploadInput, message.as_str()),
            ),
            SubmitEvent::TermsMade(Ok(terms)) => SubmitStep::BuildRequest { terms },
            SubmitEvent::TermsMade(Err(error)) => SubmitStep::Fail(
                stage_error(SubmitStage::BuildRequest, error.message().as_str()),
            ),
            SubmitEvent::Built(Ok(())) => SubmitStep::SubmitRequest { route: self.submit_route() },
            SubmitEvent::Built(Err(message)) => SubmitStep::Fail(
                stage_error(
                    SubmitStage::BuildRequest,
                    build_failure(message.as_str()).message().as_str(),
                ),
            ),
            SubmitEvent::Submitted(Ok(market_request_id)) => {
                let status = self.mark_submitted(request_id, market_request_id);
                SubmitStep::StoreStatus { market_request_id, status }
            },
            SubmitEvent::Submitted(Err(error)) => SubmitStep::Fail(
                stage_error(SubmitStage::SubmitRequest, error.message().as_str()),
            ),
            SubmitEvent::StatusStored { market_request_id, .. } => SubmitStep::Poll {
                market_request_id,
            },
        }
    }
}

/// A submission takes its steps in order: a step that fails ends it with the error of that step,
/// and any other is followed by the next.
pub proof fn law_submission_takes_its_steps_in_order(
    prover: ProverView,
    id: Seq<char>,
    event: SubmitEventView,
)
    ensures
        match event.failure() {
            Some(error) => prover.submit_stepped(id, event).1 == SubmitStepView::Fail(error),
            None => prover.submit_stepped(id, event).1.place() == Some(event.place() + 1),
        },
{
}

/// A submission leaves memory as it was, but for the request that got onto the market. A failing
/// step changes nothing.
pub proof fn law_submission_changes_memory_only_on_success(
    prover: ProverView,
    id: Seq<char>,
    event: SubmitEventView,
)
    ensures
        event.failure() is Some ==> prover.submit_stepped(id, event).0 == prover,
        prover.submit_stepped(id, event).0 == match event {
            SubmitEventView::Submitted(Ok(market_request_id)) => prover.submitted(
                id,
                market_request_id,
            ),
            _ => prover,
        },
{
}

} // verus!
