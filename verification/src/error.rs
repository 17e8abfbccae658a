//! What can go wrong, and the message that each error is shown with.

use crate::text::decimal;
use crate::text::{decimal_text, join, join4};
use vstd::prelude::*;

verus! {

/// An error of the agent.
#[derive(Debug)]
pub enum AgentError {
    /// The market client could not be set up, or a setting or a stored record it needs is bad.
    ClientBuildError(String),
    /// A status poll failed and may succeed later.
    PollingError(String),
    /// A retried operation gave up, or a request cannot be retried.
    RetryError(String),
    /// The input could not be encoded for the guest.
    GuestEnvEncodeError(String),
    /// The input could not be uploaded.
    UploadError(String),
    /// The program could not be uploaded.
    ProgramUploadError(String),
    /// The market request could not be built.
    RequestBuildError(String),
    /// The market request could not be submitted.
    RequestSubmitError(String),
    /// A request was not fulfilled after a number of attempts.
    RequestFulfillmentError { attempts: u32, error: String },
    /// The proof response could not be encoded.
    ResponseEncodeError(String),
    /// The guest could not be executed.
    GuestExecutionError(String),
    /// The receipt is not of the requested kind.
    InvalidReceiptError,
    /// The fulfillment carries no journal.
    MissingJournalError,
    /// The fulfillment could not be decoded.
    FulfillmentDecodeError(String),
    /// No storage provider is set up.
    StorageProviderRequired,
}

/// The result of an operation of the agent.
pub type AgentResult<T> = Result<T, AgentError>;

/// What an error says.
#[verifier::ext_equal]
pub enum AgentErrorView {
    ClientBuildError(Seq<char>),
    PollingError(Seq<char>),
    RetryError(Seq<char>),
    GuestEnvEncodeError(Seq<char>),
    UploadError(Seq<char>),
    ProgramUploadError(Seq<char>),
    RequestBuildError(Seq<char>),
    RequestSubmitError(Seq<char>),
    RequestFulfillmentError { attempts: u32, error: Seq<char> },
    ResponseEncodeError(Seq<char>),
    GuestExecutionError(Seq<char>),
    InvalidReceiptError,
    MissingJournalError,
    FulfillmentDecodeError(Seq<char>),
    StorageProviderRequired,
}

impl View for AgentError {
    type V = AgentErrorView;

    open spec fn view(&self) -> AgentErrorView {
        match *self {
            AgentError::ClientBuildError(detail) => AgentErrorView::ClientBuildError(detail@),
            AgentError::PollingError(detail) => AgentErrorView::PollingError(detail@),
            AgentError::RetryError(detail) => AgentErrorView::RetryError(detail@),
            AgentError::GuestEnvEncodeError(detail) => AgentErrorView::GuestEnvEncodeError(detail@),
            AgentError::UploadError(detail) => AgentErrorView::UploadError(detail@),
            AgentError::ProgramUploadError(detail) => AgentErrorView::ProgramUploadError(detail@),
            AgentError::RequestBuildError(detail) => AgentErrorView::RequestBuildError(detail@),
            AgentError::RequestSubmitError(detail) => AgentErrorView::RequestSubmitError(detail@),
            AgentError::RequestFulfillmentError { attempts, error } => {
                AgentErrorView::RequestFulfillmentError { attempts, error: error@ }
            },
            AgentError::ResponseEncodeError(detail) => AgentErrorView::ResponseEncodeError(detail@),
            AgentError::GuestExecutionError(detail) => AgentErrorView::GuestExecutionError(detail@),
            AgentError::InvalidReceiptError => AgentErrorView::InvalidReceiptError,
            AgentError::MissingJournalError => AgentErrorView::MissingJournalError,
            AgentError::FulfillmentDecodeError(detail) => AgentErrorView::FulfillmentDecodeError(detail@),
            AgentError::StorageProviderRequired => AgentErrorView::StorageProviderRequired,
        }
    }
}

impl AgentErrorView {
    /// The message that the error is shown with.
    pub open spec fn message(self) -> Seq<char> {
        match self {
            AgentErrorView::ClientBuildError(detail) => "Failed to build boundless client: "@ + detail,
            AgentErrorView::PollingError(detail) => "Transient polling error: "@ + detail,
            AgentErrorView::RetryError(detail) => "Retry error: "@ + detail,
            AgentErrorView::GuestEnvEncodeError(detail) => "Failed to encode guest environment: "@ + detail,
            AgentErrorView::UploadError(detail) => "Failed to upload input: "@ + detail,
            AgentErrorView::ProgramUploadError(detail) => "Failed to upload program: "@ + detail,
            AgentErrorView::RequestBuildError(detail) => "Failed to build request: "@ + detail,
            AgentErrorView::RequestSubmitError(detail) => "Failed to submit request: "@ + detail,
            AgentErrorView::RequestFulfillmentError { attempts, error } => {
                "Failed to wait for request fulfillment after "@ + decimal(attempts as nat)
                    + " attempts: "@ + error
            },
            AgentErrorView::ResponseEncodeError(detail) => "Failed to encode response: "@ + detail,
            AgentErrorView::GuestExecutionError(detail) => "Failed to execute guest environment: "@ + detail,
            AgentErrorView::InvalidReceiptError => "Did not receive requested unaggregated receipt"@,
            AgentErrorView::MissingJournalError => "Missing journal in fulfillment data"@,
            AgentErrorView::FulfillmentDecodeError(detail) => "Failed to decode fulfillment data: "@ + detail,
            AgentErrorView::StorageProviderRequired => "Storage provider is required"@,
        }
    }
}

impl AgentError {
    /// The message that the error is shown with.
    pub fn message(&self) -> (r: String)
        ensures
            r@ == self@.message(),
    {
        match self {
            AgentError::ClientBuildError(detail) => join("Failed to build boundless client: ", detail.as_str()),
            AgentError::PollingError(detail) => join("Transient polling error: ", detail.as_str()),
            AgentError::RetryError(detail) => join("Retry error: ", detail.as_str()),
            AgentError::GuestEnvEncodeError(detail) => join("Failed to encode guest environment: ", detail.as_str()),
            AgentError::UploadError(detail) => join("Failed to upload input: ", detail.as_str()),
            AgentError::ProgramUploadError(detail) => join("Failed to upload program: ", detail.as_str()),
            AgentError::RequestBuildError(detail) => join("Failed to build request: ", detail.as_str()),
            AgentError::RequestSubmitError(detail) => join("Failed to submit request: ", detail.as_str()),
            AgentError::RequestFulfillmentError { attempts, error } => join4(
                "Failed to wait for request fulfillment after ",
                decimal_text(*attempts).as_str(),
                " attempts: ",
                error.as_str(),
            ),
            AgentError::ResponseEncodeError(detail) => join("Failed to encode response: ", detail.as_str()),
            AgentError::GuestExecutionError(detail) => join("Failed to execute guest environment: ", detail.as_str()),
            AgentError::InvalidReceiptError => "Did not receive requested unaggregated receipt".to_owned(),
            AgentError::MissingJournalError => "Missing journal in fulfillment data".to_owned(),
            AgentError::FulfillmentDecodeError(detail) => join("Failed to decode fulfillment data: ", detail.as_str()),
            AgentError::StorageProviderRequired => "Storage provider is required".to_owned(),
        }
    }
}

} // verus!
