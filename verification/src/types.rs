//! Proof requests and their states.

use crate::u256::U256;
use serde_json::Value;
use vstd::prelude::*;

verus! {

/// What a request asks to be proved.
#[derive(Clone, Copy, Debug, PartialEq, Eq, Structural)]
pub enum ProofType {
    Batch,
    Aggregate,
}

/// How far a request has come.
#[derive(Debug)]
pub enum ProofRequestStatus {
    /// Accepted, not yet on the market.
    Preparing,
    /// On the market, open for bidding.
    Submitted { market_request_id: U256 },
    /// A prover has committed to it.
    Locked { market_request_id: U256, prover: Option<String> },
    /// The proof is there.
    Fulfilled { market_request_id: U256, proof: Vec<u8> },
    /// It will not be proved.
    Failed { error: String },
}

/// What a status says.
#[verifier::ext_equal]
pub enum StatusView {
    Preparing,
    Submitted { market_request_id: U256 },
    Locked { market_request_id: U256, prover: Option<Seq<char>> },
    Fulfilled { market_request_id: U256, proof: Seq<u8> },
    Failed { error: Seq<char> },
}

/// The text of an optional string.
pub open spec fn text_view(text: Option<String>) -> Option<Seq<char>> {
    match text {
        Some(s) => Some(s@),
        None => None,
    }
}

impl View for ProofRequestStatus {
    type V = StatusView;

    open spec fn view(&self) -> StatusView {
        match *self {
            ProofRequestStatus::Preparing => StatusView::Preparing,
            ProofRequestStatus::Submitted { market_request_id } => {
                StatusView::Submitted { market_request_id }
            },
            ProofRequestStatus::Locked { market_request_id, prover } => {
                StatusView::Locked { market_request_id, prover: text_view(prover) }
            },
            ProofRequestStatus::Fulfilled { market_request_id, proof } => {
                StatusView::Fulfilled { market_request_id, proof: proof@ }
            },
            ProofRequestStatus::Failed { error } => StatusView::Failed { error: error@ },
        }
    }
}

impl StatusView {
    /// Whether nothing more will happen to the request.
    pub open spec fn is_terminal(self) -> bool {
        self is Fulfilled || self is Failed
    }

    /// The market's id of the request, where the status carries it.
    pub open spec fn market_id(self) -> Option<U256> {
        match self {
            StatusView::Submitted { market_request_id } => Some(market_request_id),
            StatusView::Locked { market_request_id, .. } => Some(market_request_id),
            StatusView::Fulfilled { market_request_id, .. } => Some(market_request_id),
            _ => None,
        }
    }

    /// Why the request failed, where it did.
    pub open spec fn failure(self) -> Option<Seq<char>> {
        match self {
            StatusView::Failed { error } => Some(error),
            _ => None,
        }
    }
}

/// Copies an optional string.
pub fn copy_text(text: &Option<String>) -> (r: Option<String>)
    ensures
        text_view(r) == text_view(*text),
        r == *text,
{
    match text {
        Some(s) => Some(s.clone()),
        None => None,
    }
}

/// Copies bytes.
pub fn copy_bytes(bytes: &Vec<u8>) -> (r: Vec<u8>)
    ensures
        r@ == bytes@,
{
    let r = bytes.clone();
    assert(r@ =~= bytes@);
    r
}

impl Clone for ProofRequestStatus {
    fn clone(&self) -> (r: Self)
        ensures
            r@ == self@,
    {
        match self {
            ProofRequestStatus::Preparing => ProofRequestStatus::Preparing,
            ProofRequestStatus::Submitted { market_request_id } => ProofRequestStatus::Submitted {
                market_request_id: *market_request_id,
            },
            ProofRequestStatus::Locked { market_request_id, prover } => {
                ProofRequestStatus::Locked {
                    market_request_id: *market_request_id,
                    prover: copy_text(prover),
                }
            },
            ProofRequestStatus::Fulfilled { market_request_id, proof } => {
                ProofRequestStatus::Fulfilled {
                    market_request_id: *market_request_id,
                    proof: copy_bytes(proof),
                }
            },
            ProofRequestStatus::Failed { error } => ProofRequestStatus::Failed {
                error: error.clone(),
            },
        }
    }
}

impl ProofRequestStatus {
    /// Whether nothing more will happen to the request.
    pub fn is_terminal(&self) -> (r: bool)
        ensures
            r == self@.is_terminal(),
    {
        match self {
            ProofRequestStatus::Fulfilled { .. } => true,
            ProofRequestStatus::Failed { .. } => true,
            _ => false,
        }
    }

    /// The market's id of the request, where the status carries it.
    pub fn market_id(&self) -> (r: Option<U256>)
        ensures
            r == self@.market_id(),
    {
        match self {
            ProofRequestStatus::Submitted { market_request_id } => Some(*market_request_id),
            ProofRequestStatus::Locked { market_request_id, .. } => Some(*market_request_id),
            ProofRequestStatus::Fulfilled { market_request_id, .. } => Some(*market_request_id),
            _ => None,
        }
    }

    /// Why the request failed, where it did.
    pub fn failure(&self) -> (r: Option<String>)
        ensures
            text_view(r) == self@.failure(),
    {
        match self {
            ProofRequestStatus::Failed { error } => Some(error.clone()),
            _ => None,
        }
    }
}

/// A proof request and all that is tracked of it.
#[derive(Debug)]
pub struct AsyncProofRequest {
    pub request_id: String,
    pub market_request_id: U256,
    pub status: ProofRequestStatus,
    pub proof_type: ProofType,
    pub input: Vec<u8>,
    pub output: Vec<u8>,
    pub config: Value,
    pub last_error: Option<String>,
}

/// What a request says.
#[verifier::ext_equal]
pub struct RequestView {
    pub request_id: Seq<char>,
    pub market_request_id: U256,
    pub status: StatusView,
    pub proof_type: ProofType,
    pub input: Seq<u8>,
    pub output: Seq<u8>,
    pub config: Value,
    pub last_error: Option<Seq<char>>,
}

impl View for AsyncProofRequest {
    type V = RequestView;

    open spec fn view(&self) -> RequestView {
        RequestView {
            request_id: self.request_id@,
            market_request_id: self.market_request_id,
            status: self.status@,
            proof_type: self.proof_type,
            input: self.input@,
            output: self.output@,
            config: self.config,
            last_error: text_view(self.last_error),
        }
    }
}

impl RequestView {
    /// The request after its status has become `status`: the market's id follows the status
    /// where the status carries one, and the last error is the status's failure.
    pub open spec fn with_status(self, status: StatusView) -> RequestView {
        RequestView {
            market_request_id: match status.market_id() {
                Some(id) => id,
                None => self.market_request_id,
            },
            status,
            last_error: status.failure(),
            ..self
        }
    }

    /// Whether the market's id, where the status carries one, is the one on record, and the last
    /// error on record is the failure that the status tells.
    pub open spec fn consistent(self) -> bool {
        &&& self.status.market_id() matches Some(id) ==> id == self.market_request_id
        &&& self.last_error == self.status.failure()
    }
}

impl Clone for AsyncProofRequest {
    fn clone(&self) -> (r: Self)
        ensures
            r@ == self@,
    {
        AsyncProofRequest {
            request_id: self.request_id.clone(),
            market_request_id: self.market_request_id,
            status: self.status.clone(),
            proof_type: self.proof_type,
            input: copy_bytes(&self.input),
            output: copy_bytes(&self.output),
            config: self.config.clone(),
            last_error: copy_text(&self.last_error),
        }
    }
}

impl AsyncProofRequest {
    /// The request with the status `status`.
    pub fn with_status(self, status: &ProofRequestStatus) -> (r: AsyncProofRequest)
        ensures
            r@ == self@.with_status(status@),
    {
        let market_request_id = match status.market_id() {
            Some(id) => id,
            None => self.market_request_id,
        };
        AsyncProofRequest {
            market_request_id,
            status: status.clone(),
            last_error: status.failure(),
            ..self
        }
    }
}

/// What a fulfilled request yields: the seal, the journal, and for a batch the receipt in JSON.
#[derive(Debug)]
pub struct Risc0Response {
    pub seal: Vec<u8>,
    pub journal: Vec<u8>,
    pub receipt: Option<String>,
}

/// Whatever the status of a request becomes, the market's id and the last error on record
/// agree with it.
pub proof fn law_status_update_is_consistent(request: RequestView, status: StatusView)
    ensures
        request.with_status(status).consistent(),
{
}

/// A change of status touches nothing that tells what is to be proved.
pub proof fn law_status_update_keeps_the_task(request: RequestView, status: StatusView)
    ensures
        ({
            let after = request.with_status(status);
            &&& after.request_id == request.request_id
            &&& after.proof_type == request.proof_type
            &&& after.input == request.input
            &&& after.output == request.output
            &&& after.config == request.config
        }),
{
}

} // verus!
