//! The agent's memory of its requests, and what it decides about them.

use crate::config::{BoundlessConfig, Deployment, StockOrderStreams};
use crate::config::{default_config, merged_value, ConfigView, DeploymentView};
use crate::error::{AgentError, AgentErrorView, AgentResult};
use crate::table::RequestTable;
use crate::text::join;
use crate::types::{AsyncProofRequest, ProofRequestStatus, ProofType};
use crate::types::{RequestView, StatusView};
use crate::u256::u256_zero;
use crate::u256::U256;
use serde_json::Value;
use vstd::prelude::*;

verus! {

/// The settings of the agent.
#[derive(Debug)]
pub struct ProverConfig {
    pub offchain: bool,
    pub pull_interval: u64,
    pub rpc_url: String,
    pub boundless_config: BoundlessConfig,
    pub url_ttl: u64,
}

/// What the settings of the agent say.
#[verifier::ext_equal]
pub struct ProverConfigView {
    pub offchain: bool,
    pub pull_interval: u64,
    pub rpc_url: Seq<char>,
    pub boundless_config: ConfigView,
    pub url_ttl: u64,
}

impl View for ProverConfig {
    type V = ProverConfigView;

    open spec fn view(&self) -> ProverConfigView {
        ProverConfigView {
            offchain: self.offchain,
            pull_interval: self.pull_interval,
            rpc_url: self.rpc_url@,
            boundless_config: self.boundless_config@,
            url_ttl: self.url_ttl,
        }
    }
}

/// The settings where none are given.
pub open spec fn default_prover_config() -> ProverConfigView {
    ProverConfigView {
        offchain: false,
        pull_interval: 10,
        rpc_url: "https://base-rpc.publicnode.com"@,
        boundless_config: default_config(),
        url_ttl: 1800,
    }
}

impl Default for ProverConfig {
    fn default() -> (r: Self)
        ensures
            r@ == default_prover_config(),
    {
        ProverConfig {
            offchain: false,
            pull_interval: 10,
            rpc_url: "https://base-rpc.publicnode.com".to_owned(),
            boundless_config: BoundlessConfig::default(),
            url_ttl: 1800,
        }
    }
}

impl Clone for ProverConfig {
    fn clone(&self) -> (r: Self)
        ensures
            r@ == self@,
    {
        ProverConfig {
            offchain: self.offchain,
            pull_interval: self.pull_interval,
            rpc_url: self.rpc_url.clone(),
            boundless_config: self.boundless_config.clone(),
            url_ttl: self.url_ttl,
        }
    }
}

/// The file that requests are stored in: the one that the environment names, else the default.
pub fn database_path(configured: Option<String>) -> (r: String)
    ensures
        r@ == match configured {
            Some(path) => path@,
            None => "./boundless_requests.db"@,
        },
{
    match configured {
        Some(path) => path,
        None => "./boundless_requests.db".to_owned(),
    }
}

/// The name that the program for a proof type is uploaded under.
pub open spec fn image_label(proof_type: ProofType) -> Seq<char> {
    match proof_type {
        ProofType::Batch => "batch"@,
        ProofType::Aggregate => "aggregation"@,
    }
}

/// The name that the program for a proof type is uploaded under.
pub fn image_name(proof_type: &ProofType) -> (r: &'static str)
    ensures
        r@ == image_label(*proof_type),
{
    match proof_type {
        ProofType::Batch => "batch",
        ProofType::Aggregate => "aggregation",
    }
}

/// The programs whose market URLs are renewed when the agent starts, in order: those that have
/// been uploaded.
pub fn images_to_refresh(batch_uploaded: bool, aggregation_uploaded: bool) -> (r: Vec<ProofType>)
    ensures
        r@ == match (batch_uploaded, aggregation_uploaded) {
            (true, true) => seq![ProofType::Batch, ProofType::Aggregate],
            (true, false) => seq![ProofType::Batch],
            (false, true) => seq![ProofType::Aggregate],
            (false, false) => seq![],
        },
{
    let mut images: Vec<ProofType> = Vec::new();
    if batch_uploaded {
        images.push(ProofType::Batch);
    }
    if aggregation_uploaded {
        images.push(ProofType::Aggregate);
    }
    images
}

/// The seconds between two removals of expired requests from storage.
pub const TTL_CLEANUP_INTERVAL_SECS: u64 = 10_800;

/// The agent: its settings, and what it keeps in memory of the requests under way.
pub struct BoundlessProver {
    pub config: ProverConfig,
    pub deployment: Deployment,
    pub boundless_config: BoundlessConfig,
    pub active_requests: RequestTable<AsyncProofRequest>,
    pub poll_error_counts: RequestTable<u32>,
}

/// What the agent holds.
#[verifier::ext_equal]
pub struct ProverView {
    pub config: ProverConfigView,
    pub deployment: DeploymentView,
    pub boundless_config: ConfigView,
    /// The requests in memory, by id.
    pub active: Map<Seq<char>, RequestView>,
    /// How many polls of a request have failed in a row, where any has.
    pub poll_errors: Map<Seq<char>, u32>,
}

/// What the requests of a table say.
pub open spec fn requests_view(requests: Map<Seq<char>, AsyncProofRequest>) -> Map<
    Seq<char>,
    RequestView,
> {
    Map::new(|id: Seq<char>| requests.contains_key(id), |id: Seq<char>| requests[id]@)
}

impl View for BoundlessProver {
    type V = ProverView;

    open spec fn view(&self) -> ProverView {
        ProverView {
            config: self.config@,
            deployment: self.deployment@,
            boundless_config: self.boundless_config@,
            active: requests_view(self.active_requests@),
            poll_errors: self.poll_error_counts@,
        }
    }
}

/// What storage said of a request: the request where it is there, or the error.
pub open spec fn lookup_view(stored: AgentResult<Option<AsyncProofRequest>>) -> Result<
    Option<RequestView>,
    AgentErrorView,
> {
    match stored {
        Ok(Some(request)) => Ok(Some(request@)),
        Ok(None) => Ok(None),
        Err(error) => Err(error@),
    }
}

/// A request that has just been accepted.
pub open spec fn new_request(
    request_id: Seq<char>,
    proof_type: ProofType,
    input: Seq<u8>,
    output: Seq<u8>,
    config: Value,
) -> RequestView {
    RequestView {
        request_id,
        market_request_id: u256_zero(),
        status: StatusView::Preparing,
        proof_type,
        input,
        output,
        config,
        last_error: None,
    }
}

impl RequestView {
    /// The request as it was when it was accepted: nothing on the market, nothing failed.
    pub open spec fn reset(self) -> RequestView {
        RequestView {
            market_request_id: u256_zero(),
            status: StatusView::Preparing,
            last_error: None,
            ..self
        }
    }
}

impl ProverView {
    /// With a request in memory under an id.
    pub open spec fn with_request(self, id: Seq<char>, request: RequestView) -> ProverView {
        ProverView { active: self.active.insert(id, request), ..self }
    }

    /// Without the request of an id in memory.
    pub open spec fn without_request(self, id: Seq<char>) -> ProverView {
        ProverView { active: self.active.remove(id), ..self }
    }

    /// With no failed poll of a request on record.
    pub open spec fn without_poll_errors(self, id: Seq<char>) -> ProverView {
        ProverView { poll_errors: self.poll_errors.remove(id), ..self }
    }

    /// With a request in memory under its own id, unless one is there already.
    pub open spec fn caching(self, request: RequestView) -> ProverView {
        if self.active.contains_key(request.request_id) {
            self
        } else {
            self.with_request(request.request_id, request)
        }
    }

    /// With a new status of a request, before the status is stored: what is in memory of the
    /// request follows the status.
    pub open spec fn status_noted(self, id: Seq<char>, status: StatusView) -> ProverView {
        if self.active.contains_key(id) {
            self.with_request(id, self.active[id].with_status(status))
        } else {
            self
        }
    }

    /// With a new status of a request, once the status is stored: nothing is kept of a request
    /// that is done.
    pub open spec fn status_stored(self, id: Seq<char>, status: StatusView) -> ProverView {
        if status.is_terminal() {
            self.without_request(id).without_poll_errors(id)
        } else {
            self
        }
    }

    /// With a new status of a request that storage has not taken: a request that is done leaves
    /// memory all the same.
    pub open spec fn status_refused(self, id: Seq<char>, status: StatusView) -> ProverView {
        if status.is_terminal() {
            self.without_request(id)
        } else {
            self
        }
    }

    /// What to do with a submitted proof, given what storage holds for the same input: the
    /// request that answers it, whether that is a new one, and what is then in memory.
    pub open spec fn run(
        self,
        request: RequestView,
        existing: Option<RequestView>,
    ) -> (ProverView, RunView) {
        match existing {
            Some(found) if found.status is Fulfilled => (
                self,
                RunView::Existing { request_id: found.request_id },
            ),
            Some(found) if !(found.status is Failed) => (
                self.caching(found),
                RunView::Existing { request_id: found.request_id },
            ),
            _ => (self.with_request(request.request_id, request), RunView::New { request }),
        }
    }

    /// What is in memory after storage was asked for a request.
    pub open spec fn looked_up(
        self,
        id: Seq<char>,
        stored: Result<Option<RequestView>, AgentErrorView>,
    ) -> ProverView {
        match stored {
            Ok(Some(request)) => if request.status.is_terminal() {
                self.without_request(id)
            } else {
                self.with_request(id, request)
            },
            _ => self,
        }
    }

    /// Without the requests of some ids in memory.
    pub open spec fn cleaned_up(self, ids: Set<Seq<char>>) -> ProverView {
        ProverView { active: self.active.remove_keys(ids), ..self }
    }

    /// Whether no request in memory is done.
    pub open spec fn only_active(self) -> bool {
        forall|id: Seq<char>| #[trigger]
            self.active.contains_key(id) ==> !self.active[id].status.is_terminal()
    }

    /// Whether what is on record of each request in memory agrees with its status.
    pub open spec fn all_consistent(self) -> bool {
        forall|id: Seq<char>| #[trigger]
            self.active.contains_key(id) ==> self.active[id].consistent()
    }

    /// Whether `other` holds the same of a request.
    pub open spec fn holds_same_of(self, id: Seq<char>, other: ProverView) -> bool {
        &&& self.active.contains_key(id) == other.active.contains_key(id)
        &&& self.active.contains_key(id) ==> self.active[id] == other.active[id]
        &&& self.poll_errors.contains_key(id) == other.poll_errors.contains_key(id)
        &&& self.poll_errors.contains_key(id) ==> self.poll_errors[id] == other.poll_errors[id]
    }

    /// Whether `requests` are the requests in memory that are not done, each once, in some order.
    pub open spec fn lists_active(self, requests: Seq<RequestView>) -> bool {
        exists|ids: Seq<Seq<char>>| #[trigger] self.lists_active_as(requests, ids)
    }

    /// Whether `requests` are the requests in memory that are not done, in the order of `ids`.
    pub open spec fn lists_active_as(self, requests: Seq<RequestView>, ids: Seq<Seq<char>>) -> bool {
        &&& ids.no_duplicates()
        &&& ids.len() == requests.len()
        &&& forall|i: int|
            0 <= i < ids.len() ==> self.active.contains_key(#[trigger] ids[i]) && requests[i]
                == self.active[ids[i]]
        &&& forall|id: Seq<char>|
            ids.contains(id) <==> #[trigger] self.active.contains_key(id)
                && !self.active[id].status.is_terminal()
    }
}

/// The answer to a submitted proof.
#[derive(Debug)]
pub enum RunPlan {
    /// A request for the same input is known.
    Existing { request_id: String },
    /// The request is new: it is to be stored and sent to the market.
    New { request: AsyncProofRequest },
}

/// What the answer to a submitted proof says.
#[verifier::ext_equal]
pub enum RunView {
    Existing { request_id: Seq<char> },
    New { request: RequestView },
}

impl View for RunPlan {
    type V = RunView;

    open spec fn view(&self) -> RunView {
        match *self {
            RunPlan::Existing { request_id } => RunView::Existing { request_id: request_id@ },
            RunPlan::New { request } => RunView::New { request: request@ },
        }
    }
}

impl RunView {
    /// The id of the request that answers the submitted proof.
    pub open spec fn request_id(self) -> Seq<char> {
        match self {
            RunView::Existing { request_id } => request_id,
            RunView::New { request } => request.request_id,
        }
    }
}

impl RunPlan {
    /// The id of the request that answers the submitted proof.
    pub fn request_id(&self) -> (r: String)
        ensures
            r@ == self@.request_id(),
    {
        match self {
            RunPlan::Existing { request_id } => request_id.clone(),
            RunPlan::New { request } => request.request_id.clone(),
        }
    }
}

/// Why a request cannot be retried, `None` where it can.
pub open spec fn retry_refusal(
    request_id: Seq<char>,
    stored: Result<Option<RequestView>, AgentErrorView>,
) -> Option<AgentErrorView> {
    match stored {
        Err(error) => Some(error),
        Ok(None) => Some(AgentErrorView::RetryError("Request "@ + request_id + " not found"@)),
        Ok(Some(request)) => if request.status is Failed {
            None
        } else {
            Some(
                AgentErrorView::RetryError("Request "@ + request_id + " is not in a failed state"@),
            )
        },
    }
}

impl BoundlessProver {
    /// The deployment that the settings name.
    pub fn create_deployment(config: &ProverConfig, stock: &StockOrderStreams) -> (r: AgentResult<
        Deployment,
    >)
        ensures
            r matches Ok(deployment) && deployment@ == (DeploymentView {
                deployment_type: config@.boundless_config.deployment_type(),
                order_stream_url: merged_value(
                    stock.of(config@.boundless_config.deployment_type()),
                    config@.boundless_config.order_stream_override(),
                ),
            }),
    {
        Ok(config.boundless_config.get_effective_deployment(stock))
    }

    /// An agent with nothing in memory.
    pub fn new(config: ProverConfig, stock: &StockOrderStreams) -> (r: AgentResult<Self>)
        ensures
            r matches Ok(prover) && prover@ == (ProverView {
                config: config@,
                deployment: DeploymentView {
                    deployment_type: config@.boundless_config.deployment_type(),
                    order_stream_url: merged_value(
                        stock.of(config@.boundless_config.deployment_type()),
                        config@.boundless_config.order_stream_override(),
                    ),
                },
                boundless_config: config@.boundless_config,
                active: Map::empty(),
                poll_errors: Map::empty(),
            }),
    {
        let deployment = match BoundlessProver::create_deployment(&config, stock) {
            Ok(deployment) => deployment,
            Err(error) => return Err(error),
        };
        let boundless_config = config.boundless_config.clone();
        let prover = BoundlessProver {
            config,
            deployment,
            boundless_config,
            active_requests: RequestTable::new(),
            poll_error_counts: RequestTable::new(),
        };
        assert(prover@.active =~= Map::empty());
        Ok(prover)
    }

    /// The settings of the agent.
    pub fn prover_config(&self) -> (r: ProverConfig)
        ensures
            r@ == self@.config,
    {
        self.config.clone()
    }

    /// The request in memory under an id.
    pub fn cached(&self, request_id: &str) -> (r: Option<&AsyncProofRequest>)
        ensures
            match r {
                Some(request) => self@.active.contains_key(request_id@)
                    && self@.active[request_id@] == request@,
                None => !self@.active.contains_key(request_id@),
            },
    {
        self.active_requests.get(request_id)
    }

    pub(crate) fn remember(&mut self, request_id: String, request: AsyncProofRequest)
        ensures
            final(self)@ == old(self)@.with_request(request_id@, request@),
    {
        let ghost before = self.active_requests@;
        self.active_requests.insert(request_id, request);
        assert(requests_view(before.insert(request_id@, request)) =~= requests_view(before).insert(
            request_id@,
            request@,
        ));
    }

    pub(crate) fn forget(&mut self, request_id: &str) -> (r: Option<AsyncProofRequest>)
        ensures
            final(self)@ == old(self)@.without_request(request_id@),
            match r {
                Some(request) => old(self)@.active.contains_key(request_id@)
                    && old(self)@.active[request_id@] == request@,
                None => !old(self)@.active.contains_key(request_id@),
            },
    {
        let ghost before = self.active_requests@;
        let r = self.active_requests.remove(request_id);
        assert(requests_view(before.remove(request_id@)) =~= requests_view(before).remove(
            request_id@,
        ));
        r
    }

    /// Drops the record of failed polls of a request.
    pub fn clear_poll_errors(&mut self, request_id: &str)
        ensures
            final(self)@ == old(self)@.without_poll_errors(request_id@),
    {
        let _ = self.poll_error_counts.remove(request_id);
    }

    /// Accepts a request: it is in memory from here on, and is handed back to be stored.
    pub fn prepare_async_request(
        &mut self,
        request_id: String,
        proof_type: ProofType,
        input: Vec<u8>,
        output: Vec<u8>,
        config: &Value,
    ) -> (r: AsyncProofRequest)
        ensures
            r@ == new_request(request_id@, proof_type, input@, output@, *config),
            final(self)@ == old(self)@.with_request(request_id@, r@),
    {
        let request = AsyncProofRequest {
            request_id: request_id.clone(),
            market_request_id: U256::zero(),
            status: ProofRequestStatus::Preparing,
            proof_type,
            input,
            output,
            config: config.clone(),
            last_error: None,
        };
        self.remember(request_id, request.clone());
        request
    }

    fn run(
        &mut self,
        request_id: String,
        proof_type: ProofType,
        input: Vec<u8>,
        output: Vec<u8>,
        config: &Value,
        existing: AgentResult<Option<AsyncProofRequest>>,
    ) -> (r: AgentResult<RunPlan>)
        ensures
            match (r, lookup_view(existing)) {
                (Ok(plan), Ok(found)) => (final(self)@, plan@) == old(self)@.run(
                    new_request(request_id@, proof_type, input@, output@, *config),
                    found,
                ),
                (Err(error), Err(failed)) => error@ == failed && final(self)@ == old(self)@,
                _ => false,
            },
    {
        let found = match existing {
            Ok(found) => found,
            Err(error) => return Err(error),
        };
        if let Some(found) = found {
            match &found.status {
                ProofRequestStatus::Fulfilled { .. } => {
                    return Ok(RunPlan::Existing { request_id: found.request_id });
                },
                ProofRequestStatus::Failed { .. } => {},
                _ => {
                    let known = self.cached(found.request_id.as_str()).is_some();
                    let id = found.request_id.clone();
                    if !known {
                        self.remember(id.clone(), found);
                    }
                    return Ok(RunPlan::Existing { request_id: id });
                },
            }
        }
        let request = self.prepare_async_request(request_id, proof_type, input, output, config);
        Ok(RunPlan::New { request })
    }

    /// Answers a submitted batch proof, given what storage holds for the same input and type.
    /// A request that is under way or done answers it; where there is none, or where it has
    /// failed, a new one does.
    pub fn batch_run(
        &mut self,
        request_id: String,
        input: Vec<u8>,
        output: Vec<u8>,
        config: &Value,
        existing: AgentResult<Option<AsyncProofRequest>>,
    ) -> (r: AgentResult<RunPlan>)
        ensures
            match (r, lookup_view(existing)) {
                (Ok(plan), Ok(found)) => (final(self)@, plan@) == old(self)@.run(
                    new_request(request_id@, ProofType::Batch, input@, output@, *config),
                    found,
                ),
                (Err(error), Err(failed)) => error@ == failed && final(self)@ == old(self)@,
                _ => false,
            },
    {
        self.run(request_id, ProofType::Batch, input, output, config, existing)
    }

    /// Answers a submitted aggregation proof, given what storage holds for the same input and
    /// type. A request that is under way or done answers it; where there is none, or where it
    /// has failed, a new one does.
    pub fn aggregate(
        &mut self,
        request_id: String,
        input: Vec<u8>,
        output: Vec<u8>,
        config: &Value,
        existing: AgentResult<Option<AsyncProofRequest>>,
    ) -> (r: AgentResult<RunPlan>)
        ensures
            match (r, lookup_view(existing)) {
                (Ok(plan), Ok(found)) => (final(self)@, plan@) == old(self)@.run(
                    new_request(request_id@, ProofType::Aggregate, input@, output@, *config),
                    found,
                ),
                (Err(error), Err(failed)) => error@ == failed && final(self)@ == old(self)@,
                _ => false,
            },
    {
        self.run(request_id, ProofType::Aggregate, input, output, config, existing)
    }

    /// Takes up a failed request again, given what storage holds of it: hands back the request
    /// as it was when it was accepted, to be stored, or says why it cannot be retried.
    pub fn retry_failed_request(
        &mut self,
        request_id: &str,
        stored: AgentResult<Option<AsyncProofRequest>>,
    ) -> (r: AgentResult<AsyncProofRequest>)
        ensures
            match (r, retry_refusal(request_id@, lookup_view(stored))) {
                (Err(error), Some(refusal)) => error@ == refusal && final(self)@ == old(self)@,
                (Ok(request), None) => request@ == lookup_view(stored)->Ok_0->0.reset()
                    && final(self)@ == old(self)@.without_poll_errors(request_id@),
                _ => false,
            },
    {
        let found = match stored {
            Ok(found) => found,
            Err(error) => return Err(error),
        };
        let request = match found {
            Some(request) => request,
            None => {
                let mut text = join("Request ", request_id);
                text.append(" not found");
                return Err(AgentError::RetryError(text));
            },
        };
        let failed = match &request.status {
            ProofRequestStatus::Failed { .. } => true,
            _ => false,
        };
        if !failed {
            let mut text = join("Request ", request_id);
            text.append(" is not in a failed state");
            return Err(AgentError::RetryError(text));
        }
        self.clear_poll_errors(request_id);
        Ok(
            AsyncProofRequest {
                status: ProofRequestStatus::Preparing,
                market_request_id: U256::zero(),
                last_error: None,
                ..request
            },
        )
    }

    /// Goes on with a retried request once it has been stored: it is in memory from here on.
    pub fn finish_retry(
        &mut self,
        request_id: &str,
        request: &AsyncProofRequest,
        stored: AgentResult<()>,
    ) -> (r: AgentResult<String>)
        ensures
            match (r, stored) {
                (Ok(id), Ok(())) => id@ == request_id@ && final(self)@ == old(self)@.with_request(
                    request_id@,
                    request@,
                ),
                (Err(error), Err(failed)) => error == failed && final(self)@ == old(self)@,
                _ => false,
            },
    {
        match stored {
            Ok(()) => {
                self.remember(request_id.to_owned(), request.clone());
                Ok(request_id.to_owned())
            },
            Err(error) => Err(error),
        }
    }

    /// The request of an id, given what storage holds of it: the stored one, else the one in
    /// memory. The memory follows storage, and keeps no request that is done.
    pub fn get_request_status(
        &mut self,
        request_id: &str,
        stored: AgentResult<Option<AsyncProofRequest>>,
    ) -> (r: Option<AsyncProofRequest>)
        ensures
            final(self)@ == old(self)@.looked_up(request_id@, lookup_view(stored)),
            match r {
                Some(request) => match lookup_view(stored) {
                    Ok(Some(found)) => request@ == found,
                    _ => old(self)@.active.contains_key(request_id@) && request@
                        == old(self)@.active[request_id@],
                },
                None => !(lookup_view(stored) matches Ok(Some(_)))
                    && !old(self)@.active.contains_key(request_id@),
            },
    {
        if let Ok(Some(request)) = stored {
            if request.status.is_terminal() {
                let _ = self.forget(request_id);
            } else {
                self.remember(request_id.to_owned(), request.clone());
            }
            return Some(request);
        }
        match self.cached(request_id) {
            Some(request) => Some(request.clone()),
            None => None,
        }
    }

    fn cached_active(&self) -> (r: Vec<AsyncProofRequest>)
        ensures
            self@.lists_active(r@.map_values(|request: AsyncProofRequest| request@)),
    {
        let mut found: Vec<AsyncProofRequest> = Vec::new();
        let places = self.active_requests.places();
        let ghost keys = self.active_requests.keys();
        let ghost mut ids: Seq<Seq<char>> = Seq::empty();
        let mut i: usize = 0;
        while i < places
            invariant
                i <= places,
                places == keys.len(),
                keys == self.active_requests.keys(),
                keys.no_duplicates(),
                keys.to_set() == self.active_requests@.dom(),
                ids.no_duplicates(),
                ids.len() == found@.len(),
                forall|j: int|
                    0 <= j < ids.len() ==> self@.active.contains_key(#[trigger] ids[j])
                        && found@[j]@ == self@.active[ids[j]],
                forall|id: Seq<char>| #[trigger]
                    ids.contains(id) <==> exists|j: int|
                        0 <= j < i && #[trigger] keys[j] == id
                            && !self@.active[id].status.is_terminal(),
            decreases places - i,
        {
            let request = self.active_requests.entry(i);
            let ghost key = keys[i as int];
            let ghost before = ids;
            if !request.status.is_terminal() {
                found.push(request.clone());
                proof {
                    assert(!ids.contains(key)) by {
                        if ids.contains(key) {
                            let j = choose|j: int| 0 <= j < i && #[trigger] keys[j] == key;
                            assert(keys[j] == keys[i as int]);
                        }
                    }
                    ids = ids.push(key);
                    assert forall|id: Seq<char>| #[trigger] ids.contains(id) <==> before.contains(
                        id,
                    ) || id == key by {
                        if before.contains(id) {
                            let j = choose|j: int| 0 <= j < before.len() && before[j] == id;
                            assert(ids[j] == id);
                        }
                        if id == key {
                            assert(ids[before.len() as int] == id);
                        }
                        if ids.contains(id) {
                            let j = choose|j: int| 0 <= j < ids.len() && ids[j] == id;
                            if j < before.len() {
                                assert(before[j] == id);
                            }
                        }
                    }
                    assert(ids.no_duplicates()) by {
                        assert forall|a: int, b: int|
                            0 <= a < ids.len() && 0 <= b < ids.len() && a != b implies ids[a]
                            != ids[b] by {
                            if a < before.len() && b < before.len() {
                                assert(before[a] != before[b]);
                            } else if a < before.len() {
                                assert(before.contains(before[a]));
                            } else {
                                assert(before.contains(before[b]));
                            }
                        }
                    }
                }
            }
            proof {
                assert forall|id: Seq<char>| #[trigger] ids.contains(id) <==> exists|j: int|
                    0 <= j < i + 1 && #[trigger] keys[j] == id
                        && !self@.active[id].status.is_terminal() by {
                    if before.contains(id) {
                        let j = choose|j: int|
                            0 <= j < i && #[trigger] keys[j] == id
                                && !self@.active[id].status.is_terminal();
                        assert(keys[j] == id);
                    }
                    if id == key && !self@.active[id].status.is_terminal() {
                        assert(keys[i as int] == id);
                    }
                }
            }
            i += 1;
        }
        proof {
            let requests = found@.map_values(|request: AsyncProofRequest| request@);
            assert forall|id: Seq<char>|
                ids.contains(id) <==> #[trigger] self@.active.contains_key(id)
                    && !self@.active[id].status.is_terminal() by {
                if self@.active.contains_key(id) {
                    assert(keys.to_set().contains(id));
                    let j = choose|j: int| 0 <= j < keys.len() && keys[j] == id;
                    assert(keys[j] == id);
                }
                if ids.contains(id) {
                    let j = choose|j: int| 0 <= j < ids.len() && ids[j] == id;
                    assert(self@.active.contains_key(ids[j]));
                }
            }
            assert(self@.lists_active_as(requests, ids));
        }
        found
    }

    /// The requests that are not done, given what storage lists: its list, or where storage
    /// failed, what memory holds.
    pub fn list_active_requests(&self, stored: AgentResult<Vec<AsyncProofRequest>>) -> (r: Vec<
        AsyncProofRequest,
    >)
        ensures
            match stored {
                Ok(requests) => r == requests,
                Err(_) => self@.lists_active(r@.map_values(|request: AsyncProofRequest| request@)),
            },
    {
        match stored {
            Ok(requests) => requests,
            Err(_) => self.cached_active(),
        }
    }

    /// Empties the memory once storage has deleted all requests, and hands on how many they were.
    pub fn delete_all_requests(&mut self, deleted: AgentResult<usize>) -> (r: AgentResult<usize>)
        ensures
            r == deleted,
            final(self)@ == match deleted {
                Ok(_) => ProverView {
                    active: Map::empty(),
                    poll_errors: Map::empty(),
                    ..old(self)@
                },
                Err(_) => old(self)@,
            },
    {
        if deleted.is_ok() {
            self.active_requests.clear();
            self.poll_error_counts.clear();
            assert(self@.active =~= Map::empty());
        }
        deleted
    }

    /// Drops from memory the expired requests that storage has deleted.
    pub fn finish_ttl_cleanup(&mut self, deleted: &AgentResult<Vec<String>>)
        ensures
            final(self)@ == match *deleted {
                Ok(ids) => old(self)@.cleaned_up(texts(ids@)),
                Err(_) => old(self)@,
            },
    {
        if let Ok(ids) = deleted {
            let ghost before = self@;
            let mut i: usize = 0;
            assert(before.active.remove_keys(texts(ids@.take(0))) =~= before.active);
            while i < ids.len()
                invariant
                    i <= ids@.len(),
                    self@ == before.cleaned_up(texts(ids@.take(i as int))),
                decreases ids@.len() - i,
            {
                let _ = self.forget(ids[i].as_str());
                proof {
                    let done = ids@.take(i as int);
                    let more = ids@.take(i + 1);
                    assert(more =~= done.push(ids@[i as int]));
                    assert forall|id: Seq<char>| #[trigger] texts(more).contains(id) <==> texts(
                        done,
                    ).contains(id) || id == ids@[i as int]@ by {
                        if texts(done).contains(id) {
                            let j = choose|j: int| 0 <= j < done.len() && #[trigger] done[j]@ == id;
                            assert(more[j]@ == id);
                        }
                        if id == ids@[i as int]@ {
                            assert(more[i as int]@ == id);
                        }
                        if texts(more).contains(id) {
                            let j = choose|j: int| 0 <= j < more.len() && #[trigger] more[j]@ == id;
                            if j < i {
                                assert(done[j]@ == id);
                            }
                        }
                    }
                    assert(before.active.remove_keys(texts(done)).remove(ids@[i as int]@)
                        =~= before.active.remove_keys(texts(more)));
                }
                i += 1;
            }
            assert(ids@.take(ids@.len() as int) =~= ids@);
        }
    }

    /// Takes note of a new status of a request, before the status is stored.
    pub fn begin_status_update(&mut self, request_id: &str, status: &ProofRequestStatus)
        ensures
            final(self)@ == old(self)@.status_noted(request_id@, status@),
    {
        let ghost before = self@;
        match self.forget(request_id) {
            Some(request) => {
                self.remember(request_id.to_owned(), request.with_status(status));
                assert(before.active.remove(request_id@).insert(
                    request_id@,
                    before.active[request_id@].with_status(status@),
                ) =~= before.active.insert(
                    request_id@,
                    before.active[request_id@].with_status(status@),
                ));
            },
            None => {
                assert(before.active.remove(request_id@) =~= before.active);
            },
        }
    }

    /// Goes on with a new status of a request once storage has been told of it. A request that is
    /// done leaves memory whether or not storage took the status.
    pub fn finish_status_update(
        &mut self,
        request_id: &str,
        status: &ProofRequestStatus,
        stored: AgentResult<()>,
    ) -> (r: AgentResult<()>)
        ensures
            match (r, stored) {
                (Ok(()), Ok(())) => final(self)@ == old(self)@.status_stored(request_id@, status@),
                (Err(error), Err(failed)) => final(self)@ == old(self)@.status_refused(
                    request_id@,
                    status@,
                ) && error@ == AgentErrorView::ClientBuildError(
                    "Storage update failed: "@ + failed@.message(),
                ),
                _ => false,
            },
    {
        if status.is_terminal() {
            let _ = self.forget(request_id);
        }
        match stored {
            Ok(()) => {
                if status.is_terminal() {
                    self.clear_poll_errors(request_id);
                }
                Ok(())
            },
            Err(failed) => {
                Err(
                    AgentError::ClientBuildError(
                        join("Storage update failed: ", failed.message().as_str()),
                    ),
                )
            },
        }
    }
}

/// The texts among some strings.
pub open spec fn texts(strings: Seq<String>) -> Set<Seq<char>> {
    Set::new(|text: Seq<char>| exists|i: int| 0 <= i < strings.len() && #[trigger] strings[i]@ == text)
}

} // verus!
