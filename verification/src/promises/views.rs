//! What the views say: each shows every part of its value, and shows it as it is.

use crate::client::ClientSettings;
use crate::cleanup::{CleanupEvent, CleanupEventView};
use crate::config::{BoundlessConfig, BoundlessOfferParams, Deployment, DeploymentConfig};
use crate::config::{OfferParamsConfig, OverridesView, StockOrderStreams, DeploymentType};
use crate::error::{AgentError, AgentErrorView};
use crate::json::value_entries;
use crate::market::{CheckStep, CheckView, Fulfillment, PollPlan, PollView};
use crate::offer::RequestTerms;
use crate::prover::{BoundlessProver, ProverConfig, RunPlan, RunView};
use crate::submission::{SubmitEvent, SubmitEventView, SubmitStep, SubmitStepView};
use crate::types::{AsyncProofRequest, ProofRequestStatus, StatusView};
use crate::u256::U256;
use vstd::arithmetic::power2::pow2;
use vstd::prelude::*;

verus! {

/// A status shows which one it is and all that it carries.
pub proof fn law_status_view_is_whole(status: ProofRequestStatus)
    ensures
        status is Preparing <==> status@ is Preparing,
        status matches ProofRequestStatus::Submitted { market_request_id } ==> status@
            == (StatusView::Submitted { market_request_id }),
        status matches ProofRequestStatus::Locked { market_request_id, prover } ==> (status@ matches
            StatusView::Locked { market_request_id: id, prover: by } && id == market_request_id && (
        prover matches Some(p) ==> by == Some(p@)) && (prover is None ==> by is None)),
        status matches ProofRequestStatus::Fulfilled { market_request_id, proof } ==> status@
            == (StatusView::Fulfilled { market_request_id, proof: proof@ }),
        status matches ProofRequestStatus::Failed { error } ==> status@ == (StatusView::Failed {
            error: error@,
        }),
{
}

/// A request shows all that is tracked of it.
pub proof fn law_request_view_is_whole(request: AsyncProofRequest)
    ensures
        request@.request_id == request.request_id@,
        request@.market_request_id == request.market_request_id,
        request@.status == request.status@,
        request@.proof_type == request.proof_type,
        request@.input == request.input@,
        request@.output == request.output@,
        request@.config == request.config,
        request.last_error matches Some(error) ==> request@.last_error == Some(error@),
        request.last_error is None ==> request@.last_error is None,
{
}

/// An error shows which one it is and its details.
pub proof fn law_error_view_is_whole(error: AgentError)
    ensures
        error matches AgentError::ClientBuildError(d) ==> error@
            == AgentErrorView::ClientBuildError(d@),
        error matches AgentError::PollingError(d) ==> error@ == AgentErrorView::PollingError(d@),
        error matches AgentError::RetryError(d) ==> error@ == AgentErrorView::RetryError(d@),
        error matches AgentError::GuestEnvEncodeError(d) ==> error@
            == AgentErrorView::GuestEnvEncodeError(d@),
        error matches AgentError::UploadError(d) ==> error@ == AgentErrorView::UploadError(d@),
        error matches AgentError::ProgramUploadError(d) ==> error@
            == AgentErrorView::ProgramUploadError(d@),
        error matches AgentError::RequestBuildError(d) ==> error@
            == AgentErrorView::RequestBuildError(d@),
        error matches AgentError::RequestSubmitError(d) ==> error@
            == AgentErrorView::RequestSubmitError(d@),
        error matches AgentError::RequestFulfillmentError { attempts, error: e } ==> error@ == (
        AgentErrorView::RequestFulfillmentError { attempts, error: e@ }),
        error matches AgentError::ResponseEncodeError(d) ==> error@
            == AgentErrorView::ResponseEncodeError(d@),
        error matches AgentError::GuestExecutionError(d) ==> error@
            == AgentErrorView::GuestExecutionError(d@),
        error is InvalidReceiptError <==> error@ is InvalidReceiptError,
        error is MissingJournalError <==> error@ is MissingJournalError,
        error matches AgentError::FulfillmentDecodeError(d) ==> error@
            == AgentErrorView::FulfillmentDecodeError(d@),
        error is StorageProviderRequired <==> error@ is StorageProviderRequired,
{
}

/// An offer shows each of its prices and times under its own name.
pub proof fn law_offer_view_is_whole(offer: BoundlessOfferParams)
    ensures
        offer@.ramp_up_sec == offer.ramp_up_sec,
        offer@.lock_timeout_ms_per_mcycle == offer.lock_timeout_ms_per_mcycle,
        offer@.timeout_ms_per_mcycle == offer.timeout_ms_per_mcycle,
        offer@.max_price_per_mcycle == offer.max_price_per_mcycle@,
        offer@.min_price_per_mcycle == offer.min_price_per_mcycle@,
        offer@.lock_collateral == offer.lock_collateral@,
{
}

/// A configured deployment shows its type and its overrides: an object by its entries, anything
/// else as it is.
pub proof fn law_deployment_config_view_is_whole(deployment: DeploymentConfig)
    ensures
        deployment@.deployment_type == deployment.deployment_type,
        deployment.overrides is None <==> deployment@.overrides is Absent,
        deployment.overrides matches Some(value) ==> match value_entries(value) {
            Some(entries) => deployment@.overrides == OverridesView::Object(entries),
            None => deployment@.overrides == OverridesView::Other(value),
        },
{
}

/// The configured offers show each under its own name.
pub proof fn law_offers_config_view_is_whole(offers: OfferParamsConfig)
    ensures
        offers.batch matches Some(offer) ==> offers@.batch == Some(offer@),
        offers.batch is None ==> offers@.batch is None,
        offers.aggregation matches Some(offer) ==> offers@.aggregation == Some(offer@),
        offers.aggregation is None ==> offers@.aggregation is None,
{
}

/// A configuration shows all that it provides.
pub proof fn law_config_view_is_whole(config: BoundlessConfig)
    ensures
        config.deployment matches Some(deployment) ==> config@.deployment == Some(deployment@),
        config.deployment is None ==> config@.deployment is None,
        config.offer_params matches Some(offers) ==> config@.offer_params == Some(offers@),
        config.offer_params is None ==> config@.offer_params is None,
        config.rpc_url matches Some(url) ==> config@.rpc_url == Some(url@),
        config.rpc_url is None ==> config@.rpc_url is None,
{
}

/// A deployment shows its type and its order stream, and each stock order stream belongs to the
/// deployment that it is named after.
pub proof fn law_deployment_view_is_whole(deployment: Deployment, stock: StockOrderStreams)
    ensures
        deployment@.deployment_type == deployment.deployment_type,
        deployment.order_stream_url matches Some(url) ==> deployment@.order_stream_url == Some(
            url@,
        ),
        deployment.order_stream_url is None ==> deployment@.order_stream_url is None,
        stock.sepolia matches Some(url) ==> stock.of(DeploymentType::Sepolia) == Some(url@),
        stock.sepolia is None ==> stock.of(DeploymentType::Sepolia) is None,
        stock.base matches Some(url) ==> stock.of(DeploymentType::Base) == Some(url@),
        stock.base is None ==> stock.of(DeploymentType::Base) is None,
{
}

/// The agent shows its settings, and what it keeps of each request.
pub proof fn law_prover_view_is_whole(prover: BoundlessProver, id: Seq<char>)
    ensures
        prover@.config == prover.config@,
        prover@.deployment == prover.deployment@,
        prover@.boundless_config == prover.boundless_config@,
        prover@.active.contains_key(id) <==> prover.active_requests@.contains_key(id),
        prover.active_requests@.contains_key(id) ==> prover@.active[id]
            == prover.active_requests@[id]@,
        prover@.poll_errors == prover.poll_error_counts@,
{
}

/// The settings of the agent show each under its own name.
pub proof fn law_settings_view_is_whole(config: ProverConfig, client: ClientSettings)
    ensures
        config@.offchain == config.offchain,
        config@.pull_interval == config.pull_interval,
        config@.rpc_url == config.rpc_url@,
        config@.boundless_config == config.boundless_config@,
        config@.url_ttl == config.url_ttl,
        client@.rpc_url == client.rpc_url@,
        client@.signer_key == client.signer_key@,
        client@.signer_address == client.signer_address@,
{
}

/// The terms of a request show each under its own name.
pub proof fn law_terms_view_is_whole(terms: RequestTerms)
    ensures
        terms@.image_id == terms.image_id@,
        terms@.cycles == terms.cycles,
        terms@.journal == terms.journal@,
        terms@.ramp_up_period == terms.ramp_up_period,
        terms@.lock_timeout == terms.lock_timeout,
        terms@.timeout == terms.timeout,
        terms@.max_price == terms.max_price@,
        terms@.lock_collateral == terms.lock_collateral@,
        terms@.bidding_start == terms.bidding_start,
{
}

/// Each plan and each step shows which one it is and all that it carries.
pub proof fn law_plan_views_are_whole(run: RunPlan, poll: PollPlan, check: CheckStep)
    ensures
        run matches RunPlan::Existing { request_id } ==> run@ == (RunView::Existing {
            request_id: request_id@,
        }),
        run matches RunPlan::New { request } ==> run@ == (RunView::New { request: request@ }),
        poll matches PollPlan::Report(status) ==> poll@ == PollView::Report(status@),
        poll matches PollPlan::GiveUp(status) ==> poll@ == PollView::GiveUp(status@),
        poll is Wait <==> poll@ is Wait,
        check matches CheckStep::Done(Ok(status)) ==> check@ == CheckView::Done(Ok(status@)),
        check matches CheckStep::Done(Err(error)) ==> check@ == CheckView::Done(Err(error@)),
        check is FetchFulfillment <==> check@ is FetchFulfillment,
        check matches CheckStep::DecodeReceipt { image_id, seal, journal } ==> check@ == (
        CheckView::DecodeReceipt { image_id: image_id@, seal: seal@, journal: journal@ }),
{
}

/// A fulfillment shows its seal and what became of its journal.
pub proof fn law_fulfillment_view_is_whole(fulfillment: Fulfillment)
    ensures
        fulfillment@.seal == fulfillment.seal@,
        fulfillment.journal matches Ok(Some(bytes)) ==> fulfillment@.journal == Ok::<
            Option<Seq<u8>>,
            Seq<char>,
        >(Some(bytes@)),
        fulfillment.journal matches Ok(None) ==> fulfillment@.journal == Ok::<
            Option<Seq<u8>>,
            Seq<char>,
        >(None),
        fulfillment.journal matches Err(message) ==> fulfillment@.journal == Err::<
            Option<Seq<u8>>,
            Seq<char>,
        >(message@),
{
}

/// Each step of a submission shows which one it is and all that it carries.
pub proof fn law_submit_step_view_is_whole(step: SubmitStep)
    ensures
        step is Connect <==> step@ is Connect,
        step is EncodeInput <==> step@ is EncodeInput,
        step matches SubmitStep::UploadInput { env_bytes } ==> step@ == (
        SubmitStepView::UploadInput { env_bytes: env_bytes@ }),
        step matches SubmitStep::MakeTerms { mcycles } ==> step@ == (SubmitStepView::MakeTerms {
            mcycles,
        }),
        step matches SubmitStep::BuildRequest { terms } ==> step@ == (
        SubmitStepView::BuildRequest { terms: terms@ }),
        step matches SubmitStep::SubmitRequest { route } ==> step@ == (
        SubmitStepView::SubmitRequest { route }),
        step matches SubmitStep::StoreStatus { market_request_id, status } ==> step@ == (
        SubmitStepView::StoreStatus { market_request_id, status: status@ }),
        step matches SubmitStep::Poll { market_request_id } ==> step@ == (SubmitStepView::Poll {
            market_request_id,
        }),
        step matches SubmitStep::Fail(error) ==> step@ == SubmitStepView::Fail(error@),
{
}

/// Each event of a submission shows which one it is and what the step came to.
pub proof fn law_submit_event_view_is_whole(event: SubmitEvent)
    ensures
        event matches SubmitEvent::Connected(Ok(())) ==> event@ == SubmitEventView::Connected(
            Ok(()),
        ),
        event matches SubmitEvent::Connected(Err(error)) ==> event@ == SubmitEventView::Connected(
            Err(error@),
        ),
        event matches SubmitEvent::Encoded(Ok(bytes)) ==> event@ == SubmitEventView::Encoded(
            Ok(bytes@),
        ),
        event matches SubmitEvent::Encoded(Err(message)) ==> event@ == SubmitEventView::Encoded(
            Err(message@),
        ),
        event matches SubmitEvent::Uploaded(Ok(())) ==> event@ == SubmitEventView::Uploaded(Ok(())),
        event matches SubmitEvent::Uploaded(Err(message)) ==> event@ == SubmitEventView::Uploaded(
            Err(message@),
        ),
        event matches SubmitEvent::TermsMade(Ok(terms)) ==> event@ == SubmitEventView::TermsMade(
            Ok(terms@),
        ),
        event matches SubmitEvent::TermsMade(Err(error)) ==> event@ == SubmitEventView::TermsMade(
            Err(error@),
        ),
        event matches SubmitEvent::Built(Ok(())) ==> event@ == SubmitEventView::Built(Ok(())),
        event matches SubmitEvent::Built(Err(message)) ==> event@ == SubmitEventView::Built(
            Err(message@),
        ),
        event matches SubmitEvent::Submitted(Ok(id)) ==> event@ == SubmitEventView::Submitted(
            Ok(id),
        ),
        event matches SubmitEvent::Submitted(Err(error)) ==> event@ == SubmitEventView::Submitted(
            Err(error@),
        ),
        event matches SubmitEvent::StatusStored { market_request_id, stored } ==> (event@ matches
            SubmitEventView::StatusStored { market_request_id: id, stored: took } && id
            == market_request_id && (took is Ok <==> stored is Ok)),
{
}

/// Each event of the cleanup task shows which one it is and which requests were deleted.
pub proof fn law_cleanup_event_view_is_whole(event: CleanupEvent, id: Seq<char>)
    ensures
        event is Started <==> event@ is Started,
        event is Waited <==> event@ is Waited,
        event matches CleanupEvent::Deleted(Ok(ids)) ==> (event@ matches CleanupEventView::Deleted(
            Ok(deleted),
        ) && (deleted.contains(id) <==> exists|i: int|
            0 <= i < ids@.len() && #[trigger] ids@[i]@ == id)),
        event matches CleanupEvent::Deleted(Err(error)) ==> event@ == CleanupEventView::Deleted(
            Err(error@),
        ),
{
}

/// The limbs of a 256-bit integer count in powers of two to the power of 64.
pub proof fn law_limbs_have_their_weights(n: U256)
    ensures
        n@ == n.limb0 + n.limb1 * pow2(64) + n.limb2 * pow2(128) + n.limb3 * pow2(192),
        n@ < pow2(256),
{
    vstd::arithmetic::power2::lemma2_to64();
    vstd::arithmetic::power2::lemma2_to64_rest();
    vstd::arithmetic::power2::lemma_pow2_adds(64, 64);
    vstd::arithmetic::power2::lemma_pow2_adds(128, 64);
    vstd::arithmetic::power2::lemma_pow2_adds(192, 64);
    let b: int = 0x1_0000_0000_0000_0000;
    let (x, y, z, w) = (n.limb0 as int, n.limb1 as int, n.limb2 as int, n.limb3 as int);
    assert(x + b * (y + b * (z + b * w)) == x + y * b + z * (b * b) + w * (b * b * b))
        by (nonlinear_arith);
    assert(x + y * b + z * (b * b) + w * (b * b * b) < b * b * b * b) by (nonlinear_arith)
        requires
            0 <= x < b,
            0 <= y < b,
            0 <= z < b,
            0 <= w < b,
            b == 0x1_0000_0000_0000_0000,
    ;
}

} // verus!
