//! What the calls on the configuration promise.

use crate::client::{client_settings, rpc_url_of, signer_address_of, ClientSettings};
use crate::client::{parsed_signer, parsed_url};
use crate::config::{BoundlessConfig, BoundlessOfferParams, Deployment, DeploymentConfig};
use crate::config::{DeploymentType, OfferParamsConfig, StockOrderStreams};
use crate::error::{AgentError, AgentResult};
use crate::json::copy_entries;
use crate::json::{object_entries, value_entries, value_text};
use crate::promises::basics::same_letter;
use crate::prover::{BoundlessProver, ProverConfig};
use crate::prover::{database_path, image_name, images_to_refresh};
use crate::types::ProofType;
use serde_json::Value;
use vstd::prelude::*;

verus! {

/// The batch offer that a configuration provides.
pub open spec fn batch_entry(config: BoundlessConfig) -> Option<BoundlessOfferParams> {
    match config.offer_params {
        Some(offers) => offers.batch,
        None => None,
    }
}

/// The aggregation offer that a configuration provides.
pub open spec fn aggregation_entry(config: BoundlessConfig) -> Option<BoundlessOfferParams> {
    match config.offer_params {
        Some(offers) => offers.aggregation,
        None => None,
    }
}

/// The deployment type that a configuration provides.
pub open spec fn type_entry(config: BoundlessConfig) -> Option<DeploymentType> {
    match config.deployment {
        Some(deployment) => deployment.deployment_type,
        None => None,
    }
}

/// The overrides that a configuration provides.
pub open spec fn overrides_entry(config: BoundlessConfig) -> Option<Value> {
    match config.deployment {
        Some(deployment) => deployment.overrides,
        None => None,
    }
}

/// Whether two offers are the same in every price and time.
pub open spec fn same_offer(a: BoundlessOfferParams, b: BoundlessOfferParams) -> bool {
    &&& a.ramp_up_sec == b.ramp_up_sec
    &&& a.lock_timeout_ms_per_mcycle == b.lock_timeout_ms_per_mcycle
    &&& a.timeout_ms_per_mcycle == b.timeout_ms_per_mcycle
    &&& a.max_price_per_mcycle@ == b.max_price_per_mcycle@
    &&& a.min_price_per_mcycle@ == b.min_price_per_mcycle@
    &&& a.lock_collateral@ == b.lock_collateral@
}

/// Where an offer is configured it is the one in effect, in every price and time; where none is,
/// the one that comes with the agent is.
pub proof fn law_configured_offers_are_in_effect(
    config: BoundlessConfig,
    batch: BoundlessOfferParams,
    aggregation: BoundlessOfferParams,
    own_batch: BoundlessOfferParams,
    own_aggregation: BoundlessOfferParams,
)
    requires
        call_ensures(BoundlessConfig::get_batch_offer_params, (&config,), batch),
        call_ensures(BoundlessConfig::get_aggregation_offer_params, (&config,), aggregation),
        call_ensures(BoundlessOfferParams::batch, (), own_batch),
        call_ensures(BoundlessOfferParams::aggregation, (), own_aggregation),
    ensures
        match batch_entry(config) {
            Some(offer) => same_offer(batch, offer),
            None => same_offer(batch, own_batch),
        },
        match aggregation_entry(config) {
            Some(offer) => same_offer(aggregation, offer),
            None => same_offer(aggregation, own_aggregation),
        },
{
    assert(batch@ == config@.batch_offer());
    assert(aggregation@ == config@.aggregation_offer());
}

/// The offers that come with the agent. A batch is given more time and a higher price.
pub proof fn law_own_offers(
    batch: BoundlessOfferParams,
    aggregation: BoundlessOfferParams,
    default: BoundlessOfferParams,
)
    requires
        call_ensures(BoundlessOfferParams::batch, (), batch),
        call_ensures(BoundlessOfferParams::aggregation, (), aggregation),
        call_ensures(<BoundlessOfferParams as Default>::default, (), default),
    ensures
        batch.ramp_up_sec == 1000 && batch.lock_timeout_ms_per_mcycle == 5000
            && batch.timeout_ms_per_mcycle == 10800,
        batch.max_price_per_mcycle@ == "0.00003"@ && batch.min_price_per_mcycle@ == "0.000005"@
            && batch.lock_collateral@ == "0.0001"@,
        aggregation.ramp_up_sec == 200 && aggregation.lock_timeout_ms_per_mcycle == 1000
            && aggregation.timeout_ms_per_mcycle == 3000,
        aggregation.max_price_per_mcycle@ == "0.00001"@ && aggregation.min_price_per_mcycle@
            == "0.000003"@ && aggregation.lock_collateral@ == "0.0001"@,
        same_offer(default, aggregation),
{
    assert(default@ == aggregation@);
}

/// The deployment in use is the configured one, else Sepolia. Its order stream is the text that the
/// overrides hold under its name, else the one that the deployment comes with.
pub proof fn law_configured_deployment_is_in_use(
    config: BoundlessConfig,
    stock: StockOrderStreams,
    chosen: DeploymentType,
    r: Deployment,
)
    requires
        call_ensures(BoundlessConfig::get_deployment_type, (&config,), chosen),
        call_ensures(BoundlessConfig::get_effective_deployment, (&config, &stock), r),
    ensures
        type_entry(config) matches Some(entry) ==> chosen == entry,
        type_entry(config) is None ==> chosen is Sepolia,
        r.deployment_type == chosen,
        ({
            let named = match overrides_entry(config) {
                Some(value) => match value_entries(value) {
                    Some(entries) if entries.contains_key("order_stream_url"@) => value_text(
                        entries["order_stream_url"@],
                    ),
                    _ => None,
                },
                None => None,
            };
            let own = if chosen is Sepolia {
                stock.sepolia
            } else {
                stock.base
            };
            match named {
                Some(url) => r.order_stream_url matches Some(text) && text@ == url,
                None => match own {
                    Some(url) => r.order_stream_url matches Some(text) && text@ == url@,
                    None => r.order_stream_url is None,
                },
            }
        }),
{
    assert(r@.order_stream_url == crate::types::text_view(r.order_stream_url));
}

/// After a merge each part of the configuration is the other's where the other provides it, and
/// what it was before where it does not.
pub proof fn law_merge_takes_what_is_provided(config: &mut BoundlessConfig, other: BoundlessConfig)
    requires
        call_ensures(BoundlessConfig::merge, (config, &other), ()),
    ensures
        match (batch_entry(other), batch_entry(*old(config))) {
            (Some(provided), _) => batch_entry(*final(config)) matches Some(after) && same_offer(
                after,
                provided,
            ),
            (None, Some(before)) => batch_entry(*final(config)) matches Some(after) && same_offer(
                after,
                before,
            ),
            (None, None) => batch_entry(*final(config)) is None,
        },
        match (aggregation_entry(other), aggregation_entry(*old(config))) {
            (Some(provided), _) => aggregation_entry(*final(config)) matches Some(after)
                && same_offer(after, provided),
            (None, Some(before)) => aggregation_entry(*final(config)) matches Some(after)
                && same_offer(after, before),
            (None, None) => aggregation_entry(*final(config)) is None,
        },
        type_entry(*final(config)) == match type_entry(other) {
            Some(provided) => Some(provided),
            None => type_entry(*old(config)),
        },
        match (other.rpc_url, old(config).rpc_url) {
            (Some(provided), _) => final(config).rpc_url matches Some(after) && after@ == provided@,
            (None, Some(before)) => final(config).rpc_url matches Some(after) && after@ == before@,
            (None, None) => final(config).rpc_url is None,
        },
{
    let after = final(config)@;
    assert(after == old(config)@.merged(other@));
    lemma_entries_of_the_view(*final(config));
    lemma_entries_of_the_view(*old(config));
    lemma_entries_of_the_view(other);
    assert(crate::types::text_view(final(config).rpc_url) == after.rpc_url);
    assert(crate::types::text_view(old(config).rpc_url) == old(config)@.rpc_url);
}

/// What a view shows of a configuration is what the configuration provides.
proof fn lemma_entries_of_the_view(config: BoundlessConfig)
    ensures
        type_entry(config) == match config@.deployment {
            Some(deployment) => deployment.deployment_type,
            None => None,
        },
        crate::config::offer_view(batch_entry(config)) == match config@.offer_params {
            Some(offers) => offers.batch,
            None => None,
        },
        crate::config::offer_view(aggregation_entry(config)) == match config@.offer_params {
            Some(offers) => offers.aggregation,
            None => None,
        },
        crate::config::overrides_view(overrides_entry(config)) == match config@.deployment {
            Some(deployment) => deployment.overrides,
            None => crate::config::OverridesView::Absent,
        },
{
}

/// After a merge every entry of the other's overrides is there. What the overrides held before is
/// there too, unless the other has an entry under the same key or one of the two is no object.
/// Overrides that cannot be merged are taken as the other provides them.
pub proof fn law_merge_joins_overrides(
    config: &mut BoundlessConfig,
    other: BoundlessConfig,
    key: Seq<char>,
)
    requires
        call_ensures(BoundlessConfig::merge, (config, &other), ()),
    ensures
        match (overrides_entry(other), overrides_entry(*old(config))) {
            (None, None) => overrides_entry(*final(config)) is None,
            (None, Some(before)) => overrides_entry(*final(config)) matches Some(after)
                && value_entries(after) == value_entries(before) && (value_entries(before) is None
                ==> after == before),
            (Some(provided), before) => overrides_entry(*final(config)) matches Some(after)
                && match value_entries(provided) {
                None => after == provided,
                Some(added) => value_entries(after) matches Some(entries) && {
                    let kept = match before {
                        Some(value) => match value_entries(value) {
                            Some(held) => held,
                            None => Map::empty(),
                        },
                        None => Map::empty(),
                    };
                    &&& entries.contains_key(key) <==> added.contains_key(key) || kept.contains_key(
                        key,
                    )
                    &&& added.contains_key(key) ==> entries[key] == added[key]
                    &&& !added.contains_key(key) && kept.contains_key(key) ==> entries[key]
                        == kept[key]
                },
            },
        },
{
    let after = final(config)@;
    assert(after == old(config)@.merged(other@));
    lemma_entries_of_the_view(*final(config));
    lemma_entries_of_the_view(*old(config));
    lemma_entries_of_the_view(other);
}

/// Copying the entries of an object into another leaves each key with the copied value where there
/// is one, and with what it led to before where there is none.
pub proof fn law_copied_entries_are_there(
    object: &mut serde_json::Map<String, Value>,
    other: serde_json::Map<String, Value>,
    key: Seq<char>,
)
    requires
        call_ensures(copy_entries, (object, &other), ()),
    ensures
        ({
            let before = object_entries(*old(object));
            let added = object_entries(other);
            let after = object_entries(*final(object));
            &&& after.contains_key(key) <==> before.contains_key(key) || added.contains_key(key)
            &&& added.contains_key(key) ==> after[key] == added[key]
            &&& before.contains_key(key) && !added.contains_key(key) ==> after[key] == before[key]
        }),
{
}

/// A copy of a configuration, or of a part of one, says the same.
pub proof fn law_copied_settings_are_the_same(
    offer: BoundlessOfferParams,
    deployment: DeploymentConfig,
    offers: OfferParamsConfig,
    config: BoundlessConfig,
    effective: Deployment,
    settings: ProverConfig,
    offer_r: BoundlessOfferParams,
    deployment_r: DeploymentConfig,
    offers_r: OfferParamsConfig,
    config_r: BoundlessConfig,
    effective_r: Deployment,
    settings_r: ProverConfig,
)
    requires
        call_ensures(<BoundlessOfferParams as Clone>::clone, (&offer,), offer_r),
        call_ensures(<DeploymentConfig as Clone>::clone, (&deployment,), deployment_r),
        call_ensures(<OfferParamsConfig as Clone>::clone, (&offers,), offers_r),
        call_ensures(<BoundlessConfig as Clone>::clone, (&config,), config_r),
        call_ensures(<Deployment as Clone>::clone, (&effective,), effective_r),
        call_ensures(<ProverConfig as Clone>::clone, (&settings,), settings_r),
    ensures
        same_offer(offer_r, offer),
        deployment_r@ == deployment@,
        offers_r@ == offers@,
        config_r@ == config@,
        effective_r@ == effective@,
        settings_r@ == settings@,
{
}

/// The name of a deployment is read without regard to the case of its letters, and nothing else
/// is read as one.
pub proof fn law_deployments_are_read_by_name(text: &str, r: Result<DeploymentType, String>)
    requires
        call_ensures(DeploymentType::from_str, (text,), r),
    ensures
        (r matches Ok(DeploymentType::Sepolia)) <==> text@.len() == "sepolia"@.len() && forall|
            i: int,
        |
            0 <= i < text@.len() ==> same_letter(#[trigger] text@[i], "sepolia"@[i]),
        (r matches Ok(DeploymentType::Base)) <==> text@.len() == "base"@.len() && forall|i: int|
            0 <= i < text@.len() ==> same_letter(#[trigger] text@[i], "base"@[i]),
        r matches Err(message) ==> message@ == "Unknown deployment type: "@ + text@,
{
    assert forall|a: char, b: char| #[trigger] same_letter(a, b) <==> crate::text::lower(a)
        == crate::text::lower(b) by {}
}

/// The market client's settings are the parsed URL, the key as it is, and the address that belongs
/// to the key. The URL is looked at first, whatever the key; a missing key comes before a bad one.
pub proof fn law_client_settings_belong_together(
    rpc_url: &str,
    signer_key: Option<String>,
    r: AgentResult<ClientSettings>,
)
    requires
        call_ensures(client_settings, (rpc_url, signer_key), r),
    ensures
        r matches Ok(settings) ==> parsed_url(rpc_url@) == Ok::<Seq<char>, Seq<char>>(
            settings.rpc_url@,
        ) && (signer_key matches Some(key) && settings.signer_key@ == key@ && parsed_signer(key@)
            == Ok::<Seq<u8>, Seq<char>>(settings.signer_address@)),
        match parsed_url(rpc_url@) {
            Err(reason) => r matches Err(AgentError::ClientBuildError(text)) && text@
                == "Invalid rpc_url: "@ + reason,
            Ok(_) => match signer_key {
                None => r matches Err(AgentError::ClientBuildError(text)) && text@
                    == "BOUNDLESS_SIGNER_KEY is not set"@,
                Some(key) => match parsed_signer(key@) {
                    Err(reason) => r matches Err(AgentError::ClientBuildError(text)) && text@
                        == "Invalid signer key: "@ + reason,
                    Ok(_) => r is Ok,
                },
            },
        },
{
}

/// A parsed URL and a parsed signer are handed on as they are, and a failure tells its reason.
pub proof fn law_parsed_settings_are_handed_on(
    url: Result<String, String>,
    signer: Result<[u8; 20], String>,
    url_r: AgentResult<String>,
    signer_r: AgentResult<[u8; 20]>,
)
    requires
        call_ensures(rpc_url_of, (url,), url_r),
        call_ensures(signer_address_of, (signer,), signer_r),
    ensures
        url is Ok ==> url_r is Ok && url_r->Ok_0@ == url->Ok_0@,
        url matches Err(reason) ==> (url_r matches Err(AgentError::ClientBuildError(text)) && text@
            == "Invalid rpc_url: "@ + reason@),
        signer is Ok ==> signer_r is Ok && signer_r->Ok_0@ == signer->Ok_0@,
        signer matches Err(reason) ==> (signer_r matches Err(AgentError::ClientBuildError(text))
            && text@ == "Invalid signer key: "@ + reason@),
{
}

/// A new agent has the settings that it was given, uses the deployment that they name, and
/// remembers nothing.
pub proof fn law_new_agent_has_its_settings(
    config: ProverConfig,
    stock: StockOrderStreams,
    deployment: Deployment,
    created: AgentResult<Deployment>,
    r: AgentResult<BoundlessProver>,
    id: Seq<char>,
)
    requires
        call_ensures(
            BoundlessConfig::get_effective_deployment,
            (&config.boundless_config, &stock),
            deployment,
        ),
        call_ensures(BoundlessProver::create_deployment, (&config, &stock), created),
        call_ensures(BoundlessProver::new, (config, &stock), r),
    ensures
        created matches Ok(d) && d.deployment_type == deployment.deployment_type
            && d@.order_stream_url == deployment@.order_stream_url,
        r matches Ok(prover) && prover.config.offchain == config.offchain
            && prover.config.pull_interval == config.pull_interval && prover.config.rpc_url@
            == config.rpc_url@ && prover.config.url_ttl == config.url_ttl
            && prover.config.boundless_config@ == config.boundless_config@
            && prover.boundless_config@ == config.boundless_config@ && prover.deployment@
            == deployment@ && !prover.active_requests@.contains_key(id)
            && !prover.poll_error_counts@.contains_key(id),
{
    assert(r matches Ok(prover) && !prover@.active.contains_key(id));
}

/// The settings that are asked for are the agent's own, and the settings where none are given.
pub proof fn law_settings_are_told(
    prover: BoundlessProver,
    r: ProverConfig,
    default: ProverConfig,
    default_config: BoundlessConfig,
)
    requires
        call_ensures(BoundlessProver::prover_config, (&prover,), r),
        call_ensures(<ProverConfig as Default>::default, (), default),
        call_ensures(<BoundlessConfig as Default>::default, (), default_config),
    ensures
        r.offchain == prover.config.offchain,
        r.pull_interval == prover.config.pull_interval,
        r.rpc_url@ == prover.config.rpc_url@,
        r.boundless_config@ == prover.config.boundless_config@,
        r.url_ttl == prover.config.url_ttl,
        !default.offchain && default.pull_interval == 10 && default.url_ttl == 1800
            && default.rpc_url@ == "https://base-rpc.publicnode.com"@,
        default.boundless_config@ == default_config@,
        type_entry(default_config) == Some(DeploymentType::Sepolia),
        overrides_entry(default_config) is None,
        default_config.rpc_url is None,
        batch_entry(default_config) matches Some(offer) && offer@ == crate::config::batch_offer(),
        aggregation_entry(default_config) matches Some(offer) && offer@
            == crate::config::aggregation_offer(),
{
    lemma_entries_of_the_view(default_config);
}

/// The store is where the environment says, whatever it says; programs are uploaded under the names
/// of their types; and exactly the programs that have been uploaded are renewed, the batch's first.
pub proof fn law_start_up_goes_by_what_is_there(
    path: Option<String>,
    path_r: String,
    proof_type: ProofType,
    name: &'static str,
    batch: bool,
    aggregation: bool,
    images: Vec<ProofType>,
)
    requires
        call_ensures(database_path, (path,), path_r),
        call_ensures(image_name, (&proof_type,), name),
        call_ensures(images_to_refresh, (batch, aggregation), images),
    ensures
        path is Some ==> path_r@ == path->0@,
        path is None ==> path_r@ == "./boundless_requests.db"@,
        proof_type is Batch ==> name@ == "batch"@,
        proof_type is Aggregate ==> name@ == "aggregation"@,
        images@.contains(ProofType::Batch) <==> batch,
        images@.contains(ProofType::Aggregate) <==> aggregation,
        images@.no_duplicates(),
        batch ==> images@[0] is Batch,
{
    if batch {
        assert(images@[0] == ProofType::Batch);
    }
    if aggregation {
        assert(images@[images@.len() - 1] == ProofType::Aggregate);
    }
}

} // verus!
