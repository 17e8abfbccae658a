//! The market configuration: deployment, prices and timeouts, and how one configuration is
//! merged over another.

use crate::json::{copy_entries, value_get};
use crate::json::{value_entries, value_text};
use crate::text::same_but_case;
use crate::text::{eq_but_case, join};
use crate::types::copy_text;
use crate::types::text_view;
use serde_json::Value;
use vstd::prelude::*;

verus! {

/// The chains that the market is deployed on.
#[derive(Clone, Copy, Debug, PartialEq, Eq, Structural)]
pub enum DeploymentType {
    Sepolia,
    Base,
}

impl DeploymentType {
    /// Reads the name of a deployment without regard to case.
    pub fn from_str(text: &str) -> (r: Result<DeploymentType, String>)
        ensures
            r == Ok::<DeploymentType, String>(DeploymentType::Sepolia) <==> same_but_case(
                text@,
                "sepolia"@,
            ),
            r == Ok::<DeploymentType, String>(DeploymentType::Base) <==> same_but_case(
                text@,
                "base"@,
            ),
            r matches Err(message) ==> message@ == "Unknown deployment type: "@ + text@,
    {
        proof {
            reveal_strlit("sepolia");
            reveal_strlit("base");
        }
        if eq_but_case(text, "sepolia") {
            Ok(DeploymentType::Sepolia)
        } else if eq_but_case(text, "base") {
            Ok(DeploymentType::Base)
        } else {
            Err(join("Unknown deployment type: ", text))
        }
    }
}

/// Prices and timeouts that a request is offered with.
#[derive(Debug)]
pub struct BoundlessOfferParams {
    pub ramp_up_sec: u32,
    pub lock_timeout_ms_per_mcycle: u32,
    pub timeout_ms_per_mcycle: u32,
    pub max_price_per_mcycle: String,
    pub min_price_per_mcycle: String,
    pub lock_collateral: String,
}

/// What the prices and timeouts of an offer say.
#[verifier::ext_equal]
pub struct OfferView {
    pub ramp_up_sec: u32,
    pub lock_timeout_ms_per_mcycle: u32,
    pub timeout_ms_per_mcycle: u32,
    pub max_price_per_mcycle: Seq<char>,
    pub min_price_per_mcycle: Seq<char>,
    pub lock_collateral: Seq<char>,
}

impl View for BoundlessOfferParams {
    type V = OfferView;

    open spec fn view(&self) -> OfferView {
        OfferView {
            ramp_up_sec: self.ramp_up_sec,
            lock_timeout_ms_per_mcycle: self.lock_timeout_ms_per_mcycle,
            timeout_ms_per_mcycle: self.timeout_ms_per_mcycle,
            max_price_per_mcycle: self.max_price_per_mcycle@,
            min_price_per_mcycle: self.min_price_per_mcycle@,
            lock_collateral: self.lock_collateral@,
        }
    }
}

/// The offer for an aggregation where none is configured.
pub open spec fn aggregation_offer() -> OfferView {
    OfferView {
        ramp_up_sec: 200,
        lock_timeout_ms_per_mcycle: 1000,
        timeout_ms_per_mcycle: 3000,
        max_price_per_mcycle: "0.00001"@,
        min_price_per_mcycle: "0.000003"@,
        lock_collateral: "0.0001"@,
    }
}

/// The offer for a batch where none is configured.
pub open spec fn batch_offer() -> OfferView {
    OfferView {
        ramp_up_sec: 1000,
        lock_timeout_ms_per_mcycle: 5000,
        timeout_ms_per_mcycle: 10800,
        max_price_per_mcycle: "0.00003"@,
        min_price_per_mcycle: "0.000005"@,
        lock_collateral: "0.0001"@,
    }
}

impl Clone for BoundlessOfferParams {
    fn clone(&self) -> (r: Self)
        ensures
            r@ == self@,
            r == *self,
    {
        BoundlessOfferParams {
            ramp_up_sec: self.ramp_up_sec,
            lock_timeout_ms_per_mcycle: self.lock_timeout_ms_per_mcycle,
            timeout_ms_per_mcycle: self.timeout_ms_per_mcycle,
            max_price_per_mcycle: self.max_price_per_mcycle.clone(),
            min_price_per_mcycle: self.min_price_per_mcycle.clone(),
            lock_collateral: self.lock_collateral.clone(),
        }
    }
}

impl Default for BoundlessOfferParams {
    fn default() -> (r: Self)
        ensures
            r@ == aggregation_offer(),
    {
        BoundlessOfferParams::aggregation()
    }
}

impl BoundlessOfferParams {
    /// The offer for an aggregation where none is configured.
    pub fn aggregation() -> (r: Self)
        ensures
            r@ == aggregation_offer(),
    {
        BoundlessOfferParams {
            ramp_up_sec: 200,
            lock_timeout_ms_per_mcycle: 1000,
            timeout_ms_per_mcycle: 3000,
            max_price_per_mcycle: "0.00001".to_owned(),
            min_price_per_mcycle: "0.000003".to_owned(),
            lock_collateral: "0.0001".to_owned(),
        }
    }

    /// The offer for a batch where none is configured.
    pub fn batch() -> (r: Self)
        ensures
            r@ == batch_offer(),
    {
        BoundlessOfferParams {
            ramp_up_sec: 1000,
            lock_timeout_ms_per_mcycle: 5000,
            timeout_ms_per_mcycle: 3600 * 3,
            max_price_per_mcycle: "0.00003".to_owned(),
            min_price_per_mcycle: "0.000005".to_owned(),
            lock_collateral: "0.0001".to_owned(),
        }
    }
}

/// Which deployment to use, and what to change in it.
#[derive(Debug)]
pub struct DeploymentConfig {
    pub deployment_type: Option<DeploymentType>,
    pub overrides: Option<Value>,
}

/// The offers that are configured.
#[derive(Debug)]
pub struct OfferParamsConfig {
    pub batch: Option<BoundlessOfferParams>,
    pub aggregation: Option<BoundlessOfferParams>,
}

/// The market configuration. What is absent is left to the defaults.
#[derive(Debug)]
pub struct BoundlessConfig {
    pub deployment: Option<DeploymentConfig>,
    pub offer_params: Option<OfferParamsConfig>,
    pub rpc_url: Option<String>,
}

/// What the overrides of a deployment say.
#[verifier::ext_equal]
pub enum OverridesView {
    Absent,
    Object(Map<Seq<char>, Value>),
    Other(Value),
}

/// What a deployment's configuration says.
#[verifier::ext_equal]
pub struct DeploymentConfigView {
    pub deployment_type: Option<DeploymentType>,
    pub overrides: OverridesView,
}

/// What the configured offers say.
#[verifier::ext_equal]
pub struct OfferParamsView {
    pub batch: Option<OfferView>,
    pub aggregation: Option<OfferView>,
}

/// What a market configuration says.
#[verifier::ext_equal]
pub struct ConfigView {
    pub deployment: Option<DeploymentConfigView>,
    pub offer_params: Option<OfferParamsView>,
    pub rpc_url: Option<Seq<char>>,
}

/// What optional overrides say.
pub open spec fn overrides_view(overrides: Option<Value>) -> OverridesView {
    match overrides {
        None => OverridesView::Absent,
        Some(value) => match value_entries(value) {
            Some(entries) => OverridesView::Object(entries),
            None => OverridesView::Other(value),
        },
    }
}

/// What an optional offer says.
pub open spec fn offer_view(offer: Option<BoundlessOfferParams>) -> Option<OfferView> {
    match offer {
        Some(params) => Some(params@),
        None => None,
    }
}

impl View for DeploymentConfig {
    type V = DeploymentConfigView;

    open spec fn view(&self) -> DeploymentConfigView {
        DeploymentConfigView {
            deployment_type: self.deployment_type,
            overrides: overrides_view(self.overrides),
        }
    }
}

impl View for OfferParamsConfig {
    type V = OfferParamsView;

    open spec fn view(&self) -> OfferParamsView {
        OfferParamsView { batch: offer_view(self.batch), aggregation: offer_view(self.aggregation) }
    }
}

impl View for BoundlessConfig {
    type V = ConfigView;

    open spec fn view(&self) -> ConfigView {
        ConfigView {
            deployment: match self.deployment {
                Some(deployment) => Some(deployment@),
                None => None,
            },
            offer_params: match self.offer_params {
                Some(offer_params) => Some(offer_params@),
                None => None,
            },
            rpc_url: text_view(self.rpc_url),
        }
    }
}

impl Clone for DeploymentConfig {
    fn clone(&self) -> (r: Self)
        ensures
            r@ == self@,
    {
        DeploymentConfig {
            deployment_type: self.deployment_type,
            overrides: match &self.overrides {
                Some(value) => Some(value.clone()),
                None => None,
            },
        }
    }
}

fn copy_offer(offer: &Option<BoundlessOfferParams>) -> (r: Option<BoundlessOfferParams>)
    ensures
        offer_view(r) == offer_view(*offer),
{
    match offer {
        Some(params) => Some(params.clone()),
        None => None,
    }
}

impl Clone for OfferParamsConfig {
    fn clone(&self) -> (r: Self)
        ensures
            r@ == self@,
    {
        OfferParamsConfig {
            batch: copy_offer(&self.batch),
            aggregation: copy_offer(&self.aggregation),
        }
    }
}

impl Clone for BoundlessConfig {
    fn clone(&self) -> (r: Self)
        ensures
            r@ == self@,
    {
        BoundlessConfig {
            deployment: match &self.deployment {
                Some(deployment) => Some(deployment.clone()),
                None => None,
            },
            offer_params: match &self.offer_params {
                Some(offer_params) => Some(offer_params.clone()),
                None => None,
            },
            rpc_url: copy_text(&self.rpc_url),
        }
    }
}

/// The value of `other` where there is one, else that of `base`.
pub open spec fn merged_value<T>(base: Option<T>, other: Option<T>) -> Option<T> {
    match other {
        Some(value) => Some(value),
        None => base,
    }
}

impl OverridesView {
    /// These overrides with `other` merged over them: what `other` provides is taken, an object
    /// key by key where there is an object to merge it over.
    pub open spec fn merged(self, other: OverridesView) -> OverridesView {
        match (self, other) {
            (base, OverridesView::Absent) => base,
            (OverridesView::Object(base), OverridesView::Object(added)) => OverridesView::Object(
                base.union_prefer_right(added),
            ),
            (_, added) => added,
        }
    }

    /// The order stream that the overrides name.
    pub open spec fn order_stream_url(self) -> Option<Seq<char>> {
        match self {
            OverridesView::Object(entries) if entries.contains_key("order_stream_url"@) => {
                value_text(entries["order_stream_url"@])
            },
            _ => None,
        }
    }
}

impl DeploymentConfigView {
    /// This configuration with `other` merged over it.
    pub open spec fn merged(self, other: DeploymentConfigView) -> DeploymentConfigView {
        DeploymentConfigView {
            deployment_type: merged_value(self.deployment_type, other.deployment_type),
            overrides: self.overrides.merged(other.overrides),
        }
    }
}

impl OfferParamsView {
    /// These offers with `other` merged over them.
    pub open spec fn merged(self, other: OfferParamsView) -> OfferParamsView {
        OfferParamsView {
            batch: merged_value(self.batch, other.batch),
            aggregation: merged_value(self.aggregation, other.aggregation),
        }
    }
}

impl ConfigView {
    /// This configuration with `other` merged over it: what `other` provides is taken from it.
    pub open spec fn merged(self, other: ConfigView) -> ConfigView {
        ConfigView {
            deployment: match (self.deployment, other.deployment) {
                (Some(base), Some(added)) => Some(base.merged(added)),
                (base, added) => merged_value(base, added),
            },
            offer_params: match (self.offer_params, other.offer_params) {
                (Some(base), Some(added)) => Some(base.merged(added)),
                (base, added) => merged_value(base, added),
            },
            rpc_url: merged_value(self.rpc_url, other.rpc_url),
        }
    }

    /// The deployment to use: the configured one, else Sepolia.
    pub open spec fn deployment_type(self) -> DeploymentType {
        match self.deployment {
            Some(deployment) => match deployment.deployment_type {
                Some(deployment_type) => deployment_type,
                None => DeploymentType::Sepolia,
            },
            None => DeploymentType::Sepolia,
        }
    }

    /// The order stream that the configuration names in place of the deployment's own.
    pub open spec fn order_stream_override(self) -> Option<Seq<char>> {
        match self.deployment {
            Some(deployment) => deployment.overrides.order_stream_url(),
            None => None,
        }
    }

    /// The offer for a batch: the configured one, else the default.
    pub open spec fn batch_offer(self) -> OfferView {
        match self.offer_params {
            Some(offer_params) => match offer_params.batch {
                Some(offer) => offer,
                None => batch_offer(),
            },
            None => batch_offer(),
        }
    }

    /// The offer for an aggregation: the configured one, else the default.
    pub open spec fn aggregation_offer(self) -> OfferView {
        match self.offer_params {
            Some(offer_params) => match offer_params.aggregation {
                Some(offer) => offer,
                None => aggregation_offer(),
            },
            None => aggregation_offer(),
        }
    }
}

/// The configuration where none is given.
pub open spec fn default_config() -> ConfigView {
    ConfigView {
        deployment: Some(
            DeploymentConfigView {
                deployment_type: Some(DeploymentType::Sepolia),
                overrides: OverridesView::Absent,
            },
        ),
        offer_params: Some(
            OfferParamsView {
                batch: Some(batch_offer()),
                aggregation: Some(aggregation_offer()),
            },
        ),
        rpc_url: None,
    }
}

impl Default for BoundlessConfig {
    fn default() -> (r: Self)
        ensures
            r@ == default_config(),
    {
        BoundlessConfig {
            deployment: Some(
                DeploymentConfig {
                    deployment_type: Some(DeploymentType::Sepolia),
                    overrides: None,
                },
            ),
            offer_params: Some(
                OfferParamsConfig {
                    batch: Some(BoundlessOfferParams::batch()),
                    aggregation: Some(BoundlessOfferParams::aggregation()),
                },
            ),
            rpc_url: None,
        }
    }
}

/// What the agent knows of a deployment of the market.
#[derive(Debug)]
pub struct Deployment {
    pub deployment_type: DeploymentType,
    pub order_stream_url: Option<String>,
}

/// What a deployment says.
#[verifier::ext_equal]
pub struct DeploymentView {
    pub deployment_type: DeploymentType,
    pub order_stream_url: Option<Seq<char>>,
}

impl View for Deployment {
    type V = DeploymentView;

    open spec fn view(&self) -> DeploymentView {
        DeploymentView {
            deployment_type: self.deployment_type,
            order_stream_url: text_view(self.order_stream_url),
        }
    }
}

impl Clone for Deployment {
    fn clone(&self) -> (r: Self)
        ensures
            r@ == self@,
    {
        Deployment {
            deployment_type: self.deployment_type,
            order_stream_url: copy_text(&self.order_stream_url),
        }
    }
}

/// The order streams that the market's own deployments come with.
#[derive(Debug)]
pub struct StockOrderStreams {
    pub sepolia: Option<String>,
    pub base: Option<String>,
}

impl StockOrderStreams {
    /// The order stream that a deployment comes with.
    pub open spec fn of(self, deployment_type: DeploymentType) -> Option<Seq<char>> {
        match deployment_type {
            DeploymentType::Sepolia => text_view(self.sepolia),
            DeploymentType::Base => text_view(self.base),
        }
    }
}

fn merge_overrides(overrides: &mut Option<Value>, other: &Option<Value>)
    ensures
        overrides_view(*final(overrides)) == overrides_view(*old(overrides)).merged(
            overrides_view(*other),
        ),
{
    if let Some(added) = other {
        if let Some(base) = overrides {
            if let Some(added_object) = added.as_object() {
                if let Some(base_object) = base.as_object_mut() {
                    copy_entries(base_object, added_object);
                    return;
                }
            }
        }
        *overrides = Some(added.clone());
    }
}

fn merge_deployment(deployment: &mut DeploymentConfig, other: &DeploymentConfig)
    ensures
        final(deployment)@ == old(deployment)@.merged(other@),
{
    if let Some(deployment_type) = &other.deployment_type {
        deployment.deployment_type = Some(*deployment_type);
    }
    merge_overrides(&mut deployment.overrides, &other.overrides);
}

fn merge_offers(offers: &mut OfferParamsConfig, other: &OfferParamsConfig)
    ensures
        final(offers)@ == old(offers)@.merged(other@),
{
    if let Some(batch) = &other.batch {
        offers.batch = Some(batch.clone());
    }
    if let Some(aggregation) = &other.aggregation {
        offers.aggregation = Some(aggregation.clone());
    }
}

impl BoundlessConfig {
    /// Merges `other` over this configuration: what `other` provides is taken from it.
    pub fn merge(&mut self, other: &BoundlessConfig)
        ensures
            final(self)@ == old(self)@.merged(other@),
    {
        if let Some(other_deployment) = &other.deployment {
            match &mut self.deployment {
                Some(deployment) => merge_deployment(deployment, other_deployment),
                None => {
                    self.deployment = Some(other_deployment.clone());
                },
            }
        }
        if let Some(other_offers) = &other.offer_params {
            match &mut self.offer_params {
                Some(offers) => merge_offers(offers, other_offers),
                None => {
                    self.offer_params = Some(other_offers.clone());
                },
            }
        }
        if let Some(rpc_url) = &other.rpc_url {
            self.rpc_url = Some(rpc_url.clone());
        }
    }

    /// The deployment to use: the configured one, else Sepolia.
    pub fn get_deployment_type(&self) -> (r: DeploymentType)
        ensures
            r == self@.deployment_type(),
    {
        match &self.deployment {
            Some(deployment) => match deployment.deployment_type {
                Some(deployment_type) => deployment_type,
                None => DeploymentType::Sepolia,
            },
            None => DeploymentType::Sepolia,
        }
    }

    fn order_stream_override(&self) -> (r: Option<String>)
        ensures
            text_view(r) == self@.order_stream_override(),
    {
        if let Some(deployment) = &self.deployment {
            if let Some(overrides) = &deployment.overrides {
                if let Some(member) = value_get(overrides, "order_stream_url") {
                    if let Some(url) = member.as_str() {
                        return Some(url.to_owned());
                    }
                }
            }
        }
        None
    }

    /// The deployment to use, with the configured order stream in place of the one that it
    /// comes with.
    pub fn get_effective_deployment(&self, stock: &StockOrderStreams) -> (r: Deployment)
        ensures
            r@ == (DeploymentView {
                deployment_type: self@.deployment_type(),
                order_stream_url: merged_value(
                    stock.of(self@.deployment_type()),
                    self@.order_stream_override(),
                ),
            }),
    {
        let deployment_type = self.get_deployment_type();
        let mut order_stream_url = match deployment_type {
            DeploymentType::Sepolia => copy_text(&stock.sepolia),
            DeploymentType::Base => copy_text(&stock.base),
        };
        if let Some(url) = self.order_stream_override() {
            order_stream_url = Some(url);
        }
        Deployment { deployment_type, order_stream_url }
    }

    /// The offer for a batch: the configured one, else the default.
    pub fn get_batch_offer_params(&self) -> (r: BoundlessOfferParams)
        ensures
            r@ == self@.batch_offer(),
    {
        match &self.offer_params {
            Some(offer_params) => match &offer_params.batch {
                Some(offer) => offer.clone(),
                None => BoundlessOfferParams::batch(),
            },
            None => BoundlessOfferParams::batch(),
        }
    }

    /// The offer for an aggregation: the configured one, else the default.
    pub fn get_aggregation_offer_params(&self) -> (r: BoundlessOfferParams)
        ensures
            r@ == self@.aggregation_offer(),
    {
        match &self.offer_params {
            Some(offer_params) => match &offer_params.aggregation {
                Some(offer) => offer.clone(),
                None => BoundlessOfferParams::aggregation(),
            },
            None => BoundlessOfferParams::aggregation(),
        }
    }
}

/// A configuration that provides nothing.
pub open spec fn empty_config() -> ConfigView {
    ConfigView { deployment: None, offer_params: None, rpc_url: None }
}

/// Merging a configuration that provides nothing changes nothing, and merging over one that
/// provides nothing gives the merged configuration itself.
pub proof fn law_empty_config_is_neutral(config: ConfigView)
    ensures
        config.merged(empty_config()) == config,
        empty_config().merged(config) == config,
{
}

/// Merging a configuration a second time changes nothing.
pub proof fn law_merge_is_idempotent(base: ConfigView, other: ConfigView)
    ensures
        base.merged(other).merged(other) == base.merged(other),
{
    if let (Some(a), Some(b)) = (base.deployment, other.deployment) {
        if let (OverridesView::Object(x), OverridesView::Object(y)) = (a.overrides, b.overrides) {
            assert(x.union_prefer_right(y).union_prefer_right(y) =~= x.union_prefer_right(y));
        }
    }
    if let Some(b) = other.deployment {
        if let OverridesView::Object(y) = b.overrides {
            assert(y.union_prefer_right(y) =~= y);
        }
    }
}

/// What the merged configuration provides decides, and what it leaves open stays as it was
/// before.
pub proof fn law_merge_prefers_what_is_provided(base: ConfigView, other: ConfigView)
    ensures
        ({
            let provided = other.deployment matches Some(d) && d.deployment_type is Some;
            base.merged(other).deployment_type() == if provided {
                other.deployment_type()
            } else {
                base.deployment_type()
            }
        }),
        ({
            let provided = other.offer_params matches Some(o) && o.batch is Some;
            base.merged(other).batch_offer() == if provided {
                other.batch_offer()
            } else {
                base.batch_offer()
            }
        }),
        ({
            let provided = other.offer_params matches Some(o) && o.aggregation is Some;
            base.merged(other).aggregation_offer() == if provided {
                other.aggregation_offer()
            } else {
                base.aggregation_offer()
            }
        }),
        base.merged(other).rpc_url == if other.rpc_url is Some {
            other.rpc_url
        } else {
            base.rpc_url
        },
{
}

/// Overrides that the merged configuration provides are all there afterwards: each entry of an
/// object under its key, and anything else as it is.
pub proof fn law_provided_overrides_are_taken(base: OverridesView, other: OverridesView)
    ensures
        other matches OverridesView::Object(added) ==> (base.merged(other) matches
            OverridesView::Object(entries) && forall|key: Seq<char>| #[trigger]
            added.contains_key(key) ==> entries.contains_key(key) && entries[key] == added[key]),
        other is Other ==> base.merged(other) == other,
        other is Absent ==> base.merged(other) == base,
{
}

/// An order stream that the merged configuration names is the one in use.
pub proof fn law_order_stream_override_is_taken(base: ConfigView, other: ConfigView)
    requires
        other.order_stream_override() is Some,
    ensures
        base.merged(other).order_stream_override() == other.order_stream_override(),
{
}

/// An order stream that is named by an override is still the one in use after a configuration
/// without overrides has been merged.
pub proof fn law_order_stream_override_survives(base: ConfigView, other: ConfigView)
    requires
        base.order_stream_override() is Some,
        other.deployment matches Some(d) ==> d.overrides is Absent,
    ensures
        base.merged(other).order_stream_override() == base.order_stream_override(),
{
}

} // verus!
