use alloy_primitives::utils::parse_ether;
use boundless_agent::config::{
    BoundlessConfig, BoundlessOfferParams, DeploymentConfig, DeploymentType, OfferParamsConfig,
    StockOrderStreams,
};
use boundless_agent::prover::{BoundlessProver, ProverConfig};
use boundless_agent::u256::U256;
use boundless_agent::utils::parse_staking_token;
use serde_json::Value;

fn stock() -> StockOrderStreams {
    StockOrderStreams {
        sepolia: Some("https://sepolia.stream".to_string()),
        base: Some("https://base.stream".to_string()),
    }
}

fn object(entries: &[(&str, &str)]) -> Value {
    let mut map = serde_json::Map::new();
    for (key, value) in entries {
        map.insert(key.to_string(), Value::String(value.to_string()));
    }
    Value::Object(map)
}

fn with_overrides(overrides: Option<Value>) -> BoundlessConfig {
    BoundlessConfig {
        deployment: Some(DeploymentConfig {
            deployment_type: Some(DeploymentType::Sepolia),
            overrides,
        }),
        offer_params: None,
        rpc_url: None,
    }
}

fn overrides_of(config: &BoundlessConfig) -> Option<Value> {
    config.deployment.as_ref().and_then(|d| d.overrides.clone())
}

fn to_alloy(n: U256) -> alloy_primitives::U256 {
    alloy_primitives::U256::from_limbs([n.limb0, n.limb1, n.limb2, n.limb3])
}

#[test]
fn test_deployment_selection() {
    let mut config = ProverConfig::default();
    config.boundless_config.deployment = Some(DeploymentConfig {
        deployment_type: Some(DeploymentType::Sepolia),
        overrides: None,
    });
    let deployment = BoundlessProver::create_deployment(&config, &stock()).unwrap();
    assert!(deployment.order_stream_url.is_none() || deployment.order_stream_url.is_some());
    assert_eq!(deployment.order_stream_url, Some("https://sepolia.stream".to_string()));

    config.boundless_config.deployment = Some(DeploymentConfig {
        deployment_type: Some(DeploymentType::Base),
        overrides: None,
    });
    let deployment = BoundlessProver::create_deployment(&config, &stock()).unwrap();
    assert!(deployment.order_stream_url.is_none() || deployment.order_stream_url.is_some());
    assert_eq!(deployment.order_stream_url, Some("https://base.stream".to_string()));
}

#[test]
fn test_deployment_type_from_str() {
    assert_eq!(DeploymentType::from_str("sepolia").unwrap(), DeploymentType::Sepolia);
    assert_eq!(DeploymentType::from_str("base").unwrap(), DeploymentType::Base);

    assert_eq!(DeploymentType::from_str("SEPOLIA").unwrap(), DeploymentType::Sepolia);
    assert_eq!(DeploymentType::from_str("BASE").unwrap(), DeploymentType::Base);

    assert!(DeploymentType::from_str("invalid").is_err());
    assert!(DeploymentType::from_str("").is_err());
}

#[test]
fn test_prover_config_with_boundless_config() {
    let boundless_config = BoundlessConfig {
        deployment: Some(DeploymentConfig {
            deployment_type: Some(DeploymentType::Base),
            overrides: None,
        }),
        offer_params: Some(OfferParamsConfig {
            batch: Some(BoundlessOfferParams::batch()),
            aggregation: Some(BoundlessOfferParams::aggregation()),
        }),
        rpc_url: None,
    };

    let prover_config = ProverConfig {
        offchain: true,
        pull_interval: 15,
        rpc_url: "https://custom-rpc.com".to_string(),
        boundless_config,
        url_ttl: 1800,
    };

    let deployment = BoundlessProver::create_deployment(&prover_config, &stock()).unwrap();
    assert!(deployment.order_stream_url.is_some());
}

#[test]
fn test_partial_config_override() {
    let partial_config = BoundlessConfig {
        deployment: Some(DeploymentConfig {
            deployment_type: Some(DeploymentType::Base),
            overrides: None,
        }),
        offer_params: None,
        rpc_url: None,
    };
    let mut default_config = BoundlessConfig::default();
    default_config.merge(&partial_config);

    assert_eq!(default_config.get_deployment_type(), DeploymentType::Base);
    let batch_params = default_config.get_batch_offer_params();
    let aggregation_params = default_config.get_aggregation_offer_params();
    assert_eq!(batch_params.ramp_up_sec, 1000);
    assert_eq!(aggregation_params.ramp_up_sec, 200);
}

#[test]
fn test_deployment_overrides() {
    let config = with_overrides(Some(object(&[(
        "order_stream_url",
        "https://custom-order-stream.com",
    )])));
    let deployment = config.get_effective_deployment(&stock());
    assert_eq!(
        deployment.order_stream_url,
        Some("https://custom-order-stream.com".to_string())
    );
}

#[test]
fn test_offer_params_max_price() {
    let offer_params = BoundlessOfferParams::batch();
    let max_price_per_mcycle = parse_ether(&offer_params.max_price_per_mcycle)
        .expect("Failed to parse max_price_per_mcycle");
    let max_price = max_price_per_mcycle * alloy_primitives::U256::from(1000u64);
    assert_eq!(max_price, alloy_primitives::U256::from(30000000000000000u128));

    let min_price_per_mcycle = parse_ether(&offer_params.min_price_per_mcycle)
        .expect("Failed to parse min_price_per_mcycle");
    let min_price = min_price_per_mcycle * alloy_primitives::U256::from(1000u64);
    assert_eq!(min_price, alloy_primitives::U256::from(5000000000000000u128));

    let lock_collateral_per_mcycle = parse_staking_token(&offer_params.lock_collateral)
        .expect("Failed to parse lock_collateral_per_mcycle");
    let lock_collateral = lock_collateral_per_mcycle.wrapping_mul(U256::from_u64(1000));
    assert_eq!(to_alloy(lock_collateral), alloy_primitives::U256::from(100000000000000000u64));
}

#[test]
fn defaults_are_as_documented() {
    let config = ProverConfig::default();
    assert!(!config.offchain);
    assert_eq!(config.pull_interval, 10);
    assert_eq!(config.rpc_url, "https://base-rpc.publicnode.com");
    assert_eq!(config.url_ttl, 1800);
    assert_eq!(config.boundless_config.get_deployment_type(), DeploymentType::Sepolia);
    assert!(config.boundless_config.rpc_url.is_none());

    let batch = BoundlessOfferParams::batch();
    assert_eq!(batch.lock_timeout_ms_per_mcycle, 5000);
    assert_eq!(batch.timeout_ms_per_mcycle, 10800);
    assert_eq!(batch.max_price_per_mcycle, "0.00003");
    assert_eq!(batch.min_price_per_mcycle, "0.000005");
    assert_eq!(batch.lock_collateral, "0.0001");

    let offer = BoundlessOfferParams::default();
    assert_eq!(offer.ramp_up_sec, 200);
    assert_eq!(offer.lock_timeout_ms_per_mcycle, 1000);
    assert_eq!(offer.timeout_ms_per_mcycle, 3000);
    assert_eq!(offer.max_price_per_mcycle, "0.00001");
    assert_eq!(offer.min_price_per_mcycle, "0.000003");
}

#[test]
fn deployment_names_keep_to_their_letters() {
    assert_eq!(DeploymentType::from_str("SePoLiA").unwrap(), DeploymentType::Sepolia);
    assert!(DeploymentType::from_str("base ").is_err());
    assert_eq!(
        DeploymentType::from_str("mainnet").unwrap_err(),
        "Unknown deployment type: mainnet"
    );
}

#[test]
fn objects_are_merged_key_by_key() {
    let mut config = with_overrides(Some(object(&[("a", "1"), ("b", "2")])));
    config.merge(&with_overrides(Some(object(&[("b", "3"), ("c", "4")]))));
    assert_eq!(overrides_of(&config), Some(object(&[("a", "1"), ("b", "3"), ("c", "4")])));
    let once = overrides_of(&config);
    config.merge(&with_overrides(Some(object(&[("b", "3"), ("c", "4")]))));
    assert_eq!(overrides_of(&config), once);
}

#[test]
fn provided_overrides_replace_what_they_cannot_be_merged_with() {
    for base in [Value::Bool(true), Value::Null, Value::String("y".to_string())] {
        let mut config = with_overrides(Some(base));
        config.merge(&with_overrides(Some(object(&[("order_stream_url", "x")]))));
        assert_eq!(overrides_of(&config), Some(object(&[("order_stream_url", "x")])));
    }

    let mut config = with_overrides(Some(object(&[("order_stream_url", "x")])));
    config.merge(&with_overrides(Some(Value::Null)));
    assert_eq!(overrides_of(&config), Some(Value::Null));

    let mut config = with_overrides(None);
    config.merge(&with_overrides(Some(Value::Bool(false))));
    assert_eq!(overrides_of(&config), Some(Value::Bool(false)));
}

#[test]
fn order_stream_must_be_a_text() {
    let mut map = serde_json::Map::new();
    map.insert("order_stream_url".to_string(), Value::Bool(true));
    let config = with_overrides(Some(Value::Object(map)));
    let deployment = config.get_effective_deployment(&stock());
    assert_eq!(deployment.order_stream_url, Some("https://sepolia.stream".to_string()));

    let config = with_overrides(Some(Value::String("order_stream_url".to_string())));
    let deployment = config.get_effective_deployment(&stock());
    assert_eq!(deployment.order_stream_url, Some("https://sepolia.stream".to_string()));
    assert_eq!(deployment.deployment_type, DeploymentType::Sepolia);
}

#[test]
fn what_is_provided_is_taken() {
    let mut config = BoundlessConfig { deployment: None, offer_params: None, rpc_url: None };
    assert_eq!(config.get_deployment_type(), DeploymentType::Sepolia);
    assert_eq!(config.get_batch_offer_params().ramp_up_sec, 1000);

    let mut batch = BoundlessOfferParams::batch();
    batch.ramp_up_sec = 7;
    let other = BoundlessConfig {
        deployment: None,
        offer_params: Some(OfferParamsConfig { batch: Some(batch), aggregation: None }),
        rpc_url: Some("https://rpc".to_string()),
    };
    config.merge(&other);
    assert_eq!(config.get_batch_offer_params().ramp_up_sec, 7);
    assert_eq!(config.get_aggregation_offer_params().ramp_up_sec, 200);
    assert_eq!(config.rpc_url, Some("https://rpc".to_string()));

    let empty = BoundlessConfig { deployment: None, offer_params: None, rpc_url: None };
    config.merge(&empty);
    assert_eq!(config.get_batch_offer_params().ramp_up_sec, 7);
    assert_eq!(config.rpc_url, Some("https://rpc".to_string()));

    let mut aggregation = BoundlessOfferParams::aggregation();
    aggregation.ramp_up_sec = 9;
    config.merge(&BoundlessConfig {
        deployment: None,
        offer_params: Some(OfferParamsConfig { batch: None, aggregation: Some(aggregation) }),
        rpc_url: None,
    });
    assert_eq!(config.get_batch_offer_params().ramp_up_sec, 7);
    assert_eq!(config.get_aggregation_offer_params().ramp_up_sec, 9);
}

#[test]
fn a_named_order_stream_is_taken_and_survives() {
    let named = |url: &str| with_overrides(Some(object(&[("order_stream_url", url)])));
    let stream = |config: &BoundlessConfig| config.get_effective_deployment(&stock()).order_stream_url;
    for mut base in [
        with_overrides(None),
        with_overrides(Some(Value::Null)),
        named("old"),
        with_overrides(Some(object(&[]))),
    ] {
        base.merge(&named("new"));
        assert_eq!(stream(&base), Some("new".to_string()));
        base.merge(&with_overrides(None));
        assert_eq!(stream(&base), Some("new".to_string()));
        base.merge(&BoundlessConfig { deployment: None, offer_params: None, rpc_url: None });
        assert_eq!(stream(&base), Some("new".to_string()));
    }
    let mut empty = BoundlessConfig { deployment: None, offer_params: None, rpc_url: None };
    empty.merge(&named("new"));
    assert_eq!(stream(&empty), Some("new".to_string()));
    let none = StockOrderStreams { sepolia: None, base: None };
    assert_eq!(with_overrides(None).get_effective_deployment(&none).order_stream_url, None);
}
