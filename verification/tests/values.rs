use boundless_agent::error::AgentError;
use boundless_agent::text::{decimal_text, eq_but_case, parse_u32};
use boundless_agent::types::ProofType;
use boundless_agent::u256::U256;
use boundless_agent::units::can_cut;
use boundless_agent::utils::{generate_request_id, parse_staking_token, staking_amount};

#[test]
fn request_ids_are_hashes_with_a_type() {
    let empty = "c5d2460186f7233c927e7db2dcc703c0e500b653ca82273b7bfad8045d85a470";
    assert_eq!(generate_request_id(&[], &ProofType::Batch), format!("{}_batch", empty));
    assert_eq!(generate_request_id(&[], &ProofType::Aggregate), format!("{}_aggregate", empty));
    let hello = "1c8aff950685c2ed4bc3174f3472287b56d9517b9c948127319a09a7a36deac8";
    assert_eq!(generate_request_id(b"hello", &ProofType::Batch), format!("{}_batch", hello));
}

#[test]
fn same_input_has_the_same_id() {
    let id = generate_request_id(&[1, 2, 3], &ProofType::Batch);
    assert_eq!(id, generate_request_id(&[1, 2, 3], &ProofType::Batch));
    assert_ne!(id, generate_request_id(&[1, 2, 4], &ProofType::Batch));
    assert_ne!(id, generate_request_id(&[1, 2, 3], &ProofType::Aggregate));
}

#[test]
fn collateral_is_read_in_smallest_units() {
    assert_eq!(
        parse_staking_token("1.5").unwrap(),
        U256::from_u64(1_500_000_000_000_000_000)
    );
    assert_eq!(parse_staking_token("0").unwrap(), U256::zero());
    // Digits beyond the eighteenth are dropped.
    assert_eq!(parse_staking_token("0.0000000000000000019").unwrap(), U256::from_u64(1));
    let error = parse_staking_token("x").unwrap_err();
    assert!(matches!(error, AgentError::ClientBuildError(_)));
    assert!(error
        .message()
        .starts_with("Failed to build boundless client: Failed to parse stacking: x ("));
}

#[test]
fn collateral_error_tells_the_text_and_the_reason() {
    let error = staking_amount("abc", Err("no digits".to_string())).unwrap_err();
    assert_eq!(
        error.message(),
        "Failed to build boundless client: Failed to parse stacking: abc (no digits)"
    );
    assert_eq!(staking_amount("abc", Ok(U256::from_u64(9))).unwrap(), U256::from_u64(9));
}

#[test]
fn amounts_are_cut_between_characters() {
    assert!(can_cut("1.23", 18));
    assert!(can_cut("1", 0));
    assert!(can_cut("0.12345", 3));
    assert!(can_cut("0.\u{e9}5", 2));
    assert!(!can_cut("0.\u{e9}5", 1));
    assert!(!can_cut("0.1\u{20ac}", 2));
    assert!(can_cut("\u{20ac}\u{20ac}", 1));
    assert!(can_cut("", 18));
}

#[test]
fn products_wrap_at_256_bits() {
    let top = U256 { limb0: 0, limb1: 0, limb2: 0, limb3: 1 << 63 };
    assert_eq!(top.wrapping_mul(U256::from_u64(2)), U256::zero());
    assert_eq!(top.wrapping_mul(U256::from_u64(3)), top);
    let wide = U256::from_u64(u64::MAX).wrapping_mul(U256::from_u64(u64::MAX));
    assert_eq!(wide, U256 { limb0: 1, limb1: u64::MAX - 1, limb2: 0, limb3: 0 });
}

#[test]
fn numbers_are_read_and_written_in_decimal() {
    assert_eq!(decimal_text(0), "0");
    assert_eq!(decimal_text(10), "10");
    assert_eq!(decimal_text(4294967295), "4294967295");
    for text in [
        "0", "7", "+7", "007", "4294967295", "4294967296", "99999999999", "", "+", "-1", "-0",
        " 5", "5 ", "1e3", "++1", "\u{663}",
    ] {
        assert_eq!(parse_u32(text), text.parse::<u32>().ok(), "{:?}", text);
    }
}

#[test]
fn names_are_compared_without_regard_to_case() {
    assert!(eq_but_case("aZ-\u{e9}", "Az-\u{e9}"));
    assert!(!eq_but_case("a", "ab"));
    assert!(!eq_but_case("@", "`"));
    assert!(!eq_but_case("[", "{"));
}

#[test]
fn each_error_has_its_message() {
    let d = || "why".to_string();
    let cases = vec![
        (AgentError::ClientBuildError(d()), "Failed to build boundless client: why"),
        (AgentError::PollingError(d()), "Transient polling error: why"),
        (AgentError::RetryError(d()), "Retry error: why"),
        (AgentError::GuestEnvEncodeError(d()), "Failed to encode guest environment: why"),
        (AgentError::UploadError(d()), "Failed to upload input: why"),
        (AgentError::ProgramUploadError(d()), "Failed to upload program: why"),
        (AgentError::RequestBuildError(d()), "Failed to build request: why"),
        (AgentError::RequestSubmitError(d()), "Failed to submit request: why"),
        (
            AgentError::RequestFulfillmentError { attempts: 12, error: d() },
            "Failed to wait for request fulfillment after 12 attempts: why",
        ),
        (AgentError::ResponseEncodeError(d()), "Failed to encode response: why"),
        (AgentError::GuestExecutionError(d()), "Failed to execute guest environment: why"),
        (AgentError::InvalidReceiptError, "Did not receive requested unaggregated receipt"),
        (AgentError::MissingJournalError, "Missing journal in fulfillment data"),
        (AgentError::FulfillmentDecodeError(d()), "Failed to decode fulfillment data: why"),
        (AgentError::StorageProviderRequired, "Storage provider is required"),
    ];
    for (error, message) in cases {
        assert_eq!(error.message(), message);
    }
}
