use boundless_agent::client::{client_settings, rpc_url_of, signer_address_of};
use boundless_agent::config::BoundlessOfferParams;
use boundless_agent::error::AgentError;
use boundless_agent::offer::{evaluate_cost, max_price, offer_terms, program_image_id};
use boundless_agent::prover::BoundlessProver;
use boundless_agent::u256::U256;

fn put_u16(out: &mut Vec<u8>, n: u16) {
    out.extend_from_slice(&n.to_le_bytes());
}

fn put_u32(out: &mut Vec<u8>, n: u32) {
    out.extend_from_slice(&n.to_le_bytes());
}

/// A 32-bit RISC-V executable with one loaded word at `vaddr`.
fn elf(vaddr: u32, word: u32) -> Vec<u8> {
    let mut out = vec![0x7f, b'E', b'L', b'F', 1, 1, 1, 0, 0, 0, 0, 0, 0, 0, 0, 0];
    put_u16(&mut out, 2);
    put_u16(&mut out, 243);
    put_u32(&mut out, 1);
    put_u32(&mut out, vaddr);
    put_u32(&mut out, 52);
    put_u32(&mut out, 0);
    put_u32(&mut out, 0);
    put_u16(&mut out, 52);
    put_u16(&mut out, 32);
    put_u16(&mut out, 1);
    put_u16(&mut out, 0);
    put_u16(&mut out, 0);
    put_u16(&mut out, 0);
    for n in [1, 84, vaddr, vaddr, 4, 4, 5, 4] {
        put_u32(&mut out, n);
    }
    put_u32(&mut out, word);
    out
}

fn program() -> Vec<u8> {
    let mut header = Vec::new();
    put_u32(&mut header, 1);
    let pair = [&[0u8, 0, 5][..], b"1.0.0"].concat();
    put_u32(&mut header, pair.len() as u32);
    header.extend_from_slice(&pair);

    let user = elf(0x0020_0000, 7);
    let mut out = b"R0BF".to_vec();
    put_u32(&mut out, 1);
    put_u32(&mut out, header.len() as u32);
    out.extend_from_slice(&header);
    put_u32(&mut out, user.len() as u32);
    out.extend_from_slice(&user);
    out.extend_from_slice(&elf(0xc000_0000, 9));
    out
}

fn message(error: AgentError) -> String {
    error.message()
}

#[test]
fn a_batch_is_offered_on_its_terms() {
    let program = program();
    let offer = BoundlessOfferParams::batch();
    let terms =
        BoundlessProver::build_boundless_request(&program, &offer, 6000, vec![1, 2], 1000).unwrap();
    let expected: [u8; 32] = risc0_zkvm::compute_image_id(&program).unwrap().into();
    assert_eq!(terms.image_id, expected);
    assert_eq!(terms.cycles, 6_000_000_000);
    assert_eq!(terms.journal, vec![1, 2]);
    assert_eq!(terms.ramp_up_period, 1000);
    assert_eq!(terms.lock_timeout, 30_000);
    assert_eq!(terms.timeout, 64_800);
    assert_eq!(terms.max_price, U256::from_u64(180_000_000_000_000_000));
    assert_eq!(terms.lock_collateral, U256::from_u64(100_000_000_000_000));
    assert_eq!(terms.bidding_start, 1060);

    let other = BoundlessProver::build_boundless_request(
        &program,
        &BoundlessOfferParams::aggregation(),
        6000,
        vec![],
        0,
    )
    .unwrap();
    assert_eq!(other.ramp_up_period, 200);
    assert_eq!(other.lock_timeout, 6000);
    assert_eq!(other.timeout, 18_000);
    assert_eq!(other.max_price, U256::from_u64(60_000_000_000_000_000));
}

#[test]
fn the_first_error_is_reported() {
    let mut offer = BoundlessOfferParams::batch();
    offer.max_price_per_mcycle = "dear".to_string();
    offer.lock_collateral = "much".to_string();
    let built = |program: &[u8], offer: &BoundlessOfferParams| {
        message(
            BoundlessProver::build_boundless_request(program, offer, 1, vec![], 0).unwrap_err(),
        )
    };
    assert_eq!(
        built(&[1, 2, 3], &offer),
        "Failed to build boundless client: Failed to compute image_id from program: Malformed ProgramBinary"
    );
    let program = program();
    assert!(built(&program, &offer).starts_with(
        "Failed to build boundless client: Failed to parse max_price_per_mcycle: dear ("
    ));
    offer.max_price_per_mcycle = "1".to_string();
    assert!(built(&program, &offer)
        .starts_with("Failed to build boundless client: Failed to parse stacking: much ("));
}

#[test]
fn nothing_is_built_where_numbers_do_not_fit() {
    let program = program();
    let mut offer = BoundlessOfferParams::batch();
    let build = |program: &[u8], offer: &BoundlessOfferParams, mcycles: u32, now: u64| {
        BoundlessProver::try_build_boundless_request(program, offer, mcycles, vec![], now)
    };
    assert!(build(&program, &offer, 6000, 0).unwrap().is_ok());
    assert!(build(&program, &offer, 400_000, 0).is_none());
    assert!(build(&program, &offer, 6000, u64::MAX - 59).is_none());
    assert!(build(&program, &offer, 6000, u64::MAX - 60).unwrap().is_ok());
    // What comes after an error is never looked at.
    assert!(build(&[0], &offer, 400_000, u64::MAX).unwrap().is_err());
    let mut bad = BoundlessOfferParams::batch();
    bad.max_price_per_mcycle = "dear".to_string();
    bad.lock_collateral = "0.12345678901234567\u{e9}".to_string();
    assert!(build(&program, &bad, 400_000, 0)
        .unwrap()
        .unwrap_err()
        .message()
        .contains("max_price_per_mcycle"));
    bad.max_price_per_mcycle = "1".to_string();
    bad.lock_collateral = "much".to_string();
    assert!(build(&program, &bad, 400_000, 0)
        .unwrap()
        .unwrap_err()
        .message()
        .contains("stacking"));

    offer.max_price_per_mcycle = "0.12345678901234567\u{e9}".to_string();
    assert!(build(&program, &offer, 6000, 0).is_none());
    offer.max_price_per_mcycle = "1".to_string();
    offer.lock_collateral = "0.12345678901234567\u{e9}".to_string();
    assert!(build(&program, &offer, 6000, 0).is_none());
}

#[test]
fn the_price_rises_no_longer_than_the_lock() {
    let offer = BoundlessOfferParams::batch();
    let terms = offer_terms([3; 32], U256::zero(), U256::zero(), &offer, 100, vec![], 5);
    assert_eq!(terms.lock_timeout, 500);
    assert_eq!(terms.ramp_up_period, 500);
    assert_eq!(terms.timeout, 1080);
    assert_eq!(terms.image_id, [3; 32]);
    assert_eq!(terms.bidding_start, 65);
}

#[test]
fn parsed_parts_are_passed_on_or_explained() {
    assert_eq!(program_image_id(Ok([4; 32])).unwrap(), [4; 32]);
    assert_eq!(
        message(program_image_id(Err("bad".to_string())).unwrap_err()),
        "Failed to build boundless client: Failed to compute image_id from program: bad"
    );
    assert_eq!(max_price("2", Ok(U256::from_u64(2)), 21).unwrap(), U256::from_u64(42));
    assert_eq!(
        message(max_price("two", Err("bad".to_string()), 1).unwrap_err()),
        "Failed to build boundless client: Failed to parse max_price_per_mcycle: two (bad)"
    );
    assert_eq!(rpc_url_of(Ok("u".to_string())).unwrap(), "u");
    assert_eq!(
        message(rpc_url_of(Err("bad".to_string())).unwrap_err()),
        "Failed to build boundless client: Invalid rpc_url: bad"
    );
    assert_eq!(signer_address_of(Ok([1; 20])).unwrap(), [1; 20]);
    assert_eq!(
        message(signer_address_of(Err("bad".to_string())).unwrap_err()),
        "Failed to build boundless client: Invalid signer key: bad"
    );
}

#[test]
fn runs_are_sized_in_million_cycles() {
    let sized = |po2s: Vec<u32>| evaluate_cost(Ok((po2s, vec![9]))).unwrap();
    assert_eq!(sized(vec![]), (0, vec![9]));
    assert_eq!(sized(vec![0]), (1, vec![9]));
    assert_eq!(sized(vec![20]), (2, vec![9]));
    assert_eq!(sized(vec![20, 20, 18]), (3, vec![9]));
    assert_eq!(sized(vec![63]).0, 9_223_372_036_855);
    assert_eq!(
        message(evaluate_cost(Err("trap".to_string())).unwrap_err()),
        "Failed to execute guest environment: Failed to execute guest environment: trap"
    );
}

#[test]
fn client_settings_are_read_in_order() {
    let key = "0x0000000000000000000000000000000000000000000000000000000000000001";
    let settings = client_settings("https://Example.COM", Some(key.to_string())).unwrap();
    assert_eq!(settings.rpc_url, "https://example.com/");
    assert_eq!(settings.signer_key, key);
    assert_eq!(
        alloy_primitives::hex::encode(settings.signer_address),
        "7e5f4552091a69125d5dfcb7b8c2659029395bdf"
    );

    let failed = |url: &str, key: Option<&str>| match client_settings(url, key.map(str::to_string))
    {
        Ok(_) => panic!("settings were accepted"),
        Err(error) => error.message(),
    };
    assert_eq!(
        failed("no url", None),
        "Failed to build boundless client: Invalid rpc_url: relative URL without a base"
    );
    assert_eq!(
        failed("https://a.b", None),
        "Failed to build boundless client: BOUNDLESS_SIGNER_KEY is not set"
    );
    assert!(failed("https://a.b", Some("0x12"))
        .starts_with("Failed to build boundless client: Invalid signer key: "));
}
