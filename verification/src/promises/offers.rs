//! What the calls on the terms of a request promise.

use crate::config::BoundlessOfferParams;
use crate::error::{AgentError, AgentResult};
use crate::offer::{evaluate_cost, max_price, offer_terms, program_image_id, RequestTerms};
use crate::offer::{computed_image_id, run_cycles};
use crate::prover::BoundlessProver;
use crate::u256::U256;
use crate::units::can_cut;
use crate::units::{parsed_ether, parsed_units};
use vstd::arithmetic::power2::pow2;
use vstd::prelude::*;

verus! {

/// Whether a time in whole seconds is a time per million cycles in milliseconds, over a number of
/// million cycles, with what is left of a second dropped.
pub open spec fn is_scaled(secs: u32, ms_per_mcycle: u32, mcycles: u32) -> bool {
    1000 * secs <= ms_per_mcycle * mcycles < 1000 * (secs + 1)
}

/// Whether the times and the size in some terms are those of an offer, for a number of million
/// cycles, made at a time.
pub open spec fn times_are_of(
    terms: RequestTerms,
    offer: BoundlessOfferParams,
    mcycles: u32,
    now: u64,
) -> bool {
    &&& terms.cycles == mcycles * 1_000_000
    &&& is_scaled(terms.lock_timeout, offer.lock_timeout_ms_per_mcycle, mcycles)
    &&& is_scaled(terms.timeout, offer.timeout_ms_per_mcycle, mcycles)
    &&& terms.ramp_up_period <= offer.ramp_up_sec
    &&& terms.ramp_up_period <= terms.lock_timeout
    &&& terms.ramp_up_period == offer.ramp_up_sec || terms.ramp_up_period == terms.lock_timeout
    &&& terms.bidding_start == now + 60
}

/// The terms are those of the offer: image, price, collateral and journal as they were given, each
/// whatever the others are, and the times scaled to the size of the run.
pub proof fn law_terms_are_as_given(
    image_id: [u8; 32],
    price: U256,
    collateral: U256,
    offer: BoundlessOfferParams,
    mcycles: u32,
    journal: Vec<u8>,
    now: u64,
    r: RequestTerms,
)
    requires
        call_ensures(
            offer_terms,
            (image_id, price, collateral, &offer, mcycles, journal, now),
            r,
        ),
    ensures
        r.image_id@ == image_id@,
        r.journal@ == journal@,
        r.max_price == price,
        r.lock_collateral == collateral,
        times_are_of(r, offer, mcycles, now),
{
    crate::u256::law_u256_value_is_unique(r.max_price, price);
    crate::u256::law_u256_value_is_unique(r.lock_collateral, collateral);
}

/// The terms that a request is built on: the image id of the program, the price of one million
/// cycles times their number, the collateral that the offer names whatever the price, and the times
/// of the offer.
pub proof fn law_built_terms_are_those_of_the_offer(
    program: &[u8],
    offer: BoundlessOfferParams,
    mcycles: u32,
    journal: Vec<u8>,
    now: u64,
    r: AgentResult<RequestTerms>,
)
    requires
        call_ensures(
            BoundlessProver::build_boundless_request,
            (program, &offer, mcycles, journal, now),
            r,
        ),
    ensures
        r matches Ok(terms) ==> {
            &&& computed_image_id(program@) == Ok::<Seq<u8>, Seq<char>>(terms.image_id@)
            &&& parsed_units(offer.lock_collateral@, 18) == Ok::<nat, Seq<char>>(
                terms.lock_collateral@,
            )
            &&& parsed_ether(offer.max_price_per_mcycle@) matches Ok(price) && terms.max_price@ == (
            price * mcycles as nat) % pow2(256)
            &&& terms.journal@ == journal@
            &&& times_are_of(terms, offer, mcycles, now)
        },
        r is Ok <==> computed_image_id(program@) is Ok && parsed_ether(offer.max_price_per_mcycle@)
            is Ok && parsed_units(offer.lock_collateral@, 18) is Ok,
{
}

/// Where a request cannot be built, the error is that of the image id, whatever the amounts are;
/// else that of the price, whatever the collateral is; else that of the collateral.
pub proof fn law_first_error_is_reported(
    program: &[u8],
    offer: BoundlessOfferParams,
    mcycles: u32,
    journal: Vec<u8>,
    now: u64,
    r: AgentResult<RequestTerms>,
)
    requires
        call_ensures(
            BoundlessProver::build_boundless_request,
            (program, &offer, mcycles, journal, now),
            r,
        ),
        r is Err,
    ensures
        match computed_image_id(program@) {
            Err(reason) => r matches Err(AgentError::ClientBuildError(text)) && text@
                == "Failed to compute image_id from program: "@ + reason,
            Ok(_) => match parsed_ether(offer.max_price_per_mcycle@) {
                Err(reason) => r matches Err(AgentError::ClientBuildError(text)) && text@
                    == "Failed to parse max_price_per_mcycle: "@ + offer.max_price_per_mcycle@
                    + " ("@ + reason + ")"@,
                Ok(_) => parsed_units(offer.lock_collateral@, 18) matches Err(reason) && (
                r matches Err(AgentError::ClientBuildError(text)) && text@
                    == "Failed to parse stacking: "@ + offer.lock_collateral@ + " ("@ + reason
                    + ")"@),
            },
        },
{
}

/// A tested build gives what the untested one gives. It gives something wherever the amounts can be
/// cut and the times fit, and wherever an error comes before what cannot or does not.
pub proof fn law_tested_build_agrees(
    program: &[u8],
    offer: BoundlessOfferParams,
    mcycles: u32,
    journal: Vec<u8>,
    now: u64,
    price: &str,
    collateral: &str,
    price_whole: bool,
    collateral_whole: bool,
    r: AgentResult<RequestTerms>,
    tested: Option<AgentResult<RequestTerms>>,
)
    requires
        price@ == offer.max_price_per_mcycle@,
        collateral@ == offer.lock_collateral@,
        call_ensures(can_cut, (price, 18), price_whole),
        call_ensures(can_cut, (collateral, 18), collateral_whole),
        call_ensures(
            BoundlessProver::build_boundless_request,
            (program, &offer, mcycles, journal, now),
            r,
        ),
        call_ensures(
            BoundlessProver::try_build_boundless_request,
            (program, &offer, mcycles, journal, now),
            tested,
        ),
    ensures
        tested matches Some(Ok(terms)) ==> (r matches Ok(same) && terms@ == same@)
            && times_are_of(terms, offer, mcycles, now),
        tested matches Some(Err(error)) ==> (r matches Err(same) && error@ == same@),
        program@.len() <= u32::MAX && price_whole && collateral_whole
            && offer.lock_timeout_ms_per_mcycle * mcycles <= u32::MAX && offer.timeout_ms_per_mcycle
            * mcycles <= u32::MAX && now + 60 <= u64::MAX ==> tested is Some,
        program@.len() <= u32::MAX && computed_image_id(program@) is Err ==> tested matches Some(
            Err(_),
        ),
        program@.len() <= u32::MAX && price_whole && parsed_ether(price@) is Err
            ==> tested matches Some(Err(_)),
        program@.len() <= u32::MAX && price_whole && collateral_whole && parsed_units(
            collateral@,
            18,
        ) is Err ==> tested matches Some(Err(_)),
        tested matches Some(Ok(_)) ==> offer.lock_timeout_ms_per_mcycle * mcycles <= u32::MAX
            && offer.timeout_ms_per_mcycle * mcycles <= u32::MAX,
{
}

/// The price of a number of million cycles is that of one times the number, wherever that fits 256
/// bits, so that prices of two runs add up to the price of both.
pub proof fn law_prices_add_up(
    price: &str,
    amount: U256,
    one: u32,
    two: u32,
    both: u32,
    one_r: AgentResult<U256>,
    two_r: AgentResult<U256>,
    both_r: AgentResult<U256>,
)
    requires
        call_ensures(max_price, (price, Ok(amount), one), one_r),
        call_ensures(max_price, (price, Ok(amount), two), two_r),
        call_ensures(max_price, (price, Ok(amount), both), both_r),
        both == one + two,
        amount@ * both < pow2(256),
    ensures
        one_r is Ok && two_r is Ok && both_r is Ok,
        both_r->Ok_0@ == one_r->Ok_0@ + two_r->Ok_0@,
        one_r->Ok_0@ == amount@ * one,
{
    let a = amount@ as int;
    assert(a * both == a * one + a * two) by (nonlinear_arith)
        requires
            both == one + two,
    ;
    assert(a * one >= 0 && a * two >= 0) by (nonlinear_arith)
        requires
            a >= 0,
    ;
    vstd::arithmetic::div_mod::lemma_small_mod((amount@ * one as nat) as nat, pow2(256));
    vstd::arithmetic::div_mod::lemma_small_mod((amount@ * two as nat) as nat, pow2(256));
    vstd::arithmetic::div_mod::lemma_small_mod((amount@ * both as nat) as nat, pow2(256));
}

/// What was parsed or computed is handed on or explained.
pub proof fn law_parsed_parts_are_handed_on(
    computed: Result<[u8; 32], String>,
    price: &str,
    parsed: Result<U256, String>,
    mcycles: u32,
    image_r: AgentResult<[u8; 32]>,
    price_r: AgentResult<U256>,
)
    requires
        call_ensures(program_image_id, (computed,), image_r),
        call_ensures(max_price, (price, parsed, mcycles), price_r),
    ensures
        computed is Ok ==> image_r is Ok && image_r->Ok_0@ == computed->Ok_0@,
        computed matches Err(reason) ==> (image_r matches Err(AgentError::ClientBuildError(text))
            && text@ == "Failed to compute image_id from program: "@ + reason@),
        parsed is Ok ==> price_r is Ok && price_r->Ok_0@ == (parsed->Ok_0@ * mcycles as nat)
            % pow2(256),
        parsed matches Err(reason) ==> (price_r matches Err(AgentError::ClientBuildError(text))
            && text@ == "Failed to parse max_price_per_mcycle: "@ + price@ + " ("@ + reason@
            + ")"@),
{
}

/// The cycles of a run are those of its parts together, a segment counting two to its power.
pub proof fn law_cycles_add_up(a: Seq<u32>, b: Seq<u32>, po2: u32)
    ensures
        run_cycles(a + b) == run_cycles(a) + run_cycles(b),
        run_cycles(seq![po2]) == pow2(po2 as nat),
        run_cycles(seq![]) == 0,
    decreases b.len(),
{
    if b.len() == 0 {
        assert(a + b =~= a);
    } else {
        assert((a + b).drop_last() =~= a + b.drop_last());
        law_cycles_add_up(a, b.drop_last(), po2);
    }
    assert(seq![po2].drop_last() =~= Seq::<u32>::empty());
    assert(run_cycles(seq![po2].drop_last()) == 0);
}

/// The size of a run is the least number of million cycles that holds its cycles, and its journal
/// is handed on; a run that failed is an error with the reason.
pub proof fn law_run_is_sized(
    run: Result<(Vec<u32>, Vec<u8>), String>,
    r: AgentResult<(u64, Vec<u8>)>,
)
    requires
        call_ensures(evaluate_cost, (run,), r),
    ensures
        run is Ok ==> r is Ok && r->Ok_0.1@ == run->Ok_0.1@ && run_cycles(run->Ok_0.0@)
            <= r->Ok_0.0 * 1_000_000 < run_cycles(run->Ok_0.0@) + 1_000_000,
        run matches Err(reason) ==> (r matches Err(AgentError::GuestExecutionError(text)) && text@
            == "Failed to execute guest environment: "@ + reason@),
{
}

} // verus!
