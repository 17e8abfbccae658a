//! The terms that a request is offered on the market with, and the size of a program's run.

use crate::config::BoundlessOfferParams;
use crate::config::OfferView;
use crate::error::{AgentError, AgentErrorView, AgentResult};
use crate::prover::BoundlessProver;
use crate::text::{join, join4};
use crate::u256::U256;
use crate::units::{amount_view, cut_is_whole, parsed_ether, parsed_units};
use crate::units::{can_cut, parse_ether, ETHER_DECIMALS};
use crate::utils::{amount_result, staking_result};
use crate::utils::{parse_staking_token, STAKE_TOKEN_DECIMALS};
use vstd::arithmetic::power2::pow2;
use vstd::prelude::*;

verus! {

/// A million cycles.
pub const MILLION_CYCLES: u64 = 1_000_000;

/// The seconds from now until bidding on a request starts.
pub const BIDDING_DELAY_SECS: u64 = 60;

/// What `risc0_zkvm::compute_image_id` computes from a program: the 32 bytes of its image id, or
/// the message of its error.
pub uninterp spec fn computed_image_id(program: Seq<u8>) -> Result<Seq<u8>, Seq<char>>;

/// What a computed image id says: its bytes, or the message of the error.
pub open spec fn image_view(computed: Result<[u8; 32], String>) -> Result<Seq<u8>, Seq<char>> {
    match computed {
        Ok(image_id) => Ok(image_id@),
        Err(message) => Err(message@),
    }
}

/// `risc0_zkvm::compute_image_id`. It counts the bytes of a program in 32 bits, which can
/// overflow only for a program of more than `u32::MAX` bytes.
#[verifier::external_body]
fn compute_image_id(program: &[u8]) -> (r: Result<[u8; 32], String>)
    requires
        program@.len() <= u32::MAX,
    ensures
        image_view(r) == computed_image_id(program@),
{
    match risc0_zkvm::compute_image_id(program) {
        Ok(digest) => Ok(digest.into()),
        Err(error) => Err(error.to_string()),
    }
}

/// The terms of a request.
#[derive(Debug)]
pub struct RequestTerms {
    pub image_id: [u8; 32],
    pub cycles: u64,
    pub journal: Vec<u8>,
    pub ramp_up_period: u32,
    pub lock_timeout: u32,
    pub timeout: u32,
    pub max_price: U256,
    pub lock_collateral: U256,
    pub bidding_start: u64,
}

/// What the terms of a request say.
#[verifier::ext_equal]
pub struct TermsView {
    pub image_id: Seq<u8>,
    pub cycles: nat,
    pub journal: Seq<u8>,
    pub ramp_up_period: nat,
    pub lock_timeout: nat,
    pub timeout: nat,
    pub max_price: nat,
    pub lock_collateral: nat,
    pub bidding_start: nat,
}

impl View for RequestTerms {
    type V = TermsView;

    open spec fn view(&self) -> TermsView {
        TermsView {
            image_id: self.image_id@,
            cycles: self.cycles as nat,
            journal: self.journal@,
            ramp_up_period: self.ramp_up_period as nat,
            lock_timeout: self.lock_timeout as nat,
            timeout: self.timeout as nat,
            max_price: self.max_price@,
            lock_collateral: self.lock_collateral@,
            bidding_start: self.bidding_start as nat,
        }
    }
}

/// What terms or an error say.
pub open spec fn terms_view(r: AgentResult<RequestTerms>) -> Result<TermsView, AgentErrorView> {
    match r {
        Ok(terms) => Ok(terms@),
        Err(error) => Err(error@),
    }
}

/// A time per million cycles, in milliseconds, over a number of million cycles, in whole seconds.
pub open spec fn scaled_secs(ms_per_mcycle: u32, mcycles: u32) -> nat {
    (ms_per_mcycle as nat * mcycles as nat) / 1000
}

/// The price of a number of million cycles, in 256 bits.
pub open spec fn scaled_price(price_per_mcycle: nat, mcycles: u32) -> nat {
    (price_per_mcycle * mcycles as nat) % pow2(256)
}

/// Whether the times of an offer for a number of million cycles fit in their types.
pub open spec fn times_fit(offer: OfferView, mcycles: u32, now: u64) -> bool {
    &&& offer.lock_timeout_ms_per_mcycle * mcycles <= u32::MAX
    &&& offer.timeout_ms_per_mcycle * mcycles <= u32::MAX
    &&& now + BIDDING_DELAY_SECS <= u64::MAX
}

/// The terms of a request: the offer over the size of the program's run. The price rises no
/// longer than a prover may hold the request.
pub open spec fn request_terms(
    image_id: Seq<u8>,
    max_price: nat,
    lock_collateral: nat,
    offer: OfferView,
    mcycles: u32,
    journal: Seq<u8>,
    now: u64,
) -> TermsView {
    let lock_timeout = scaled_secs(offer.lock_timeout_ms_per_mcycle, mcycles);
    TermsView {
        image_id,
        cycles: mcycles as nat * MILLION_CYCLES as nat,
        journal,
        ramp_up_period: if offer.ramp_up_sec <= lock_timeout {
            offer.ramp_up_sec as nat
        } else {
            lock_timeout
        },
        lock_timeout,
        timeout: scaled_secs(offer.timeout_ms_per_mcycle, mcycles),
        max_price,
        lock_collateral,
        bidding_start: now as nat + BIDDING_DELAY_SECS as nat,
    }
}

/// What a computed image id comes to.
pub open spec fn image_result(computed: Result<Seq<u8>, Seq<char>>) -> Result<
    Seq<u8>,
    AgentErrorView,
> {
    match computed {
        Ok(image_id) => Ok(image_id),
        Err(message) => Err(
            AgentErrorView::ClientBuildError(
                "Failed to compute image_id from program: "@ + message,
            ),
        ),
    }
}

/// What a parsed price per million cycles comes to, over a number of million cycles.
pub open spec fn price_result(
    price: Seq<char>,
    parsed: Result<nat, Seq<char>>,
    mcycles: u32,
) -> Result<nat, AgentErrorView> {
    match parsed {
        Ok(amount) => Ok(scaled_price(amount, mcycles)),
        Err(message) => Err(
            AgentErrorView::ClientBuildError(
                "Failed to parse max_price_per_mcycle: "@ + price + " ("@ + message + ")"@,
            ),
        ),
    }
}

/// The terms of a request, or the first of the errors of its image id, its price and its
/// collateral.
pub open spec fn build_result(
    image: Result<Seq<u8>, Seq<char>>,
    price: Result<nat, Seq<char>>,
    collateral: Result<nat, Seq<char>>,
    offer: OfferView,
    mcycles: u32,
    journal: Seq<u8>,
    now: u64,
) -> Result<TermsView, AgentErrorView> {
    match image_result(image) {
        Err(error) => Err(error),
        Ok(image_id) => match price_result(offer.max_price_per_mcycle, price, mcycles) {
            Err(error) => Err(error),
            Ok(max_price) => match staking_result(offer.lock_collateral, collateral) {
                Err(error) => Err(error),
                Ok(lock_collateral) => Ok(
                    request_terms(
                        image_id,
                        max_price,
                        lock_collateral,
                        offer,
                        mcycles,
                        journal,
                        now,
                    ),
                ),
            },
        },
    }
}

/// Whether a request can be built without a number that does not fit its type or an amount cut
/// inside a character. What comes after an error is never looked at.
pub open spec fn build_is_defined(
    program: Seq<u8>,
    offer: OfferView,
    mcycles: u32,
    now: u64,
) -> bool {
    &&& program.len() <= u32::MAX
    &&& computed_image_id(program) is Ok ==> {
        &&& cut_is_whole(offer.max_price_per_mcycle, ETHER_DECIMALS as nat)
        &&& parsed_ether(offer.max_price_per_mcycle) is Ok ==> {
            &&& cut_is_whole(offer.lock_collateral, STAKE_TOKEN_DECIMALS as nat)
            &&& parsed_units(offer.lock_collateral, STAKE_TOKEN_DECIMALS) is Ok ==> times_fit(
                offer,
                mcycles,
                now,
            )
        }
    }
}

/// The image id of a program, given what computing it came to.
pub fn program_image_id(computed: Result<[u8; 32], String>) -> (r: AgentResult<[u8; 32]>)
    ensures
        match r {
            Ok(image_id) => image_result(image_view(computed)) == Ok::<Seq<u8>, AgentErrorView>(
                image_id@,
            ),
            Err(error) => image_result(image_view(computed)) == Err::<Seq<u8>, AgentErrorView>(
                error@,
            ),
        },
{
    match computed {
        Ok(image_id) => Ok(image_id),
        Err(message) => Err(
            AgentError::ClientBuildError(
                join("Failed to compute image_id from program: ", message.as_str()),
            ),
        ),
    }
}

/// The price of a number of million cycles, given what parsing the price of one came to.
pub fn max_price(price: &str, parsed: Result<U256, String>, mcycles: u32) -> (r: AgentResult<U256>)
    ensures
        amount_result(r) == price_result(price@, amount_view(parsed), mcycles),
{
    match parsed {
        Ok(amount) => Ok(amount.wrapping_mul(U256::from_u64(mcycles as u64))),
        Err(message) => {
            let mut text = join4(
                "Failed to parse max_price_per_mcycle: ",
                price,
                " (",
                message.as_str(),
            );
            text.append(")");
            Err(AgentError::ClientBuildError(text))
        },
    }
}

/// The terms of a request whose image id, price and collateral are known.
pub fn offer_terms(
    image_id: [u8; 32],
    max_price: U256,
    lock_collateral: U256,
    offer: &BoundlessOfferParams,
    mcycles: u32,
    journal: Vec<u8>,
    now: u64,
) -> (r: RequestTerms)
    requires
        times_fit(offer@, mcycles, now),
    ensures
        r@ == request_terms(
            image_id@,
            max_price@,
            lock_collateral@,
            offer@,
            mcycles,
            journal@,
            now,
        ),
{
    let lock_timeout: u32 = offer.lock_timeout_ms_per_mcycle * mcycles / 1000;
    let timeout: u32 = offer.timeout_ms_per_mcycle * mcycles / 1000;
    let ramp_up_period: u32 = if offer.ramp_up_sec <= lock_timeout {
        offer.ramp_up_sec
    } else {
        lock_timeout
    };
    assert(mcycles * MILLION_CYCLES <= u64::MAX) by (nonlinear_arith)
        requires
            mcycles <= u32::MAX,
            MILLION_CYCLES == 1_000_000,
    ;
    RequestTerms {
        image_id,
        cycles: mcycles as u64 * MILLION_CYCLES,
        journal,
        ramp_up_period,
        lock_timeout,
        timeout,
        max_price,
        lock_collateral,
        bidding_start: now + BIDDING_DELAY_SECS,
    }
}

impl BoundlessProver {
    /// The terms on which a request for a run of a program is offered now.
    pub fn build_boundless_request(
        program: &[u8],
        offer: &BoundlessOfferParams,
        mcycles: u32,
        journal: Vec<u8>,
        now: u64,
    ) -> (r: AgentResult<RequestTerms>)
        requires
            build_is_defined(program@, offer@, mcycles, now),
        ensures
            terms_view(r) == build_result(
                computed_image_id(program@),
                parsed_ether(offer@.max_price_per_mcycle),
                parsed_units(offer@.lock_collateral, STAKE_TOKEN_DECIMALS),
                offer@,
                mcycles,
                journal@,
                now,
            ),
    {
        let image_id = match program_image_id(compute_image_id(program)) {
            Ok(image_id) => image_id,
            Err(error) => return Err(error),
        };
        let price = offer.max_price_per_mcycle.as_str();
        let max_price = match max_price(price, parse_ether(price), mcycles) {
            Ok(max_price) => max_price,
            Err(error) => return Err(error),
        };
        let lock_collateral = match parse_staking_token(offer.lock_collateral.as_str()) {
            Ok(lock_collateral) => lock_collateral,
            Err(error) => return Err(error),
        };
        Ok(offer_terms(image_id, max_price, lock_collateral, offer, mcycles, journal, now))
    }

    /// The terms on which a request for a run of a program is offered now, or nothing where a
    /// number does not fit its type or an amount would be cut inside a character.
    pub fn try_build_boundless_request(
        program: &[u8],
        offer: &BoundlessOfferParams,
        mcycles: u32,
        journal: Vec<u8>,
        now: u64,
    ) -> (r: Option<AgentResult<RequestTerms>>)
        ensures
            r is Some <==> build_is_defined(program@, offer@, mcycles, now),
            r matches Some(built) ==> terms_view(built) == build_result(
                computed_image_id(program@),
                parsed_ether(offer@.max_price_per_mcycle),
                parsed_units(offer@.lock_collateral, STAKE_TOKEN_DECIMALS),
                offer@,
                mcycles,
                journal@,
                now,
            ),
    {
        let price = offer.max_price_per_mcycle.as_str();
        let collateral = offer.lock_collateral.as_str();
        let counted = program.len() as u64 <= 0xffff_ffff;
        let price_whole = can_cut(price, ETHER_DECIMALS);
        let collateral_whole = can_cut(collateral, STAKE_TOKEN_DECIMALS);
        let fits = offer.lock_timeout_ms_per_mcycle.checked_mul(mcycles).is_some()
            && offer.timeout_ms_per_mcycle.checked_mul(mcycles).is_some()
            && now.checked_add(BIDDING_DELAY_SECS).is_some();
        if counted && price_whole && collateral_whole && fits {
            return Some(
                BoundlessProver::build_boundless_request(program, offer, mcycles, journal, now),
            );
        }
        // An error before the first thing that is not in order is still the answer.
        if !counted {
            return None;
        }
        if let Err(error) = program_image_id(compute_image_id(program)) {
            return Some(Err(error));
        }
        if !price_whole {
            return None;
        }
        if let Err(error) = max_price(price, parse_ether(price), mcycles) {
            return Some(Err(error));
        }
        if !collateral_whole {
            return None;
        }
        if let Err(error) = parse_staking_token(collateral) {
            return Some(Err(error));
        }
        None
    }
}

/// The cycles of a run in segments, each given by the power of two of its size.
pub open spec fn run_cycles(segment_po2s: Seq<u32>) -> nat
    decreases segment_po2s.len(),
{
    if segment_po2s.len() == 0 {
        0
    } else {
        run_cycles(segment_po2s.drop_last()) + pow2(segment_po2s.last() as nat)
    }
}

/// The cycles of a run in millions, rounded up.
pub open spec fn run_mcycles(segment_po2s: Seq<u32>) -> nat {
    (run_cycles(segment_po2s) + MILLION_CYCLES as nat - 1) as nat / MILLION_CYCLES as nat
}

proof fn lemma_run_cycles_grow(segment_po2s: Seq<u32>, n: int)
    requires
        0 <= n <= segment_po2s.len(),
    ensures
        run_cycles(segment_po2s.take(n)) <= run_cycles(segment_po2s),
    decreases segment_po2s.len(),
{
    if n < segment_po2s.len() {
        assert(segment_po2s.drop_last().take(n) =~= segment_po2s.take(n));
        lemma_run_cycles_grow(segment_po2s.drop_last(), n);
    } else {
        assert(segment_po2s.take(n) =~= segment_po2s);
    }
}

fn power_of_two(po2: u32) -> (r: u64)
    requires
        pow2(po2 as nat) <= u64::MAX,
    ensures
        r == pow2(po2 as nat),
{
    proof {
        vstd::arithmetic::power2::lemma2_to64();
        vstd::arithmetic::power2::lemma2_to64_rest();
        if po2 >= 64 {
            if po2 > 64 {
                vstd::arithmetic::power2::lemma_pow2_strictly_increases(64, po2 as nat);
            }
        }
        vstd::bits::lemma_u64_shl_is_mul(1, po2 as u64);
    }
    1u64 << (po2 as u64)
}

/// The size of a dry run in million cycles, rounded up, and its journal; or the error of a run
/// that failed. A run is given by the powers of two of its segments' sizes and its journal.
pub fn evaluate_cost(run: Result<(Vec<u32>, Vec<u8>), String>) -> (r: AgentResult<(u64, Vec<u8>)>)
    requires
        run matches Ok((segment_po2s, _)) ==> run_cycles(segment_po2s@) <= u64::MAX,
    ensures
        match (r, run) {
            (Ok((mcycles, journal)), Ok((segment_po2s, given))) => mcycles == run_mcycles(
                segment_po2s@,
            ) && journal == given,
            (Err(error), Err(message)) => error@ == AgentErrorView::GuestExecutionError(
                "Failed to execute guest environment: "@ + message@,
            ),
            _ => false,
        },
{
    let (segment_po2s, journal) = match run {
        Ok((segment_po2s, journal)) => (segment_po2s, journal),
        Err(message) => {
            return Err(
                AgentError::GuestExecutionError(
                    join("Failed to execute guest environment: ", message.as_str()),
                ),
            );
        },
    };
    let mut cycles: u64 = 0;
    let mut i: usize = 0;
    assert(segment_po2s@.take(0) =~= Seq::<u32>::empty());
    while i < segment_po2s.len()
        invariant
            i <= segment_po2s@.len(),
            cycles == run_cycles(segment_po2s@.take(i as int)),
            run_cycles(segment_po2s@) <= u64::MAX,
        decreases segment_po2s@.len() - i,
    {
        proof {
            lemma_run_cycles_grow(segment_po2s@, i + 1);
            assert(segment_po2s@.take(i + 1).drop_last() =~= segment_po2s@.take(i as int));
        }
        cycles += power_of_two(segment_po2s[i]);
        i += 1;
    }
    assert(segment_po2s@.take(segment_po2s@.len() as int) =~= segment_po2s@);
    let whole: u64 = cycles / MILLION_CYCLES;
    let mcycles: u64 = if cycles % MILLION_CYCLES == 0 {
        whole
    } else {
        whole + 1
    };
    Ok((mcycles, journal))
}

/// The price of a request never rises for longer than a prover may hold it, and where the offer
/// gives a request at least as long as a prover may hold it, so do the terms.
pub proof fn law_terms_keep_the_order_of_times(
    image_id: Seq<u8>,
    max_price: nat,
    lock_collateral: nat,
    offer: OfferView,
    mcycles: u32,
    journal: Seq<u8>,
    now: u64,
)
    ensures
        ({
            let terms = request_terms(
                image_id,
                max_price,
                lock_collateral,
                offer,
                mcycles,
                journal,
                now,
            );
            &&& terms.ramp_up_period <= terms.lock_timeout
            &&& terms.ramp_up_period <= offer.ramp_up_sec
            &&& offer.lock_timeout_ms_per_mcycle <= offer.timeout_ms_per_mcycle
                ==> terms.lock_timeout <= terms.timeout
            &&& terms.bidding_start > now
        }),
{
    let a = offer.lock_timeout_ms_per_mcycle as nat;
    let b = offer.timeout_ms_per_mcycle as nat;
    let m = mcycles as nat;
    if a <= b {
        assert(a * m <= b * m) by (nonlinear_arith)
            requires
                a <= b,
        ;
    }
}

/// A run of a number of million cycles holds at least its cycles, and less than a million more.
pub proof fn law_mcycles_round_up(segment_po2s: Seq<u32>)
    ensures
        run_cycles(segment_po2s) <= run_mcycles(segment_po2s) * MILLION_CYCLES < run_cycles(
            segment_po2s,
        ) + MILLION_CYCLES,
{
}

} // verus!
