//! What the calls on texts, numbers, ids, errors and tables promise.

use crate::error::{AgentError, AgentResult};
use crate::retry::{Backoff, RetryStep};
use crate::table::RequestTable;
use crate::text::{decimal, digits_value, unsigned_digits};
use crate::text::{decimal_text, eq_but_case, join, join4, parse_u32};
use crate::types::{copy_bytes, copy_text, AsyncProofRequest, ProofRequestStatus, ProofType};
use crate::u256::U256;
use crate::units::{byte_len, fraction, is_ascii};
use crate::units::{can_cut, parsed_units};
use crate::utils::{generate_request_id, parse_staking_token, request_id_of_hash, staking_amount};
use crate::utils::{hex_text, keccak};
use vstd::arithmetic::power2::pow2;
use vstd::prelude::*;
use vstd::utf8::encode_utf8;

verus! {

proof fn lemma_decimal(n: nat)
    ensures
        decimal(n).len() > 0,
        digits_value(decimal(n)) == n,
        forall|i: int| 0 <= i < decimal(n).len() ==> '0' <= #[trigger] decimal(n)[i] <= '9',
        n > 0 ==> decimal(n)[0] != '0',
        n == 0 ==> decimal(n).len() == 1,
    decreases n,
{
    if n >= 10 {
        lemma_decimal(n / 10);
        let more = decimal(n / 10);
        let last = crate::text::digit_char(n % 10);
        assert(decimal(n) == more.push(last));
        assert(decimal(n).drop_last() =~= more);
        assert('0' <= last <= '9');
        assert forall|i: int| 0 <= i < decimal(n).len() implies '0' <= #[trigger] decimal(n)[i]
            <= '9' by {
            if i < more.len() {
                assert(decimal(n)[i] == more[i]);
            }
        }
        assert(decimal(n)[0] == more[0]);
    } else {
        assert(decimal(n).drop_last() =~= Seq::<char>::empty());
        assert(digits_value(decimal(n).drop_last()) == 0);
    }
}

/// A number is written in decimal digits that stand for it, without a leading zero.
pub proof fn law_written_number_reads_as_itself(n: u32, text: String)
    requires
        call_ensures(decimal_text, (n,), text),
    ensures
        digits_value(text@) == n,
        text@.len() > 0,
        forall|i: int| 0 <= i < text@.len() ==> '0' <= #[trigger] text@[i] <= '9',
        text@[0] == '0' ==> text@.len() == 1,
{
    lemma_decimal(n as nat);
}

/// Reading a number that was written gives the number back, with or without a plus sign.
pub proof fn law_number_survives_writing_and_reading(
    n: u32,
    text: String,
    plain: &str,
    signed: &str,
    r: Option<u32>,
    signed_r: Option<u32>,
)
    requires
        call_ensures(decimal_text, (n,), text),
        plain@ == text@,
        call_ensures(parse_u32, (plain,), r),
        signed@ == seq!['+'] + text@,
        call_ensures(parse_u32, (signed,), signed_r),
    ensures
        r == Some(n),
        signed_r == Some(n),
{
    lemma_decimal(n as nat);
    assert(text@[0] != '+');
    assert(signed@.skip(1) =~= text@);
}

/// One more digit behind a number that can be read makes it ten times as large and adds the digit,
/// as long as that fits 32 bits; anything but a digit behind it makes it unreadable.
pub proof fn law_reading_goes_digit_by_digit(
    text: &str,
    longer: &str,
    c: char,
    r: Option<u32>,
    longer_r: Option<u32>,
)
    requires
        longer@ == text@.push(c),
        call_ensures(parse_u32, (text,), r),
        call_ensures(parse_u32, (longer,), longer_r),
    ensures
        r matches Some(n) ==> longer_r == if '0' <= c <= '9' && 10 * n + (c as u32 - 48)
            <= u32::MAX {
            Some((10 * n + (c as u32 - 48)) as u32)
        } else {
            None
        },
{
    if let Some(n) = r {
        let digits = unsigned_digits(text@);
        assert(unsigned_digits(longer@) =~= digits.push(c));
        assert(digits.push(c).drop_last() =~= digits);
        assert(digits.push(c).last() == c);
        let more = digits.push(c);
        assert(more[digits.len() as int] == c);
        if '0' <= c <= '9' {
            assert forall|i: int| 0 <= i < more.len() implies crate::text::is_digit(
                #[trigger] more[i],
            ) by {
                if i < digits.len() {
                    assert(more[i] == digits[i]);
                }
            }
        }
    }
}

/// What can be read is one or more decimal digits, after a plus sign at most; a lone digit reads
/// as itself.
pub proof fn law_only_digits_are_read(text: &str, r: Option<u32>)
    requires
        call_ensures(parse_u32, (text,), r),
    ensures
        r is Some ==> text@.len() > 0 && (text@[0] == '+' || '0' <= text@[0] <= '9') && forall|
            i: int,
        |
            1 <= i < text@.len() ==> '0' <= #[trigger] text@[i] <= '9',
        r is Some && text@[0] == '+' ==> text@.len() > 1,
        text@.len() == 1 && '0' <= text@[0] <= '9' ==> r == Some((text@[0] as u32 - 48) as u32),
{
    let digits = crate::text::unsigned_digits(text@);
    if r is Some {
        if text@[0] == '+' {
            assert forall|i: int| 1 <= i < text@.len() implies '0' <= #[trigger] text@[i] <= '9' by {
                assert(digits[i - 1] == text@[i]);
            }
        } else {
            assert forall|i: int| 0 <= i < text@.len() implies '0' <= #[trigger] text@[i] <= '9' by {
                assert(digits[i] == text@[i]);
            }
        }
    }
    if text@.len() == 1 && '0' <= text@[0] <= '9' {
        assert(digits == text@);
        assert(digits.drop_last() =~= Seq::<char>::empty());
        assert(digits_value(digits.drop_last()) == 0);
        assert(digits.last() == text@[0]);
    }
}

/// Whether two characters are the same, or the two cases of one ASCII letter.
pub open spec fn same_letter(a: char, b: char) -> bool {
    ||| a == b
    ||| 'a' <= a <= 'z' && a as u32 - b as u32 == 32
    ||| 'a' <= b <= 'z' && b as u32 - a as u32 == 32
}

/// Two texts compare equal exactly where they match character by character, but for the case of
/// ASCII letters.
pub proof fn law_comparison_ignores_case_alone(a: &str, b: &str, r: bool)
    requires
        call_ensures(eq_but_case, (a, b), r),
    ensures
        r <==> a@.len() == b@.len() && forall|i: int|
            0 <= i < a@.len() ==> same_letter(#[trigger] a@[i], b@[i]),
{
    assert forall|i: int| 0 <= i < a@.len() && a@.len() == b@.len() implies (crate::text::lower(
        #[trigger] a@[i],
    ) == crate::text::lower(b@[i]) <==> same_letter(a@[i], b@[i])) by {
        lemma_lower(a@[i], b@[i]);
    }
}

proof fn lemma_lower(a: char, b: char)
    ensures
        crate::text::lower(a) == crate::text::lower(b) <==> same_letter(a, b),
{
}

/// Texts that are put together follow each other, each as it is.
pub proof fn law_joined_texts_follow_each_other(
    a: &str,
    b: &str,
    c: &str,
    d: &str,
    two: String,
    four: String,
)
    requires
        call_ensures(join, (a, b), two),
        call_ensures(join4, (a, b, c, d), four),
    ensures
        two@.len() == a@.len() + b@.len(),
        two@.take(a@.len() as int) == a@,
        two@.skip(a@.len() as int) == b@,
        four@ == two@ + c@ + d@,
{
    assert(two@.take(a@.len() as int) =~= a@);
    assert(two@.skip(a@.len() as int) =~= b@);
}

/// The value of a hexadecimal digit.
pub open spec fn hex_value(c: char) -> nat {
    if '0' <= c <= '9' {
        (c as nat - 48) as nat
    } else {
        (c as nat - 87) as nat
    }
}

/// Whether a character is a lower-case hexadecimal digit.
pub open spec fn is_hex(c: char) -> bool {
    '0' <= c <= '9' || 'a' <= c <= 'f'
}

proof fn lemma_hex_reads_back(bytes: Seq<u8>, i: int)
    requires
        0 <= i < bytes.len(),
    ensures
        hex_text(bytes).len() == 2 * bytes.len(),
        is_hex(hex_text(bytes)[2 * i]),
        is_hex(hex_text(bytes)[2 * i + 1]),
        16 * hex_value(hex_text(bytes)[2 * i]) + hex_value(hex_text(bytes)[2 * i + 1]) == bytes[i],
{
    assert((2 * i) / 2 == i && (2 * i + 1) / 2 == i);
}

/// The id of a request reads back: before the underscore the bytes of the hash in lower-case
/// hexadecimal, behind it the name of the type.
pub proof fn law_request_id_reads_back(hash: [u8; 32], proof_type: ProofType, id: String, i: int)
    requires
        call_ensures(request_id_of_hash, (&hash, &proof_type), id),
        0 <= i < 32,
    ensures
        is_hex(id@[2 * i]) && is_hex(id@[2 * i + 1]),
        16 * hex_value(id@[2 * i]) + hex_value(id@[2 * i + 1]) == hash@[i],
        id@[64] == '_',
        proof_type is Batch ==> id@.skip(65) == "batch"@,
        proof_type is Aggregate ==> id@.skip(65) == "aggregate"@,
{
    reveal_strlit("_");
    lemma_hex_reads_back(hash@, i);
    let hex = hex_text(hash@);
    assert(id@[2 * i] == hex[2 * i] && id@[2 * i + 1] == hex[2 * i + 1]);
    assert(id@.skip(65) =~= crate::utils::proof_type_label(proof_type));
}

/// The id of a request with an input reads back to the hash of the input, so that the same input
/// and type always have the same id.
pub proof fn law_request_id_is_of_the_input(
    input: &[u8],
    proof_type: ProofType,
    id: String,
    again: String,
    i: int,
)
    requires
        call_ensures(generate_request_id, (input, &proof_type), id),
        call_ensures(generate_request_id, (input, &proof_type), again),
        0 <= i < keccak(input@).len(),
    ensures
        16 * hex_value(id@[2 * i]) + hex_value(id@[2 * i + 1]) == keccak(input@)[i],
        id@[2 * keccak(input@).len() as int] == '_',
        proof_type is Batch ==> id@.skip(2 * keccak(input@).len() as int + 1) == "batch"@,
        proof_type is Aggregate ==> id@.skip(2 * keccak(input@).len() as int + 1) == "aggregate"@,
        id@ == again@,
{
    reveal_strlit("_");
    let hash = keccak(input@);
    lemma_hex_reads_back(hash, i);
    let hex = hex_text(hash);
    assert(id@[2 * i] == hex[2 * i] && id@[2 * i + 1] == hex[2 * i + 1]);
    assert(id@.skip(2 * hash.len() as int + 1) =~= crate::utils::proof_type_label(proof_type));
}

/// A collateral amount that was parsed is handed on as it is; one that was not gives an error that
/// names the text and the reason.
pub proof fn law_collateral_is_the_parsed_amount(
    token: &str,
    parsed: Result<U256, String>,
    r: AgentResult<U256>,
)
    requires
        call_ensures(staking_amount, (token, parsed), r),
    ensures
        parsed is Ok <==> r is Ok,
        parsed is Ok ==> r->Ok_0 == parsed->Ok_0,
        parsed matches Err(reason) ==> (r matches Err(AgentError::ClientBuildError(text)) && text@
            == "Failed to parse stacking: "@ + token@ + " ("@ + reason@ + ")"@),
{
}

/// Collateral is read with eighteen decimals, and the amount read is the amount given back.
pub proof fn law_collateral_has_eighteen_decimals(token: &str, r: AgentResult<U256>)
    requires
        call_ensures(parse_staking_token, (token,), r),
    ensures
        match parsed_units(token@, 18) {
            Ok(amount) => r matches Ok(read) && read@ == amount,
            Err(reason) => r matches Err(AgentError::ClientBuildError(text)) && text@
                == "Failed to parse stacking: "@ + token@ + " ("@ + reason + ")"@,
        },
{
}

/// The first decimal point decides where the fraction starts; an amount without one, or whose
/// fraction is short enough, needs no cut, and any other is cut where a character ends.
pub proof fn law_cut_is_tested_on_the_fraction(
    amount: &str,
    decimals: u8,
    whole: Seq<char>,
    rest: Seq<char>,
    r: bool,
)
    requires
        call_ensures(can_cut, (amount, decimals), r),
        forall|i: int| 0 <= i < whole.len() ==> #[trigger] whole[i] != '.',
    ensures
        amount@ == whole ==> r,
        amount@ == whole + seq!['.'] + rest ==> (r <==> encode_utf8(rest).len() <= decimals
            || exists|n: int|
            0 <= n <= rest.len() && #[trigger] encode_utf8(rest.take(n)).len() == decimals),
{
    if is_ascii(amount@) {
        crate::units::law_ascii_amount_cuts_between_characters(amount@, decimals as nat);
    }
    if amount@ == whole {
        lemma_point(amount@, whole.len() as int);
        assert(fraction(amount@) == Seq::<char>::empty());
        assert(byte_len(fraction(amount@)) == 0);
    }
    if amount@ == whole + seq!['.'] + rest {
        let at = whole.len() as int;
        assert forall|i: int| 0 <= i < at implies #[trigger] amount@[i] != '.' by {
            assert(amount@[i] == whole[i]);
        }
        assert(amount@[at] == '.');
        lemma_point(amount@, at);
        assert(fraction(amount@) =~= rest);
        if exists|n: int| 0 <= n <= rest.len() && #[trigger] encode_utf8(rest.take(n)).len() == decimals {
            let n = choose|n: int|
                0 <= n <= rest.len() && #[trigger] encode_utf8(rest.take(n)).len() == decimals;
            assert(byte_len(fraction(amount@).take(n)) == decimals);
        }
        if r && byte_len(rest) > decimals {
            let n = choose|n: int|
                0 <= n <= rest.len() && #[trigger] byte_len(rest.take(n)) == decimals as nat;
            assert(encode_utf8(rest.take(n)).len() == decimals);
        }
    }
}

proof fn lemma_point(amount: Seq<char>, at: int)
    requires
        0 <= at <= amount.len(),
        forall|i: int| 0 <= i < at ==> #[trigger] amount[i] != '.',
        at == amount.len() || amount[at] == '.',
    ensures
        crate::units::point_index(amount) == at,
    decreases amount.len(),
{
    if at > 0 {
        assert(amount[0] != '.');
        assert forall|i: int| 0 <= i < at - 1 implies #[trigger] amount.drop_first()[i] != '.' by {
            assert(amount.drop_first()[i] == amount[i + 1]);
        }
        lemma_point(amount.drop_first(), at - 1);
    }
}

/// 256-bit products are exact where they fit, wrap where they do not, and do not depend on the
/// order.
pub proof fn law_products_wrap(a: U256, b: U256, r: U256, swapped: U256, zero: U256, n: u64, m: U256)
    requires
        call_ensures(U256::wrapping_mul, (a, b), r),
        call_ensures(U256::wrapping_mul, (b, a), swapped),
        call_ensures(U256::zero, (), zero),
        call_ensures(U256::from_u64, (n,), m),
    ensures
        a@ * b@ < pow2(256) ==> r@ == a@ * b@,
        r@ == (a@ * b@) % pow2(256),
        r == swapped,
        zero@ == 0,
        m@ == n,
{
    assert(a@ * b@ == b@ * a@) by (nonlinear_arith);
    if a@ * b@ < pow2(256) {
        vstd::arithmetic::div_mod::lemma_small_mod(a@ * b@, pow2(256));
    }
    crate::u256::law_u256_value_is_unique(r, swapped);
}

/// Every error is shown with its own text, followed by its details.
pub proof fn law_errors_are_shown_with_their_details(error: AgentError, r: String)
    requires
        call_ensures(AgentError::message, (&error,), r),
    ensures
        error matches AgentError::ClientBuildError(d) ==> r@ == "Failed to build boundless client: "@
            + d@,
        error matches AgentError::PollingError(d) ==> r@ == "Transient polling error: "@ + d@,
        error matches AgentError::RetryError(d) ==> r@ == "Retry error: "@ + d@,
        error matches AgentError::GuestEnvEncodeError(d) ==> r@
            == "Failed to encode guest environment: "@ + d@,
        error matches AgentError::UploadError(d) ==> r@ == "Failed to upload input: "@ + d@,
        error matches AgentError::ProgramUploadError(d) ==> r@ == "Failed to upload program: "@ + d@,
        error matches AgentError::RequestBuildError(d) ==> r@ == "Failed to build request: "@ + d@,
        error matches AgentError::RequestSubmitError(d) ==> r@ == "Failed to submit request: "@ + d@,
        error matches AgentError::RequestFulfillmentError { attempts, error: e } ==> r@
            == "Failed to wait for request fulfillment after "@ + decimal(attempts as nat)
            + " attempts: "@ + e@,
        error matches AgentError::ResponseEncodeError(d) ==> r@ == "Failed to encode response: "@
            + d@,
        error matches AgentError::GuestExecutionError(d) ==> r@
            == "Failed to execute guest environment: "@ + d@,
        error is InvalidReceiptError ==> r@ == "Did not receive requested unaggregated receipt"@,
        error is MissingJournalError ==> r@ == "Missing journal in fulfillment data"@,
        error matches AgentError::FulfillmentDecodeError(d) ==> r@
            == "Failed to decode fulfillment data: "@ + d@,
        error is StorageProviderRequired ==> r@ == "Storage provider is required"@,
{
}

/// An operation is tried again exactly while fewer attempts have failed than are allowed. The
/// first wait is half a second; each further one is twice as long as the one before it, and none is
/// longer than ten seconds. The error that an operation is given up with tells its name, how often
/// it was tried and what the last attempt came to.
pub proof fn law_retries_back_off(
    backoff: &mut Backoff,
    next: &mut Backoff,
    name: &str,
    max_attempts: u32,
    error: AgentError,
    next_error: AgentError,
    shown: String,
    r: RetryStep,
    next_r: RetryStep,
)
    requires
        call_ensures(Backoff::after_failure, (backoff, name, max_attempts, &error), r),
        *old(next) == *final(backoff),
        call_ensures(Backoff::after_failure, (next, name, max_attempts, &next_error), next_r),
        call_ensures(AgentError::message, (&error,), shown),
    ensures
        final(backoff)@ == old(backoff)@ + 1,
        r is Retry <==> old(backoff)@ + 1 < max_attempts,
        old(backoff)@ == 0 ==> (r matches RetryStep::Retry { delay_ms } ==> delay_ms == 500),
        (r matches RetryStep::Retry { delay_ms } ==> 500 <= delay_ms <= 10_000 && (
        next_r matches RetryStep::Retry { delay_ms: next_ms } ==> next_ms == if 2 * delay_ms
            < 10_000 {
            2 * delay_ms
        } else {
            10_000
        })),
        r matches RetryStep::GiveUp(given_up) ==> (given_up matches AgentError::RetryError(text)
            && text@ == name@ + " failed after "@ + decimal((old(backoff)@ + 1) as nat)
            + " attempts: "@ + shown@),
{
    vstd::arithmetic::power2::lemma2_to64();
    crate::retry::law_backoff_is_exponential_and_capped(old(backoff)@);
    if 2 * crate::retry::backoff_delay(old(backoff)@) > 10_000 {
        vstd::arithmetic::power2::lemma_pow2_unfold(old(backoff)@ + 1);
    }
}

/// An operation that has not been tried has no failures.
pub proof fn law_backoff_starts_afresh(r: Backoff)
    requires
        call_ensures(Backoff::start, (), r),
    ensures
        r@ == 0,
{
}

/// A status ends a request exactly where it is fulfilled or failed; it carries the market's id
/// exactly where the market has the request, and a failure exactly where it failed.
pub proof fn law_statuses_say_what_they_are(
    status: ProofRequestStatus,
    terminal: bool,
    id: Option<U256>,
    failure: Option<String>,
)
    requires
        call_ensures(ProofRequestStatus::is_terminal, (&status,), terminal),
        call_ensures(ProofRequestStatus::market_id, (&status,), id),
        call_ensures(ProofRequestStatus::failure, (&status,), failure),
    ensures
        match status {
            ProofRequestStatus::Preparing => !terminal && id is None && failure is None,
            ProofRequestStatus::Submitted { market_request_id } => !terminal && id == Some(
                market_request_id,
            ) && failure is None,
            ProofRequestStatus::Locked { market_request_id, .. } => !terminal && id == Some(
                market_request_id,
            ) && failure is None,
            ProofRequestStatus::Fulfilled { market_request_id, .. } => terminal && id == Some(
                market_request_id,
            ) && failure is None,
            ProofRequestStatus::Failed { error } => terminal && id is None && (failure matches Some(
                text,
            ) && text@ == error@),
        },
{
}

/// A request with a new status has that status and what it carries, and asks for the same proof.
pub proof fn law_new_status_is_recorded(
    request: AsyncProofRequest,
    status: ProofRequestStatus,
    r: AsyncProofRequest,
)
    requires
        call_ensures(AsyncProofRequest::with_status, (request, &status), r),
    ensures
        r.status@ == status@,
        match status {
            ProofRequestStatus::Submitted { market_request_id } => r.market_request_id
                == market_request_id,
            ProofRequestStatus::Locked { market_request_id, .. } => r.market_request_id
                == market_request_id,
            ProofRequestStatus::Fulfilled { market_request_id, .. } => r.market_request_id
                == market_request_id,
            _ => r.market_request_id == request.market_request_id,
        },
        match status {
            ProofRequestStatus::Failed { error } => r.last_error matches Some(text) && text@
                == error@,
            _ => r.last_error is None,
        },
        r.request_id@ == request.request_id@,
        r.proof_type == request.proof_type,
        r.input@ == request.input@,
        r.output@ == request.output@,
        r.config == request.config,
{
    assert(r@ == request@.with_status(status@));
    assert(r@.last_error == crate::types::text_view(r.last_error));
}

/// A copy of a request, of a status, of a text or of bytes is the same as what it was made from.
pub proof fn law_copies_are_the_same(
    request: AsyncProofRequest,
    status: ProofRequestStatus,
    text: Option<String>,
    bytes: Vec<u8>,
    request_r: AsyncProofRequest,
    status_r: ProofRequestStatus,
    text_r: Option<String>,
    bytes_r: Vec<u8>,
)
    requires
        call_ensures(<AsyncProofRequest as Clone>::clone, (&request,), request_r),
        call_ensures(<ProofRequestStatus as Clone>::clone, (&status,), status_r),
        call_ensures(copy_text, (&text,), text_r),
        call_ensures(copy_bytes, (&bytes,), bytes_r),
    ensures
        request_r@ == request@,
        status_r@ == status@,
        text is Some <==> text_r is Some,
        text is Some ==> text_r->0@ == text->0@,
        bytes_r@ == bytes@,
{
}

/// A key leads to what was last put under it; no other key is touched.
pub proof fn law_table_keeps_the_last_value<V>(
    table: &mut RequestTable<V>,
    after: RequestTable<V>,
    key: String,
    value: V,
    other: &str,
    before_r: Option<&V>,
    r: Option<&V>,
)
    requires
        call_ensures(RequestTable::<V>::get, (&*old(table), other), before_r),
        call_ensures(RequestTable::<V>::insert, (table, key, value), ()),
        after == *final(table),
        call_ensures(RequestTable::<V>::get, (&after, other), r),
    ensures
        other@ == key@ ==> r == Some(&value),
        other@ != key@ ==> r == before_r,
{
}

/// A key that was removed leads nowhere, and what it led to is handed out; no other key is touched.
pub proof fn law_table_forgets_what_is_removed<V>(
    table: &mut RequestTable<V>,
    after: RequestTable<V>,
    key: &str,
    other: &str,
    removed: Option<V>,
    before_r: Option<&V>,
    r: Option<&V>,
)
    requires
        call_ensures(RequestTable::<V>::get, (&*old(table), other), before_r),
        call_ensures(RequestTable::<V>::remove, (table, key), removed),
        after == *final(table),
        call_ensures(RequestTable::<V>::get, (&after, other), r),
    ensures
        other@ == key@ ==> r is None && (removed is Some <==> before_r is Some) && (
        removed matches Some(value) ==> before_r == Some(&value)),
        other@ != key@ ==> r == before_r,
{
}

/// No key leads anywhere in a new table, nor in one that was cleared.
pub proof fn law_empty_table_leads_nowhere<V>(
    new: RequestTable<V>,
    table: &mut RequestTable<V>,
    after: RequestTable<V>,
    key: &str,
    new_r: Option<&V>,
    r: Option<&V>,
)
    requires
        call_ensures(RequestTable::<V>::new, (), new),
        call_ensures(RequestTable::<V>::get, (&new, key), new_r),
        call_ensures(RequestTable::<V>::clear, (table,), ()),
        after == *final(table),
        call_ensures(RequestTable::<V>::get, (&after, key), r),
    ensures
        new_r is None,
        r is None,
{
}

} // verus!
