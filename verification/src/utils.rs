//! Request ids and collateral amounts.

use crate::error::{AgentError, AgentResult};
use crate::error::AgentErrorView;
use crate::text::{join, join4};
use crate::types::ProofType;
use crate::u256::U256;
use crate::units::parse_units;
use crate::units::{amount_view, cut_is_whole, parsed_units};
use vstd::prelude::*;

verus! {

/// The decimals of the token that collateral is put up in.
pub const STAKE_TOKEN_DECIMALS: u8 = 18;

/// The Keccak-256 hash of some bytes, as `alloy_primitives::keccak256` computes it.
pub uninterp spec fn keccak(bytes: Seq<u8>) -> Seq<u8>;

/// `alloy_primitives::keccak256`: the 32 bytes of the hash.
#[verifier::external_body]
fn keccak256(bytes: &[u8]) -> (r: [u8; 32])
    ensures
        r@ == keccak(bytes@),
{
    alloy_primitives::keccak256(bytes).0
}

/// The lower-case hexadecimal digit for a number below sixteen.
pub open spec fn hex_digit(n: nat) -> char {
    if n < 10 {
        (48 + n) as char
    } else {
        (87 + n) as char
    }
}

/// Bytes in lower-case hexadecimal, two digits each, the high one first.
pub open spec fn hex_text(bytes: Seq<u8>) -> Seq<char> {
    Seq::new(
        2 * bytes.len(),
        |i: int|
            if i % 2 == 0 {
                hex_digit(bytes[i / 2] as nat / 16)
            } else {
                hex_digit(bytes[i / 2] as nat % 16)
            },
    )
}

/// `alloy_primitives::hex::encode`: the bytes in lower-case hexadecimal, without a prefix.
#[verifier::external_body]
fn hex_encode(bytes: &[u8; 32]) -> (r: String)
    ensures
        r@ == hex_text(bytes@),
{
    alloy_primitives::hex::encode(bytes)
}

/// The name of a proof type in a request id.
pub open spec fn proof_type_label(proof_type: ProofType) -> Seq<char> {
    match proof_type {
        ProofType::Batch => "batch"@,
        ProofType::Aggregate => "aggregate"@,
    }
}

/// The id of the request of a type whose input has a hash.
pub open spec fn request_id(hash: Seq<u8>, proof_type: ProofType) -> Seq<char> {
    hex_text(hash) + "_"@ + proof_type_label(proof_type)
}

/// The id of the request of a type whose input has the hash `hash`.
pub fn request_id_of_hash(hash: &[u8; 32], proof_type: &ProofType) -> (r: String)
    ensures
        r@ == request_id(hash@, *proof_type),
{
    let name = match proof_type {
        ProofType::Batch => "batch",
        ProofType::Aggregate => "aggregate",
    };
    let mut id = join(hex_encode(hash).as_str(), "_");
    id.append(name);
    id
}

/// The id of the request of a type with an input: the same input and type always get the same id.
pub fn generate_request_id(input: &[u8], proof_type: &ProofType) -> (r: String)
    ensures
        r@ == request_id(keccak(input@), *proof_type),
{
    request_id_of_hash(&keccak256(input), proof_type)
}

/// What a parsed collateral amount says of the text it was parsed from.
pub open spec fn staking_result(token: Seq<char>, parsed: Result<nat, Seq<char>>) -> Result<
    nat,
    AgentErrorView,
> {
    match parsed {
        Ok(amount) => Ok(amount),
        Err(message) => Err(
            AgentErrorView::ClientBuildError(
                "Failed to parse stacking: "@ + token + " ("@ + message + ")"@,
            ),
        ),
    }
}

/// What an amount or an error says.
pub open spec fn amount_result(r: AgentResult<U256>) -> Result<nat, AgentErrorView> {
    match r {
        Ok(amount) => Ok(amount@),
        Err(error) => Err(error@),
    }
}

/// The amount of collateral in `token`, given what parsing it came to.
pub fn staking_amount(token: &str, parsed: Result<U256, String>) -> (r: AgentResult<U256>)
    ensures
        amount_result(r) == staking_result(token@, amount_view(parsed)),
        parsed matches Ok(amount) ==> r == Ok::<U256, AgentError>(amount),
{
    match parsed {
        Ok(amount) => Ok(amount),
        Err(message) => {
            let mut text = join4("Failed to parse stacking: ", token, " (", message.as_str());
            text.append(")");
            Err(AgentError::ClientBuildError(text))
        },
    }
}

/// Reads an amount of collateral in the smallest units of its token.
pub fn parse_staking_token(token: &str) -> (r: AgentResult<U256>)
    requires
        cut_is_whole(token@, STAKE_TOKEN_DECIMALS as nat),
    ensures
        amount_result(r) == staking_result(token@, parsed_units(token@, STAKE_TOKEN_DECIMALS)),
{
    staking_amount(token, parse_units(token, STAKE_TOKEN_DECIMALS))
}

proof fn lemma_hex_digit_injective(a: nat, b: nat)
    requires
        a < 16,
        b < 16,
        hex_digit(a) == hex_digit(b),
    ensures
        a == b,
{
}

/// No request id of one type is a request id of the other, whatever the inputs.
pub proof fn law_request_id_tells_type(a: Seq<u8>, b: Seq<u8>)
    ensures
        request_id(a, ProofType::Batch) != request_id(b, ProofType::Aggregate),
{
    reveal_strlit("batch");
    reveal_strlit("aggregate");
    assert(request_id(a, ProofType::Batch).last() == 'h');
    assert(request_id(b, ProofType::Aggregate).last() == 'e');
}

/// Requests of one type with the same id have inputs with the same hash.
pub proof fn law_request_id_tells_hash(a: Seq<u8>, b: Seq<u8>, proof_type: ProofType)
    requires
        request_id(a, proof_type) == request_id(b, proof_type),
    ensures
        a == b,
{
    let x = request_id(a, proof_type);
    let y = request_id(b, proof_type);
    assert(x.len() == y.len());
    assert(hex_text(a).len() == hex_text(b).len());
    assert forall|i: int| 0 <= i < a.len() implies #[trigger] a[i] == b[i] by {
        assert(x[2 * i] == hex_text(a)[2 * i]);
        assert(y[2 * i] == hex_text(b)[2 * i]);
        assert(x[2 * i + 1] == hex_text(a)[2 * i + 1]);
        assert(y[2 * i + 1] == hex_text(b)[2 * i + 1]);
        lemma_hex_digit_injective(a[i] as nat / 16, b[i] as nat / 16);
        lemma_hex_digit_injective(a[i] as nat % 16, b[i] as nat % 16);
    }
    assert(a =~= b);
}

} // verus!
