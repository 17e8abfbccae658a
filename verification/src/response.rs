//! The proof of a fulfilled request, as bytes.

use crate::types::text_view;
use crate::types::Risc0Response;
use vstd::prelude::*;
use vstd::utf8::{decode_utf8, encode_utf8, encode_utf8_decode_utf8};

verus! {

/// A number in a fixed count of bytes, the least significant first.
pub open spec fn le_bytes(n: nat, count: nat) -> Seq<u8>
    decreases count,
{
    if count == 0 {
        seq![]
    } else {
        seq![(n % 256) as u8] + le_bytes(n / 256, (count - 1) as nat)
    }
}

/// Bytes after their count in eight bytes.
pub open spec fn counted(bytes: Seq<u8>) -> Seq<u8> {
    le_bytes(bytes.len(), 8) + bytes
}

/// A seal, a journal and an optional receipt as bytes: the seal and the journal after their
/// counts, then a zero where there is no receipt, or a one and the receipt's counted UTF-8.
pub open spec fn response_bytes(
    seal: Seq<u8>,
    journal: Seq<u8>,
    receipt: Option<Seq<char>>,
) -> Seq<u8> {
    counted(seal) + counted(journal) + match receipt {
        None => seq![0u8],
        Some(text) => seq![1u8] + counted(encode_utf8(text)),
    }
}

/// `bincode::serialize` on the three parts of a response: integers take a fixed width, the least
/// significant byte first, and there is no limit on the size. With such parts it never fails.
#[verifier::external_body]
pub(crate) fn encode_response(response: &Risc0Response) -> (r: Result<Vec<u8>, String>)
    ensures
        match r {
            Ok(bytes) => bytes@ == response_bytes(
                response.seal@,
                response.journal@,
                text_view(response.receipt),
            ),
            Err(_) => false,
        },
{
    match bincode::serialize(&(&response.seal, &response.journal, &response.receipt)) {
        Ok(bytes) => Ok(bytes),
        Err(error) => Err(error.to_string()),
    }
}

/// The number that some bytes stand for, the least significant first.
pub open spec fn le_value(bytes: Seq<u8>) -> nat
    decreases bytes.len(),
{
    if bytes.len() == 0 {
        0
    } else {
        bytes[0] as nat + 256 * le_value(bytes.drop_first())
    }
}

/// The bytes behind a count in eight bytes, and what follows them, where there are enough.
pub open spec fn read_counted(bytes: Seq<u8>) -> Option<(Seq<u8>, Seq<u8>)> {
    if bytes.len() >= 8 && 8 + le_value(bytes.take(8)) <= bytes.len() {
        let end = 8 + le_value(bytes.take(8)) as int;
        Some((bytes.subrange(8, end), bytes.skip(end)))
    } else {
        None
    }
}

/// What a reader makes of a response's bytes: the seal, the journal and the receipt.
pub open spec fn read_response(bytes: Seq<u8>) -> Option<
    (Seq<u8>, Seq<u8>, Option<Seq<char>>),
> {
    match read_counted(bytes) {
        None => None,
        Some((seal, behind_seal)) => match read_counted(behind_seal) {
            None => None,
            Some((journal, end)) => if end == seq![0u8] {
                Some((seal, journal, None))
            } else if end.len() > 0 && end[0] == 1 {
                match read_counted(end.skip(1)) {
                    Some((text, rest)) if rest.len() == 0 => Some(
                        (seal, journal, Some(decode_utf8(text))),
                    ),
                    _ => None,
                }
            } else {
                None
            },
        },
    }
}

proof fn lemma_le_bytes_len(n: nat, count: nat)
    ensures
        le_bytes(n, count).len() == count,
    decreases count,
{
    if count > 0 {
        lemma_le_bytes_len(n / 256, (count - 1) as nat);
    }
}

proof fn lemma_le_bytes_injective(a: nat, b: nat, count: nat)
    requires
        le_bytes(a, count) == le_bytes(b, count),
        a < vstd::arithmetic::power::pow(256, count),
        b < vstd::arithmetic::power::pow(256, count),
    ensures
        a == b,
    decreases count,
{
    reveal(vstd::arithmetic::power::pow);
    if count > 0 {
        let less = (count - 1) as nat;
        lemma_le_bytes_len(a / 256, less);
        lemma_le_bytes_len(b / 256, less);
        let x = le_bytes(a, count);
        let y = le_bytes(b, count);
        assert(x[0] == (a % 256) as u8);
        assert(y[0] == (b % 256) as u8);
        assert(x.skip(1) =~= le_bytes(a / 256, less));
        assert(y.skip(1) =~= le_bytes(b / 256, less));
        let bound = vstd::arithmetic::power::pow(256, less);
        assert(vstd::arithmetic::power::pow(256, count) == 256 * bound);
        lemma_le_bytes_injective(a / 256, b / 256, less);
    }
}

proof fn lemma_le_bytes_value(n: nat, count: nat)
    requires
        n < vstd::arithmetic::power::pow(256, count),
    ensures
        le_value(le_bytes(n, count)) == n,
    decreases count,
{
    reveal(vstd::arithmetic::power::pow);
    if count > 0 {
        let less = (count - 1) as nat;
        let bound = vstd::arithmetic::power::pow(256, less);
        assert(vstd::arithmetic::power::pow(256, count) == 256 * bound);
        lemma_le_bytes_value(n / 256, less);
        assert(le_bytes(n, count).drop_first() =~= le_bytes(n / 256, less));
        assert(le_bytes(n, count)[0] == (n % 256) as u8);
    }
}

proof fn lemma_counted_reads_back(bytes: Seq<u8>, rest: Seq<u8>)
    requires
        bytes.len() <= u64::MAX,
    ensures
        read_counted(counted(bytes) + rest) == Some((bytes, rest)),
{
    let all = counted(bytes) + rest;
    lemma_le_bytes_len(bytes.len(), 8);
    assert(vstd::arithmetic::power::pow(256, 8) == 0x1_0000_0000_0000_0000) by {
        reveal_with_fuel(vstd::arithmetic::power::pow, 9);
    }
    lemma_le_bytes_value(bytes.len(), 8);
    assert(all.take(8) =~= le_bytes(bytes.len(), 8));
    assert(all.subrange(8, 8 + bytes.len() as int) =~= bytes);
    assert(all.skip(8 + bytes.len() as int) =~= rest);
}

/// Reading the bytes of a response gives back its seal, its journal and its receipt.
pub proof fn law_response_reads_back(
    seal: Seq<u8>,
    journal: Seq<u8>,
    receipt: Option<Seq<char>>,
)
    requires
        seal.len() <= u64::MAX,
        journal.len() <= u64::MAX,
        receipt matches Some(text) ==> encode_utf8(text).len() <= u64::MAX,
    ensures
        read_response(response_bytes(seal, journal, receipt)) == Some((seal, journal, receipt)),
{
    let end = match receipt {
        None => seq![0u8],
        Some(text) => seq![1u8] + counted(encode_utf8(text)),
    };
    let bytes = response_bytes(seal, journal, receipt);
    assert(bytes =~= counted(seal) + (counted(journal) + end));
    lemma_counted_reads_back(seal, counted(journal) + end);
    lemma_counted_reads_back(journal, end);
    if let Some(text) = receipt {
        assert(end[0] == 1);
        assert(end.skip(1) =~= counted(encode_utf8(text)) + seq![]);
        lemma_counted_reads_back(encode_utf8(text), seq![]);
        encode_utf8_decode_utf8(text);
    }
}

proof fn lemma_counted_prefix(a: Seq<u8>, b: Seq<u8>, x: Seq<u8>, y: Seq<u8>)
    requires
        counted(a) + x == counted(b) + y,
        a.len() <= u64::MAX,
        b.len() <= u64::MAX,
    ensures
        a == b,
        x == y,
{
    let left = counted(a) + x;
    let right = counted(b) + y;
    lemma_le_bytes_len(a.len(), 8);
    lemma_le_bytes_len(b.len(), 8);
    assert(left.take(8) =~= le_bytes(a.len(), 8));
    assert(right.take(8) =~= le_bytes(b.len(), 8));
    assert(vstd::arithmetic::power::pow(256, 8) == 0x1_0000_0000_0000_0000) by {
        reveal_with_fuel(vstd::arithmetic::power::pow, 9);
    }
    lemma_le_bytes_injective(a.len(), b.len(), 8);
    assert(left.subrange(8, 8 + a.len() as int) =~= a);
    assert(right.subrange(8, 8 + b.len() as int) =~= b);
    assert(left.skip(8 + a.len() as int) =~= x);
    assert(right.skip(8 + b.len() as int) =~= y);
}

/// A response can be read back from its bytes: different responses have different bytes.
pub proof fn law_response_bytes_tell_the_response(
    seal: Seq<u8>,
    journal: Seq<u8>,
    receipt: Option<Seq<char>>,
    other_seal: Seq<u8>,
    other_journal: Seq<u8>,
    other_receipt: Option<Seq<char>>,
)
    requires
        seal.len() <= u64::MAX,
        journal.len() <= u64::MAX,
        receipt matches Some(text) ==> encode_utf8(text).len() <= u64::MAX,
        other_seal.len() <= u64::MAX,
        other_journal.len() <= u64::MAX,
        other_receipt matches Some(text) ==> encode_utf8(text).len() <= u64::MAX,
        response_bytes(seal, journal, receipt) == response_bytes(
            other_seal,
            other_journal,
            other_receipt,
        ),
    ensures
        seal == other_seal,
        journal == other_journal,
        receipt == other_receipt,
{
    let end = match receipt {
        None => seq![0u8],
        Some(text) => seq![1u8] + counted(encode_utf8(text)),
    };
    let other_end = match other_receipt {
        None => seq![0u8],
        Some(text) => seq![1u8] + counted(encode_utf8(text)),
    };
    assert(response_bytes(seal, journal, receipt) =~= counted(seal) + (counted(journal) + end));
    assert(response_bytes(other_seal, other_journal, other_receipt) =~= counted(other_seal) + (
    counted(other_journal) + other_end));
    lemma_counted_prefix(seal, other_seal, counted(journal) + end, counted(other_journal) + other_end);
    lemma_counted_prefix(journal, other_journal, end, other_end);
    assert(end[0] == other_end[0]);
    if let (Some(text), Some(other_text)) = (receipt, other_receipt) {
        let a = encode_utf8(text);
        let b = encode_utf8(other_text);
        assert(end.skip(1) =~= counted(a) + seq![]);
        assert(other_end.skip(1) =~= counted(b) + seq![]);
        lemma_counted_prefix(a, b, seq![], seq![]);
        encode_utf8_decode_utf8(text);
        encode_utf8_decode_utf8(other_text);
    }
}

} // verus!
