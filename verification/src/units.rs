//! Token amounts in text, as `alloy_primitives` reads them.

use crate::u256::U256;
use vstd::prelude::*;
use vstd::utf8::encode_utf8;

verus! {

/// The decimals of an ether amount.
pub const ETHER_DECIMALS: u8 = 18;

/// Where the first decimal point of an amount stands, its length where it has none.
pub open spec fn point_index(amount: Seq<char>) -> int
    decreases amount.len(),
{
    if amount.len() == 0 || amount[0] == '.' {
        0
    } else {
        1 + point_index(amount.drop_first())
    }
}

/// What follows the first decimal point of an amount.
pub open spec fn fraction(amount: Seq<char>) -> Seq<char> {
    if point_index(amount) < amount.len() {
        amount.skip(point_index(amount) + 1)
    } else {
        seq![]
    }
}

/// The length of a text in UTF-8.
pub open spec fn byte_len(text: Seq<char>) -> nat {
    encode_utf8(text).len()
}

/// Whether a text is made of ASCII characters.
pub open spec fn is_ascii(text: Seq<char>) -> bool {
    forall|i: int| 0 <= i < text.len() ==> #[trigger] text[i] as u32 <= 0x7f
}

/// Whether the fraction of an amount is no longer than `decimals` bytes, or has a prefix of whole
/// characters that is just as long.
pub open spec fn cuts_between_characters(amount: Seq<char>, decimals: nat) -> bool {
    byte_len(fraction(amount)) > decimals ==> exists|n: int|
        0 <= n <= fraction(amount).len() && #[trigger] byte_len(fraction(amount).take(n))
            == decimals
}

/// Whether cutting the fraction of an amount to `decimals` bytes leaves every character whole. It
/// does for every amount in ASCII, whatever its length.
pub open spec fn cut_is_whole(amount: Seq<char>, decimals: nat) -> bool {
    is_ascii(amount) || cuts_between_characters(amount, decimals)
}

/// What `alloy_primitives::utils::parse_ether` reads from an amount: the number of wei, or the
/// message of its error.
pub uninterp spec fn parsed_ether(amount: Seq<char>) -> Result<nat, Seq<char>>;

/// What `alloy_primitives::utils::parse_units` reads from an amount with a number of decimals:
/// the number of smallest units, or the message of its error.
pub uninterp spec fn parsed_units(amount: Seq<char>, decimals: u8) -> Result<nat, Seq<char>>;

/// What a parsed amount says: its number, or the message of the error.
pub open spec fn amount_view(parsed: Result<U256, String>) -> Result<nat, Seq<char>> {
    match parsed {
        Ok(amount) => Ok(amount@),
        Err(message) => Err(message@),
    }
}

/// `alloy_primitives::utils::parse_ether`. It cuts the fraction to eighteen bytes, and panics
/// where that falls inside a character.
#[verifier::external_body]
pub(crate) fn parse_ether(amount: &str) -> (r: Result<U256, String>)
    requires
        cut_is_whole(amount@, ETHER_DECIMALS as nat),
    ensures
        amount_view(r) == parsed_ether(amount@),
{
    match alloy_primitives::utils::parse_ether(amount) {
        Ok(wei) => {
            let [limb0, limb1, limb2, limb3] = wei.into_limbs();
            Ok(U256 { limb0, limb1, limb2, limb3 })
        },
        Err(error) => Err(error.to_string()),
    }
}

/// `alloy_primitives::utils::parse_units`, with the result taken as an unsigned number. It cuts
/// the fraction to as many bytes as there are decimals, and panics where that falls inside a
/// character.
#[verifier::external_body]
pub(crate) fn parse_units(amount: &str, decimals: u8) -> (r: Result<U256, String>)
    requires
        cut_is_whole(amount@, decimals as nat),
    ensures
        amount_view(r) == parsed_units(amount@, decimals),
{
    match alloy_primitives::utils::parse_units(amount, decimals) {
        Ok(units) => {
            let amount: alloy_primitives::U256 = units.into();
            let [limb0, limb1, limb2, limb3] = amount.into_limbs();
            Ok(U256 { limb0, limb1, limb2, limb3 })
        },
        Err(error) => Err(error.to_string()),
    }
}

proof fn lemma_byte_len_push(text: Seq<char>, c: char)
    ensures
        byte_len(text.push(c)) == byte_len(text) + byte_len(seq![c]),
    decreases text.len(),
{
    if text.len() == 0 {
        assert(text.push(c) =~= seq![c]);
    } else {
        assert(text.push(c).drop_first() =~= text.drop_first().push(c));
        lemma_byte_len_push(text.drop_first(), c);
    }
}

proof fn lemma_byte_len_grows(text: Seq<char>, n: int, m: int)
    requires
        0 <= n <= m <= text.len(),
    ensures
        byte_len(text.take(n)) <= byte_len(text.take(m)),
    decreases m - n,
{
    if n < m {
        lemma_byte_len_grows(text, n, m - 1);
        assert(text.take(m) =~= text.take(m - 1).push(text[m - 1]));
        lemma_byte_len_push(text.take(m - 1), text[m - 1]);
    }
}

proof fn lemma_ascii_byte_len(text: Seq<char>)
    requires
        is_ascii(text),
    ensures
        byte_len(text) == text.len(),
    decreases text.len(),
{
    if text.len() > 0 {
        assert(text[0] as u32 <= 0x7f);
        assert forall|i: int| 0 <= i < text.len() - 1 implies #[trigger] text.drop_first()[i]
            as u32 <= 0x7f by {
            assert(text.drop_first()[i] == text[i + 1]);
        }
        lemma_ascii_byte_len(text.drop_first());
    }
}

/// An amount in ASCII can be cut between two characters to any number of decimals.
pub proof fn law_ascii_amount_cuts_between_characters(amount: Seq<char>, decimals: nat)
    requires
        is_ascii(amount),
    ensures
        cuts_between_characters(amount, decimals),
{
    lemma_point_bounds(amount);
    let rest = fraction(amount);
    assert(is_ascii(rest)) by {
        assert forall|i: int| 0 <= i < rest.len() implies #[trigger] rest[i] as u32 <= 0x7f by {
            assert(rest[i] == amount[point_index(amount) + 1 + i]);
        }
    }
    lemma_ascii_byte_len(rest);
    if rest.len() > decimals {
        let cut = rest.take(decimals as int);
        assert(is_ascii(cut)) by {
            assert forall|i: int| 0 <= i < cut.len() implies #[trigger] cut[i] as u32 <= 0x7f by {
                assert(cut[i] == rest[i]);
            }
        }
        lemma_ascii_byte_len(cut);
    }
}

fn char_bytes(c: char) -> (r: usize)
    ensures
        r == byte_len(seq![c]),
        1 <= r <= 4,
{
    proof {
        assert(seq![c].drop_first() =~= Seq::<char>::empty());
        reveal_with_fuel(encode_utf8, 2);
    }
    let code = c as u32;
    if code <= 0x7f {
        1
    } else if code <= 0x7ff {
        2
    } else if code <= 0xffff {
        3
    } else {
        4
    }
}

proof fn lemma_point_bounds(amount: Seq<char>)
    ensures
        0 <= point_index(amount) <= amount.len(),
    decreases amount.len(),
{
    if amount.len() > 0 && amount[0] != '.' {
        lemma_point_bounds(amount.drop_first());
    }
}

proof fn lemma_point_index(amount: Seq<char>, i: int)
    requires
        0 <= i <= amount.len(),
        forall|j: int| 0 <= j < i ==> #[trigger] amount[j] != '.',
        i == amount.len() || amount[i] == '.',
    ensures
        point_index(amount) == i,
    decreases amount.len(),
{
    if i > 0 {
        assert(amount[0] != '.');
        assert forall|j: int| 0 <= j < i - 1 implies #[trigger] amount.drop_first()[j] != '.' by {
            assert(amount.drop_first()[j] == amount[j + 1]);
        }
        lemma_point_index(amount.drop_first(), i - 1);
    }
}

/// Tests whether an amount's fraction can be cut to `decimals` bytes between two characters.
pub fn can_cut(amount: &str, decimals: u8) -> (r: bool)
    ensures
        r == cut_is_whole(amount@, decimals as nat),
{
    proof {
        if is_ascii(amount@) {
            law_ascii_amount_cuts_between_characters(amount@, decimals as nat);
        }
    }
    let len = amount.unicode_len();
    let mut point: usize = 0;
    while point < len && amount.get_char(point) != '.'
        invariant
            point <= len,
            len == amount@.len(),
            forall|j: int| 0 <= j < point ==> #[trigger] amount@[j] != '.',
        decreases len - point,
    {
        point += 1;
    }
    proof {
        lemma_point_index(amount@, point as int);
    }
    if point == len {
        return true;
    }
    let ghost rest = fraction(amount@);
    let start: usize = point + 1;
    let mut taken: usize = 0;
    let mut i: usize = start;
    assert(rest.take(0) =~= Seq::<char>::empty());
    while i < len && taken < decimals as usize
        invariant
            start <= i <= len,
            len == amount@.len(),
            rest == amount@.skip(start as int),
            taken == byte_len(rest.take(i - start)),
            taken <= decimals + 3,
            forall|n: int| 0 <= n < i - start ==> #[trigger] byte_len(rest.take(n)) < decimals,
        decreases len - i,
    {
        let c = amount.get_char(i);
        assert(rest[i - start] == c);
        proof {
            assert(rest.take(i - start + 1) =~= rest.take(i - start).push(c));
            lemma_byte_len_push(rest.take(i - start), c);
        }
        taken += char_bytes(c);
        i += 1;
    }
    proof {
        let n = i - start;
        assert(rest.take(rest.len() as int) =~= rest);
        lemma_byte_len_grows(rest, n, rest.len() as int);
        assert forall|m: int| n <= m <= rest.len() implies #[trigger] byte_len(rest.take(m))
            >= taken by {
            lemma_byte_len_grows(rest, n, m);
        }
    }
    taken <= decimals as usize
}

} // verus!
