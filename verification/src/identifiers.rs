//! Identifiers of subscriptions and confirmation tokens: 128-bit values
//! that are drawn at random and written as hyphenated text.

use vstd::prelude::*;

verus! {

/// Sixteen to the power `n`.
pub open spec fn pow16(n: nat) -> nat
    decreases n,
{
    if n == 0 {
        1
    } else {
        16 * pow16((n - 1) as nat)
    }
}

/// The hexadecimal digit of `id` at place `k`, counted from the left of its
/// thirty-two digits, in lower case.
pub open spec fn hex_at(id: u128, k: int) -> char {
    "0123456789abcdef"@[(id as int / pow16((31 - k) as nat) as int) % 16]
}

/// How many hyphens stand before place `i` of a hyphenated identifier.
pub open spec fn hyphens_before(i: int) -> int {
    if i > 23 {
        4
    } else if i > 18 {
        3
    } else if i > 13 {
        2
    } else if i > 8 {
        1
    } else {
        0
    }
}

/// An identifier as text: its thirty-two hexadecimal digits in lower case,
/// in groups of 8, 4, 4, 4 and 12 with a hyphen between two groups.
pub open spec fn hyphenated(id: u128) -> Seq<char> {
    Seq::new(
        36,
        |i: int|
            if i == 8 || i == 13 || i == 18 || i == 23 {
                '-'
            } else {
                hex_at(id, i - hyphens_before(i))
            },
    )
}

/// Whether `id` carries the marks of a random identifier: version 4 in bits
/// 76 to 79, and the variant `10` in bits 62 and 63.
pub open spec fn is_random_identifier(id: u128) -> bool {
    &&& (id as int / 0x1_0000_0000_0000_0000_000) % 16 == 4
    &&& (id as int / 0x4000_0000_0000_0000) % 4 == 2
}

/// The identifier that a text denotes, if it is written in one of the forms
/// that identifiers are read in: thirty-two hexadecimal digits, the
/// hyphenated form, that form in braces, or that form after `urn:uuid:`.
pub uninterp spec fn parsed_identifier(text: Seq<char>) -> Option<u128>;

/// Draws a fresh identifier with `uuid::Uuid::new_v4`. Which one comes out
/// is left to chance; the version and variant marks are believed to be set,
/// as that function's source sets them. `uuid` gives up where the system
/// has no random bytes to offer.
#[verifier::external_body]
pub(crate) fn random_identifier() -> (id: u128)
    ensures
        is_random_identifier(id),
{
    uuid::Uuid::new_v4().as_u128()
}

/// Writes `id` as text with `uuid::Uuid`'s `Display`, which is believed to
/// give the hyphenated lower-case form.
#[verifier::external_body]
pub(crate) fn identifier_text(id: u128) -> (text: String)
    ensures
        text@ == hyphenated(id),
{
    uuid::Uuid::from_u128(id).to_string()
}

/// Reads an identifier with `uuid::Uuid::parse_str`. The answer depends on
/// the text alone; it is believed to be `parsed_identifier` of it.
#[verifier::external_body]
pub(crate) fn parse_identifier(text: &str) -> (parsed: Option<u128>)
    ensures
        parsed == parsed_identifier(text@),
{
    match uuid::Uuid::parse_str(text) {
        Ok(id) => Some(id.as_u128()),
        Err(_) => None,
    }
}

/// Sixteen to the power `n` is positive, and the next power is sixteen
/// times as much.
proof fn lemma_pow16(n: nat)
    ensures
        pow16(n) > 0,
        pow16(n + 1) == 16 * pow16(n),
    decreases n,
{
    if n > 0 {
        lemma_pow16((n - 1) as nat);
    }
}

/// The identifier `id` without its last `32 - k` hexadecimal digits.
spec fn leading_digits(id: u128, k: nat) -> int {
    id as int / pow16((32 - k) as nat) as int
}

/// Two identifiers whose hexadecimal digits agree at every place agree in
/// their first `k` digits.
proof fn lemma_leading_digits_agree(a: u128, b: u128, k: nat)
    requires
        k <= 32,
        pow16(32) == 0x1_0000_0000_0000_0000_0000_0000_0000_0000,
        forall|j: int| 0 <= j < 32 ==> hex_at(a, j) == hex_at(b, j),
    ensures
        leading_digits(a, k) == leading_digits(b, k),
    decreases k,
{
    if k == 0 {
        vstd::arithmetic::div_mod::lemma_basic_div(a as int, pow16(32) as int);
        vstd::arithmetic::div_mod::lemma_basic_div(b as int, pow16(32) as int);
    } else {
        let shorter = (k - 1) as nat;
        lemma_leading_digits_agree(a, b, shorter);
        let unit = pow16((32 - k) as nat) as int;
        lemma_pow16((32 - k) as nat);
        assert(pow16((32 - shorter) as nat) == 16 * unit);
        let x = leading_digits(a, k);
        let y = leading_digits(b, k);
        assert(x / 16 == leading_digits(a, shorter)) by {
            vstd::arithmetic::div_mod::lemma_div_denominator(a as int, unit, 16);
            assert(unit * 16 == 16 * unit);
        }
        assert(y / 16 == leading_digits(b, shorter)) by {
            vstd::arithmetic::div_mod::lemma_div_denominator(b as int, unit, 16);
            assert(unit * 16 == 16 * unit);
        }
        assert(x % 16 == y % 16) by {
            lemma_hex_digits_differ();
            assert(hex_at(a, k - 1) == hex_at(b, k - 1));
            assert((31 - (k - 1)) as nat == (32 - k) as nat);
        }
        vstd::arithmetic::div_mod::lemma_fundamental_div_mod(x, 16);
        vstd::arithmetic::div_mod::lemma_fundamental_div_mod(y, 16);
    }
}

/// The sixteen hexadecimal digits are sixteen different characters.
proof fn lemma_hex_digits_differ()
    ensures
        forall|x: int, y: int|
            0 <= x < 16 && 0 <= y < 16 && #[trigger] "0123456789abcdef"@[x]
                == #[trigger] "0123456789abcdef"@[y] ==> x == y,
        forall|x: int| 0 <= x < 16 ==> #[trigger] "0123456789abcdef"@[x] != '-',
{
    reveal_strlit("0123456789abcdef");
}

/// Different identifiers are written differently.
pub proof fn lemma_hyphenated_is_injective(a: u128, b: u128)
    requires
        hyphenated(a) == hyphenated(b),
    ensures
        a == b,
{
    assert(pow16(32) == 0x1_0000_0000_0000_0000_0000_0000_0000_0000) by {
        reveal_with_fuel(pow16, 33);
    }
    assert forall|j: int| 0 <= j < 32 implies hex_at(a, j) == hex_at(b, j) by {
        let place = if j < 8 {
            j
        } else if j < 12 {
            j + 1
        } else if j < 16 {
            j + 2
        } else if j < 20 {
            j + 3
        } else {
            j + 4
        };
        assert(hyphenated(a)[place] == hex_at(a, j));
        assert(hyphenated(b)[place] == hex_at(b, j));
    }
    lemma_leading_digits_agree(a, b, 32);
    assert(leading_digits(a, 32) == a && leading_digits(b, 32) == b) by {
        reveal_with_fuel(pow16, 1);
        assert(pow16((32 - 32) as nat) == 1);
    }
}

} // verus!
