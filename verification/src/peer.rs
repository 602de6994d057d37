//! Peer identifiers.
//!
//! A peer is known by a UUID, held here as the 128-bit number that its bytes
//! denote, most significant byte first.
use vstd::prelude::*;

use crate::wire::span;

verus! {

/// Unique ID for a connected peer.
pub type PeerId = u128;

/// The hexadecimal digit that stands for `value`.
pub open spec fn digit_char(value: nat) -> char
    recommends
        value < 16,
{
    if value < 10 {
        (value + 0x30) as char
    } else {
        (value + 0x57) as char
    }
}

/// The value of a hexadecimal digit, which may be in either case.
pub open spec fn digit_value(c: char) -> Option<nat> {
    if '0' <= c <= '9' {
        Some((c as int - 0x30) as nat)
    } else if 'a' <= c <= 'f' {
        Some((c as int - 0x57) as nat)
    } else if 'A' <= c <= 'F' {
        Some((c as int - 0x37) as nat)
    } else {
        None
    }
}

/// The `count` low hexadecimal digits of `value`, in lower case.
pub open spec fn hex_text(value: nat, count: nat) -> Seq<char>
    decreases count,
{
    if count == 0 {
        Seq::empty()
    } else {
        hex_text(value / 16, (count - 1) as nat).push(digit_char(value % 16))
    }
}

/// The number that hexadecimal digits denote, if all characters are such digits.
pub open spec fn hex_value(text: Seq<char>) -> Option<nat>
    decreases text.len(),
{
    if text.len() == 0 {
        Some(0)
    } else {
        match (hex_value(text.drop_last()), digit_value(text.last())) {
            (Some(high), Some(low)) => Some(16 * high + low),
            _ => None,
        }
    }
}

/// 32 characters in groups of 8, 4, 4, 4 and 12, with hyphens between them.
pub open spec fn hyphenated(digits: Seq<char>) -> Seq<char> {
    digits.subrange(0, 8) + seq!['-'] + digits.subrange(8, 12) + seq!['-'] + digits.subrange(12, 16)
        + seq!['-'] + digits.subrange(16, 20) + seq!['-'] + digits.subrange(20, 32)
}

/// The text of a peer's identifier: 32 digits, hyphenated.
pub open spec fn id_text(id: PeerId) -> Seq<char> {
    hyphenated(hex_text(id as nat, 32))
}

/// The identifier that a hyphenated text denotes.
pub open spec fn hyphenated_id(text: Seq<char>) -> Option<nat> {
    if text.len() == 36 && text[8] == '-' && text[13] == '-' && text[18] == '-' && text[23] == '-' {
        hex_value(
            text.subrange(0, 8) + text.subrange(9, 13) + text.subrange(14, 18) + text.subrange(
                19,
                23,
            ) + text.subrange(24, 36),
        )
    } else {
        None
    }
}

/// Whether `text` is `urn:uuid:`, in any case of its letters.
pub open spec fn is_urn_prefix(text: Seq<char>) -> bool {
    &&& text.len() == 9
    &&& text[0] == 'u' || text[0] == 'U'
    &&& text[1] == 'r' || text[1] == 'R'
    &&& text[2] == 'n' || text[2] == 'N'
    &&& text[3] == ':'
    &&& text[4] == 'u' || text[4] == 'U'
    &&& text[5] == 'u' || text[5] == 'U'
    &&& text[6] == 'i' || text[6] == 'I'
    &&& text[7] == 'd' || text[7] == 'D'
    &&& text[8] == ':'
}

/// The identifier that a text denotes. Four forms are known: 32 digits; the
/// same hyphenated; hyphenated in braces; hyphenated behind `urn:uuid:`.
pub open spec fn id_of(text: Seq<char>) -> Option<nat> {
    if text.len() == 32 {
        hex_value(text)
    } else if text.len() == 36 {
        hyphenated_id(text)
    } else if text.len() == 38 && text[0] == '{' && text[37] == '}' {
        hyphenated_id(text.subrange(1, 37))
    } else if text.len() == 45 && is_urn_prefix(text.subrange(0, 9)) {
        hyphenated_id(text.subrange(9, 45))
    } else {
        None
    }
}

/// Whether an identifier has the form of a random UUID: version 4 in the
/// thirteenth digit, variant 8, 9, a or b in the seventeenth.
pub open spec fn is_random_id(id: PeerId) -> bool {
    &&& id as nat / span(9) / 16 % 16 == 4
    &&& id as nat / span(7) / 16 / 4 % 4 == 2
}

/// `uuid::Uuid::parse_str`, which reads the four known forms and nothing else.
#[verifier::external_body]
pub(crate) fn parse_id(text: &str) -> (res: Option<PeerId>)
    ensures
        match res {
            Some(id) => id_of(text@) == Some(id as nat),
            None => id_of(text@) is None,
        },
{
    uuid::Uuid::parse_str(text).ok().map(|id| id.as_u128())
}

/// `to_string` on a `uuid::Uuid`, which writes the hyphenated form in lower case.
#[verifier::external_body]
pub(crate) fn format_id(id: PeerId) -> (text: String)
    ensures
        text@ == id_text(id),
{
    uuid::Uuid::from_u128(id).to_string()
}

/// `uuid::Uuid::new_v4`. The bits that tell a random UUID are fixed; nothing
/// else is promised of the result. The call panics if the operating system's
/// source of random numbers fails, which depends on no input.
#[verifier::external_body]
pub(crate) fn random_id() -> (id: PeerId)
    ensures
        is_random_id(id),
{
    uuid::Uuid::new_v4().as_u128()
}

/// Every digit is read back.
proof fn lemma_digit(value: nat)
    requires
        value < 16,
    ensures
        digit_value(digit_char(value)) == Some(value),
        digit_char(value) != '-',
{
}

/// Hexadecimal digits are read back as the number they were written from.
proof fn lemma_hex_roundtrip(value: nat, count: nat)
    requires
        value < vstd::arithmetic::power::pow(16, count),
    ensures
        hex_text(value, count).len() == count,
        hex_value(hex_text(value, count)) == Some(value),
    decreases count,
{
    vstd::arithmetic::power::lemma_pow0(16);
    if count > 0 {
        let less = (count - 1) as nat;
        assert(vstd::arithmetic::power::pow(16, count) == 16 * vstd::arithmetic::power::pow(16, less)) by {
            reveal(vstd::arithmetic::power::pow);
        }
        lemma_hex_roundtrip(value / 16, less);
        lemma_digit(value % 16);
        assert(hex_text(value, count).drop_last() =~= hex_text(value / 16, less));
    }
}

/// The text of an identifier is read back as that identifier.
pub proof fn law_id_text_is_read_back(id: PeerId)
    ensures
        id_of(id_text(id)) == Some(id as nat),
{
    let digits = hex_text(id as nat, 32);
    assert(vstd::arithmetic::power::pow(16, 32) == 0x1_0000_0000_0000_0000_0000_0000_0000_0000) by {
        reveal_with_fuel(vstd::arithmetic::power::pow, 33);
    }
    lemma_hex_roundtrip(id as nat, 32);
    let text = hyphenated(digits);
    assert(text.subrange(0, 8) + text.subrange(9, 13) + text.subrange(14, 18) + text.subrange(19, 23)
        + text.subrange(24, 36) =~= digits);
}

} // verus!
