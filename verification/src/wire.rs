//! Fixed-width integers as sequences of bytes.
use vstd::prelude::*;

verus! {

/// The `width` low bytes of `value`, least significant byte first.
pub open spec fn le_bytes(value: nat, width: nat) -> Seq<u8>
    decreases width,
{
    if width == 0 {
        Seq::empty()
    } else {
        seq![(value % 256) as u8] + le_bytes(value / 256, (width - 1) as nat)
    }
}

/// The number that `bytes` denotes, least significant byte first.
pub open spec fn le_value(bytes: Seq<u8>) -> nat
    decreases bytes.len(),
{
    if bytes.len() == 0 {
        0
    } else {
        bytes[0] as nat + 256 * le_value(bytes.drop_first())
    }
}

/// The `width` low bytes of `value`, most significant byte first.
pub open spec fn be_bytes(value: nat, width: nat) -> Seq<u8>
    decreases width,
{
    if width == 0 {
        Seq::empty()
    } else {
        be_bytes(value / 256, (width - 1) as nat).push((value % 256) as u8)
    }
}

/// The number that `bytes` denotes, most significant byte first.
pub open spec fn be_value(bytes: Seq<u8>) -> nat
    decreases bytes.len(),
{
    if bytes.len() == 0 {
        0
    } else {
        256 * be_value(bytes.drop_last()) + bytes.last() as nat
    }
}

/// How many values `width` bytes can hold.
pub open spec fn span(width: nat) -> nat
    decreases width,
{
    if width == 0 {
        1
    } else {
        256 * span((width - 1) as nat)
    }
}

/// A signed 16-bit number as the unsigned number with the same bits.
pub open spec fn unsigned16(value: i16) -> nat {
    if value >= 0 {
        value as nat
    } else {
        (value + 0x1_0000) as nat
    }
}

/// The signed 16-bit number with the bits of `value`.
pub open spec fn signed16(value: nat) -> i16
    recommends
        value < 0x1_0000,
{
    if value < 0x8000 {
        value as i16
    } else {
        (value - 0x1_0000) as i16
    }
}

/// The signed 16-bit number in the low bits of `value`.
pub open spec fn low_signed16(value: int) -> i16 {
    signed16((value % 0x1_0000) as nat)
}

/// The unsigned 16-bit number in the low bits of `value`.
pub open spec fn low_unsigned16(value: int) -> u16 {
    (value % 0x1_0000) as u16
}

/// The byte in the low bits of `value`.
pub open spec fn low_byte(value: int) -> u8 {
    (value % 0x100) as u8
}

/// The unsigned 16-bit number in the low bits of `value`.
pub fn to_low_unsigned16(value: i64) -> (res: u16)
    ensures
        res == low_unsigned16(value as int),
{
    if value >= 0 {
        (value % 0x1_0000) as u16
    } else {
        (0xffff - (-(value + 1)) % 0x1_0000) as u16
    }
}

/// The signed 16-bit number in the low bits of `value`.
pub fn to_low_signed16(value: i64) -> (res: i16)
    ensures
        res == low_signed16(value as int),
{
    let low: i32 = to_low_unsigned16(value) as i32;
    if low < 0x8000 {
        low as i16
    } else {
        (low - 0x1_0000) as i16
    }
}

/// The byte in the low bits of `value`.
pub fn to_low_byte(value: i64) -> (res: u8)
    ensures
        res == low_byte(value as int),
{
    (to_low_unsigned16(value) % 0x100) as u8
}

/// Reading back what was written gives the number again.
pub proof fn lemma_le_roundtrip(value: nat, width: nat)
    requires
        value < span(width),
    ensures
        le_bytes(value, width).len() == width,
        le_value(le_bytes(value, width)) == value,
    decreases width,
{
    if width > 0 {
        lemma_le_roundtrip(value / 256, (width - 1) as nat);
        assert(le_bytes(value, width).drop_first() =~= le_bytes(
            value / 256,
            (width - 1) as nat,
        ));
    }
}

/// Reading back what was written gives the number again.
pub proof fn lemma_be_roundtrip(value: nat, width: nat)
    requires
        value < span(width),
    ensures
        be_bytes(value, width).len() == width,
        be_value(be_bytes(value, width)) == value,
    decreases width,
{
    if width > 0 {
        lemma_be_roundtrip(value / 256, (width - 1) as nat);
        assert(be_bytes(value, width).drop_last() =~= be_bytes(value / 256, (width - 1) as nat));
    }
}

/// The widths that the protocol uses.
pub proof fn lemma_spans()
    ensures
        span(1) == 0x100,
        span(2) == 0x1_0000,
        span(4) == 0x1_0000_0000,
        span(8) == 0x1_0000_0000_0000_0000,
{
    reveal_with_fuel(span, 9);
}

/// The bytes of a 32-bit number, most significant byte first.
pub fn u32_be(value: u32) -> (bytes: Vec<u8>)
    ensures
        bytes@ == be_bytes(value as nat, 4),
{
    let bytes: Vec<u8> = vec![
        (value / 0x100_0000) as u8,
        (value / 0x1_0000 % 0x100) as u8,
        (value / 0x100 % 0x100) as u8,
        (value % 0x100) as u8,
    ];
    proof {
        reveal_with_fuel(be_bytes, 5);
        let v = value as nat;
        assert(v / 256 / 256 == v / 0x1_0000);
        assert(v / 256 / 256 / 256 == v / 0x100_0000);
        assert(bytes@ =~= be_bytes(v, 4));
    }
    bytes
}

/// The 32-bit number at the start of `bytes`, most significant byte first.
pub fn be_u32(bytes: &[u8]) -> (value: u32)
    requires
        bytes@.len() >= 4,
    ensures
        value as nat == be_value(bytes@.take(4)),
{
    proof {
        reveal_with_fuel(be_value, 5);
        let head = bytes@.take(4);
        assert(head.drop_last() =~= bytes@.take(3));
        assert(bytes@.take(3).drop_last() =~= bytes@.take(2));
        assert(bytes@.take(2).drop_last() =~= bytes@.take(1));
        assert(bytes@.take(1).drop_last() =~= bytes@.take(0));
    }
    bytes[0] as u32 * 0x100_0000 + bytes[1] as u32 * 0x1_0000 + bytes[2] as u32 * 0x100
        + bytes[3] as u32
}

/// Narrowing a number keeps it up to a multiple of what the narrow type counts.
pub proof fn law_narrowing_keeps_low_bits(value: int)
    ensures
        (low_signed16(value) - value) % 0x1_0000 == 0,
        (low_unsigned16(value) - value) % 0x1_0000 == 0,
        (low_byte(value) - value) % 0x100 == 0,
        i16::MIN <= value <= i16::MAX ==> low_signed16(value) == value,
        0 <= value <= u16::MAX ==> low_unsigned16(value) == value,
        0 <= value <= u8::MAX ==> low_byte(value) == value,
{
}

/// The first four bytes as a number, least significant byte first.
pub open spec fn word_le(bytes: Seq<u8>) -> int {
    bytes[0] + 0x100 * bytes[1] + 0x1_0000 * bytes[2] + 0x100_0000 * bytes[3]
}

/// The first four bytes as a number, most significant byte first.
pub open spec fn word_be(bytes: Seq<u8>) -> int {
    0x100_0000 * bytes[0] + 0x1_0000 * bytes[1] + 0x100 * bytes[2] + bytes[3]
}

/// Bytes denote the number that each of them, times the weight of its place,
/// adds up to.
pub proof fn law_bytes_add_up(bytes: Seq<u8>)
    ensures
        bytes.len() == 1 ==> le_value(bytes) == bytes[0],
        bytes.len() == 2 ==> le_value(bytes) == bytes[0] + 0x100 * bytes[1],
        bytes.len() == 4 ==> le_value(bytes) == word_le(bytes),
        bytes.len() == 4 ==> be_value(bytes) == word_be(bytes),
        bytes.len() == 8 ==> le_value(bytes) == word_le(bytes) + 0x1_0000_0000 * word_le(
            bytes.skip(4),
        ),
{
    reveal_with_fuel(le_value, 9);
    assert(bytes.len() >= 1 ==> bytes.drop_first() =~= bytes.skip(1));
    assert(bytes.len() >= 2 ==> bytes.skip(1).drop_first() =~= bytes.skip(2));
    assert(bytes.len() >= 3 ==> bytes.skip(2).drop_first() =~= bytes.skip(3));
    assert(bytes.len() >= 4 ==> bytes.skip(3).drop_first() =~= bytes.skip(4));
    assert(bytes.len() >= 5 ==> bytes.skip(4).drop_first() =~= bytes.skip(5));
    assert(bytes.len() >= 6 ==> bytes.skip(5).drop_first() =~= bytes.skip(6));
    assert(bytes.len() >= 7 ==> bytes.skip(6).drop_first() =~= bytes.skip(7));
    assert(bytes.len() >= 8 ==> bytes.skip(7).drop_first() =~= bytes.skip(8));
    reveal_with_fuel(be_value, 5);
    if bytes.len() == 4 {
        assert(bytes.drop_last() =~= bytes.take(3));
        assert(bytes.take(3).drop_last() =~= bytes.take(2));
        assert(bytes.take(2).drop_last() =~= bytes.take(1));
        assert(bytes.take(1).drop_last() =~= bytes.take(0));
    }
}

/// Bytes come back from the number that they denote.
pub proof fn lemma_le_value_bytes(bytes: Seq<u8>)
    ensures
        le_value(bytes) < span(bytes.len()),
        le_bytes(le_value(bytes), bytes.len()) == bytes,
    decreases bytes.len(),
{
    if bytes.len() > 0 {
        let rest = bytes.drop_first();
        lemma_le_value_bytes(rest);
        let low = bytes[0] as nat;
        let high = le_value(rest);
        assert((low + 256 * high) % 256 == low);
        assert((low + 256 * high) / 256 == high);
        assert(le_bytes(le_value(bytes), bytes.len()) =~= bytes);
    }
}

} // verus!
