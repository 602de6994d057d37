//! The calls into bincode.
//!
//! `bincode::serialize` and `bincode::deserialize` write integers with a fixed
//! width, least significant byte first; a tuple is its fields one after the
//! other; a sequence of bytes or a string is its length in bytes as a 64-bit
//! integer and then the bytes, which for a string are UTF-8. Writing such
//! values never fails. Reading takes the value from the start of the input and
//! leaves the rest of the input alone; it fails when the input ends too soon
//! or when the bytes of a string are not UTF-8.
//!
//! Verus takes the contracts below as given. Each of them states the above for
//! one type of value.
use vstd::prelude::*;
use vstd::utf8::{decode_utf8, encode_utf8, valid_utf8};

use crate::wire::{le_bytes, le_value, unsigned16};

verus! {

/// Why bincode refused an input.
#[verifier::external_type_specification]
#[verifier::external_body]
pub struct ExErrorKind(bincode::ErrorKind);

/// The `len` bytes at `at`.
pub open spec fn chunk(bytes: Seq<u8>, at: int, len: nat) -> Seq<u8> {
    bytes.subrange(at, at + len)
}

/// The number that the `width` bytes at `at` denote.
pub open spec fn field(bytes: Seq<u8>, at: int, width: nat) -> nat {
    le_value(chunk(bytes, at, width))
}

/// `bincode::serialize` on one 32-bit integer.
#[verifier::external_body]
pub(crate) fn write_index(index: u32) -> (res: Result<Vec<u8>, Box<bincode::ErrorKind>>)
    ensures
        res is Ok,
        res->Ok_0@ == le_bytes(index as nat, 4),
{
    bincode::serialize(&index)
}

/// `bincode::serialize` on two 32-bit integers.
#[verifier::external_body]
pub(crate) fn write_index_word(index: u32, word: u32) -> (res: Result<
    Vec<u8>,
    Box<bincode::ErrorKind>,
>)
    ensures
        res is Ok,
        res->Ok_0@ == le_bytes(index as nat, 4) + le_bytes(word as nat, 4),
{
    bincode::serialize(&(index, word))
}

/// `bincode::serialize` on two 32-bit integers and a byte.
#[verifier::external_body]
pub(crate) fn write_index_word_byte(index: u32, word: u32, byte: u8) -> (res: Result<
    Vec<u8>,
    Box<bincode::ErrorKind>,
>)
    ensures
        res is Ok,
        res->Ok_0@ == le_bytes(index as nat, 4) + le_bytes(word as nat, 4) + le_bytes(
            byte as nat,
            1,
        ),
{
    bincode::serialize(&(index, word, byte))
}

/// `bincode::serialize` on three 32-bit integers.
#[verifier::external_body]
pub(crate) fn write_index_words(index: u32, x: u32, y: u32) -> (res: Result<
    Vec<u8>,
    Box<bincode::ErrorKind>,
>)
    ensures
        res is Ok,
        res->Ok_0@ == le_bytes(index as nat, 4) + le_bytes(x as nat, 4) + le_bytes(y as nat, 4),
{
    bincode::serialize(&(index, x, y))
}

/// `bincode::serialize` on a 32-bit integer and two signed 16-bit integers,
/// whose bytes are those of the unsigned numbers with the same bits.
#[verifier::external_body]
pub(crate) fn write_index_deltas(index: u32, dx: i16, dy: i16) -> (res: Result<
    Vec<u8>,
    Box<bincode::ErrorKind>,
>)
    ensures
        res is Ok,
        res->Ok_0@ == le_bytes(index as nat, 4) + le_bytes(unsigned16(dx), 2) + le_bytes(
            unsigned16(dy),
            2,
        ),
{
    bincode::serialize(&(index, dx, dy))
}

/// `bincode::serialize` on a 32-bit integer, a 16-bit integer and a byte.
#[verifier::external_body]
pub(crate) fn write_index_key(index: u32, keycode: u16, modifiers: u8) -> (res: Result<
    Vec<u8>,
    Box<bincode::ErrorKind>,
>)
    ensures
        res is Ok,
        res->Ok_0@ == le_bytes(index as nat, 4) + le_bytes(keycode as nat, 2) + le_bytes(
            modifiers as nat,
            1,
        ),
{
    bincode::serialize(&(index, keycode, modifiers))
}

/// `bincode::serialize` on a 32-bit integer and a sequence of bytes. The
/// output has to fit in one allocation.
#[verifier::external_body]
pub(crate) fn write_index_data(index: u32, data: &Vec<u8>) -> (res: Result<
    Vec<u8>,
    Box<bincode::ErrorKind>,
>)
    requires
        data@.len() + 12 <= isize::MAX,
    ensures
        res is Ok,
        res->Ok_0@ == le_bytes(index as nat, 4) + le_bytes(data@.len(), 8) + data@,
{
    bincode::serialize(&(index, data))
}

/// `bincode::serialize` on four 32-bit integers and a string. The output has
/// to fit in one allocation.
#[verifier::external_body]
pub(crate) fn write_index_screen(
    index: u32,
    width: u32,
    height: u32,
    dpi: u32,
    name: &String,
) -> (res: Result<Vec<u8>, Box<bincode::ErrorKind>>)
    requires
        encode_utf8(name@).len() + 24 <= isize::MAX,
    ensures
        res is Ok,
        res->Ok_0@ == le_bytes(index as nat, 4) + le_bytes(width as nat, 4) + le_bytes(
            height as nat,
            4,
        ) + le_bytes(dpi as nat, 4) + le_bytes(encode_utf8(name@).len(), 8) + encode_utf8(name@),
{
    bincode::serialize(&(index, width, height, dpi, name))
}

/// `bincode::deserialize` to one 32-bit integer.
#[verifier::external_body]
pub(crate) fn read_index(bytes: &[u8]) -> (res: Result<u32, Box<bincode::ErrorKind>>)
    ensures
        res is Ok <==> bytes@.len() >= 4,
        res matches Ok(index) ==> index == field(bytes@, 0, 4),
{
    bincode::deserialize(bytes)
}

/// `bincode::deserialize` to two 32-bit integers.
#[verifier::external_body]
pub(crate) fn read_index_word(bytes: &[u8]) -> (res: Result<(u32, u32), Box<bincode::ErrorKind>>)
    ensures
        res is Ok <==> bytes@.len() >= 8,
        res matches Ok(v) ==> v.0 == field(bytes@, 0, 4) && v.1 == field(bytes@, 4, 4),
{
    bincode::deserialize(bytes)
}

/// `bincode::deserialize` to two 32-bit integers and a byte.
#[verifier::external_body]
pub(crate) fn read_index_word_byte(bytes: &[u8]) -> (res: Result<
    (u32, u32, u8),
    Box<bincode::ErrorKind>,
>)
    ensures
        res is Ok <==> bytes@.len() >= 9,
        res matches Ok(v) ==> {
            &&& v.0 == field(bytes@, 0, 4)
            &&& v.1 == field(bytes@, 4, 4)
            &&& v.2 == field(bytes@, 8, 1)
        },
{
    bincode::deserialize(bytes)
}

/// `bincode::deserialize` to three 32-bit integers.
#[verifier::external_body]
pub(crate) fn read_index_words(bytes: &[u8]) -> (res: Result<
    (u32, u32, u32),
    Box<bincode::ErrorKind>,
>)
    ensures
        res is Ok <==> bytes@.len() >= 12,
        res matches Ok(v) ==> {
            &&& v.0 == field(bytes@, 0, 4)
            &&& v.1 == field(bytes@, 4, 4)
            &&& v.2 == field(bytes@, 8, 4)
        },
{
    bincode::deserialize(bytes)
}

/// `bincode::deserialize` to a 32-bit integer and two signed 16-bit integers,
/// read as the unsigned numbers with the same bits.
#[verifier::external_body]
pub(crate) fn read_index_deltas(bytes: &[u8]) -> (res: Result<
    (u32, i16, i16),
    Box<bincode::ErrorKind>,
>)
    ensures
        res is Ok <==> bytes@.len() >= 8,
        res matches Ok(v) ==> {
            &&& v.0 == field(bytes@, 0, 4)
            &&& unsigned16(v.1) == field(bytes@, 4, 2)
            &&& unsigned16(v.2) == field(bytes@, 6, 2)
        },
{
    bincode::deserialize(bytes)
}

/// `bincode::deserialize` to a 32-bit integer, a 16-bit integer and a byte.
#[verifier::external_body]
pub(crate) fn read_index_key(bytes: &[u8]) -> (res: Result<
    (u32, u16, u8),
    Box<bincode::ErrorKind>,
>)
    ensures
        res is Ok <==> bytes@.len() >= 7,
        res matches Ok(v) ==> {
            &&& v.0 == field(bytes@, 0, 4)
            &&& v.1 == field(bytes@, 4, 2)
            &&& v.2 == field(bytes@, 6, 1)
        },
{
    bincode::deserialize(bytes)
}

/// `bincode::deserialize` to a 32-bit integer and a sequence of bytes.
#[verifier::external_body]
pub(crate) fn read_index_data(bytes: &[u8]) -> (res: Result<
    (u32, Vec<u8>),
    Box<bincode::ErrorKind>,
>)
    ensures
        res is Ok <==> (bytes@.len() >= 12 && bytes@.len() >= 12 + field(bytes@, 4, 8)),
        res matches Ok(v) ==> {
            &&& v.0 == field(bytes@, 0, 4)
            &&& v.1@ == chunk(bytes@, 12, field(bytes@, 4, 8))
        },
{
    bincode::deserialize(bytes)
}

/// `bincode::deserialize` to four 32-bit integers and a string.
#[verifier::external_body]
pub(crate) fn read_index_screen(bytes: &[u8]) -> (res: Result<
    (u32, u32, u32, u32, String),
    Box<bincode::ErrorKind>,
>)
    ensures
        res is Ok <==> (bytes@.len() >= 24 && bytes@.len() >= 24 + field(bytes@, 16, 8)
            && valid_utf8(chunk(bytes@, 24, field(bytes@, 16, 8)))),
        res matches Ok(v) ==> {
            &&& v.0 == field(bytes@, 0, 4)
            &&& v.1 == field(bytes@, 4, 4)
            &&& v.2 == field(bytes@, 8, 4)
            &&& v.3 == field(bytes@, 12, 4)
            &&& v.4@ == decode_utf8(chunk(bytes@, 24, field(bytes@, 16, 8)))
        },
{
    bincode::deserialize(bytes)
}

} // verus!
