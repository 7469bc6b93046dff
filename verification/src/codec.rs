//! The building blocks of the wire format: big-endian integers, booleans and
//! UTF-8 strings.

use vstd::prelude::*;
use vstd::slice::slice_subrange;
use vstd::utf8::{decode_utf8, valid_utf8};

verus! {

/// Why a message could not be decoded.
#[derive(Debug, Clone, Copy, PartialEq, Eq, Structural)]
pub enum DecodeError {
    /// The input ends before a field of fixed width is complete.
    UnexpectedEof,
    /// The type tag stands for no message.
    InvalidType(u16),
    /// A number that should stand for a lock or an access stands for none.
    InvalidEnum(u16),
    /// A database name is not valid UTF-8.
    InvalidUtf8,
}

/// The two bytes of `x`, most significant first.
pub open spec fn be_u16(x: u16) -> Seq<u8> {
    seq![(x / 0x100) as u8, (x % 0x100) as u8]
}

/// The four bytes of `x`, most significant first.
pub open spec fn be_u32(x: u32) -> Seq<u8> {
    seq![
        (x / 0x100_0000) as u8,
        (x / 0x1_0000 % 0x100) as u8,
        (x / 0x100 % 0x100) as u8,
        (x % 0x100) as u8,
    ]
}

/// The eight bytes of `x`, most significant first.
pub open spec fn be_u64(x: u64) -> Seq<u8> {
    seq![
        (x / 0x100_0000_0000_0000) as u8,
        (x / 0x1_0000_0000_0000 % 0x100) as u8,
        (x / 0x100_0000_0000 % 0x100) as u8,
        (x / 0x1_0000_0000 % 0x100) as u8,
        (x / 0x100_0000 % 0x100) as u8,
        (x / 0x1_0000 % 0x100) as u8,
        (x / 0x100 % 0x100) as u8,
        (x % 0x100) as u8,
    ]
}

/// The number whose big-endian bytes are the first two bytes of `b`.
pub open spec fn from_be_u16(b: Seq<u8>) -> u16
    recommends
        b.len() >= 2,
{
    (b[0] as int * 0x100 + b[1] as int) as u16
}

/// The number whose big-endian bytes are the first four bytes of `b`.
pub open spec fn from_be_u32(b: Seq<u8>) -> u32
    recommends
        b.len() >= 4,
{
    (b[0] as int * 0x100_0000 + b[1] as int * 0x1_0000 + b[2] as int * 0x100 + b[3] as int) as u32
}

/// The number whose big-endian bytes are the first eight bytes of `b`.
pub open spec fn from_be_u64(b: Seq<u8>) -> u64
    recommends
        b.len() >= 8,
{
    (b[0] as int * 0x100_0000_0000_0000 + b[1] as int * 0x1_0000_0000_0000 + b[2] as int
        * 0x100_0000_0000 + b[3] as int * 0x1_0000_0000 + b[4] as int * 0x100_0000 + b[5] as int
        * 0x1_0000 + b[6] as int * 0x100 + b[7] as int) as u64
}

/// The byte that stands for a boolean.
pub open spec fn bool_byte(b: bool) -> u8 {
    if b {
        1
    } else {
        0
    }
}

/// Reading the two bytes of a number gives the number back.
pub proof fn lemma_be_u16_roundtrip(x: u16)
    ensures
        be_u16(x).len() == 2,
        from_be_u16(be_u16(x)) == x,
{
}

/// Reading the four bytes of a number gives the number back.
pub proof fn lemma_be_u32_roundtrip(x: u32)
    ensures
        be_u32(x).len() == 4,
        from_be_u32(be_u32(x)) == x,
{
}

/// Reading the eight bytes of a number gives the number back.
pub proof fn lemma_be_u64_roundtrip(x: u64)
    ensures
        be_u64(x).len() == 8,
        from_be_u64(be_u64(x)) == x,
{
    let q1 = x / 0x100;
    let q2 = x / 0x1_0000;
    let q3 = x / 0x100_0000;
    let q4 = x / 0x1_0000_0000;
    let q5 = x / 0x100_0000_0000;
    let q6 = x / 0x1_0000_0000_0000;
    let q7 = x / 0x100_0000_0000_0000;
    assert(q2 == q1 / 0x100);
    assert(q3 == q2 / 0x100);
    assert(q4 == q3 / 0x100);
    assert(q5 == q4 / 0x100);
    assert(q6 == q5 / 0x100);
    assert(q7 == q6 / 0x100);
    assert(x == q1 * 0x100 + x % 0x100);
    assert(q1 == q2 * 0x100 + q1 % 0x100);
    assert(q2 == q3 * 0x100 + q2 % 0x100);
    assert(q3 == q4 * 0x100 + q3 % 0x100);
    assert(q4 == q5 * 0x100 + q4 % 0x100);
    assert(q5 == q6 * 0x100 + q5 % 0x100);
    assert(q6 == q7 * 0x100 + q6 % 0x100);
    assert(q7 < 0x100);
}

/// The bytes of a sequence that starts with `a` and goes on with `b` split
/// into `a` and `b` again.
pub proof fn lemma_split_concat(a: Seq<u8>, b: Seq<u8>)
    ensures
        (a + b).len() == a.len() + b.len(),
        (a + b).subrange(0, a.len() as int) == a,
        (a + b).subrange(a.len() as int, (a + b).len() as int) == b,
{
    assert((a + b).subrange(0, a.len() as int) =~= a);
    assert((a + b).subrange(a.len() as int, (a + b).len() as int) =~= b);
}

/// Append the two big-endian bytes of `x`.
pub fn put_u16(buffer: &mut Vec<u8>, x: u16)
    ensures
        final(buffer)@ == old(buffer)@ + be_u16(x),
{
    buffer.push((x / 0x100) as u8);
    buffer.push((x % 0x100) as u8);
    assert(buffer@ =~= old(buffer)@ + be_u16(x));
}

/// Append the four big-endian bytes of `x`.
pub fn put_u32(buffer: &mut Vec<u8>, x: u32)
    ensures
        final(buffer)@ == old(buffer)@ + be_u32(x),
{
    buffer.push((x / 0x100_0000) as u8);
    buffer.push((x / 0x1_0000 % 0x100) as u8);
    buffer.push((x / 0x100 % 0x100) as u8);
    buffer.push((x % 0x100) as u8);
    assert(buffer@ =~= old(buffer)@ + be_u32(x));
}

/// Append the eight big-endian bytes of `x`.
pub fn put_u64(buffer: &mut Vec<u8>, x: u64)
    ensures
        final(buffer)@ == old(buffer)@ + be_u64(x),
{
    buffer.push((x / 0x100_0000_0000_0000) as u8);
    buffer.push((x / 0x1_0000_0000_0000 % 0x100) as u8);
    buffer.push((x / 0x100_0000_0000 % 0x100) as u8);
    buffer.push((x / 0x1_0000_0000 % 0x100) as u8);
    buffer.push((x / 0x100_0000 % 0x100) as u8);
    buffer.push((x / 0x1_0000 % 0x100) as u8);
    buffer.push((x / 0x100 % 0x100) as u8);
    buffer.push((x % 0x100) as u8);
    assert(buffer@ =~= old(buffer)@ + be_u64(x));
}

/// Append all of `bytes`.
pub fn put_bytes(buffer: &mut Vec<u8>, bytes: &[u8])
    ensures
        final(buffer)@ == old(buffer)@ + bytes@,
{
    buffer.extend_from_slice(bytes);
    assert(buffer@ =~= old(buffer)@ + bytes@);
}

/// What follows the first `width` bytes of `data`; nothing if `data` is not
/// that long.
pub open spec fn after(data: Seq<u8>, width: int) -> Seq<u8> {
    if data.len() >= width {
        data.subrange(width, data.len() as int)
    } else {
        Seq::empty()
    }
}

/// Read a byte off the start of `data`.
pub fn get_u8(data: &[u8]) -> (r: Result<u8, DecodeError>)
    ensures
        match r {
            Ok(x) => data@.len() >= 1 && x == data@[0],
            Err(e) => data@.len() < 1 && e == DecodeError::UnexpectedEof,
        },
{
    if data.len() < 1 {
        Err(DecodeError::UnexpectedEof)
    } else {
        Ok(data[0])
    }
}

/// Read a big-endian number of two bytes off the start of `data`.
pub fn get_u16(data: &[u8]) -> (r: Result<u16, DecodeError>)
    ensures
        match r {
            Ok(x) => data@.len() >= 2 && x == from_be_u16(data@),
            Err(e) => data@.len() < 2 && e == DecodeError::UnexpectedEof,
        },
{
    if data.len() < 2 {
        Err(DecodeError::UnexpectedEof)
    } else {
        let hi: u16 = data[0] as u16;
        let lo: u16 = data[1] as u16;
        Ok(hi * 0x100 + lo)
    }
}

/// Read a big-endian number of four bytes off the start of `data`.
pub fn get_u32(data: &[u8]) -> (r: Result<u32, DecodeError>)
    ensures
        match r {
            Ok(x) => data@.len() >= 4 && x == from_be_u32(data@),
            Err(e) => data@.len() < 4 && e == DecodeError::UnexpectedEof,
        },
{
    if data.len() < 4 {
        Err(DecodeError::UnexpectedEof)
    } else {
        let b0: u32 = data[0] as u32;
        let b1: u32 = data[1] as u32;
        let b2: u32 = data[2] as u32;
        let b3: u32 = data[3] as u32;
        Ok(b0 * 0x100_0000 + b1 * 0x1_0000 + b2 * 0x100 + b3)
    }
}

/// Read a big-endian number of eight bytes off the start of `data`.
pub fn get_u64(data: &[u8]) -> (r: Result<u64, DecodeError>)
    ensures
        match r {
            Ok(x) => data@.len() >= 8 && x == from_be_u64(data@),
            Err(e) => data@.len() < 8 && e == DecodeError::UnexpectedEof,
        },
{
    if data.len() < 8 {
        Err(DecodeError::UnexpectedEof)
    } else {
        let b0: u64 = data[0] as u64;
        let b1: u64 = data[1] as u64;
        let b2: u64 = data[2] as u64;
        let b3: u64 = data[3] as u64;
        let b4: u64 = data[4] as u64;
        let b5: u64 = data[5] as u64;
        let b6: u64 = data[6] as u64;
        let b7: u64 = data[7] as u64;
        Ok(
            b0 * 0x100_0000_0000_0000 + b1 * 0x1_0000_0000_0000 + b2 * 0x100_0000_0000 + b3
                * 0x1_0000_0000 + b4 * 0x100_0000 + b5 * 0x1_0000 + b6 * 0x100 + b7,
        )
    }
}

/// What follows the first `width` bytes of `data`.
pub fn skip(data: &[u8], width: usize) -> (rest: &[u8])
    ensures
        rest@ == after(data@, width as int),
{
    if data.len() >= width {
        slice_subrange(data, width, data.len())
    } else {
        slice_subrange(data, 0, 0)
    }
}

/// The text that the bytes encode, if they are valid UTF-8. This is
/// `std::str::from_utf8`, which accepts exactly the valid encodings and
/// yields the text they stand for.
#[verifier::external_body]
pub(crate) fn utf8_to_string(bytes: &[u8]) -> (r: Option<String>)
    ensures
        r is Some <==> valid_utf8(bytes@),
        r matches Some(s) ==> s@ == decode_utf8(bytes@),
{
    match std::str::from_utf8(bytes) {
        Ok(s) => Some(s.to_owned()),
        Err(_) => None,
    }
}

/// The text that the bytes encode, if they are valid UTF-8.
pub open spec fn spec_text(bytes: Seq<u8>) -> Result<Seq<char>, DecodeError> {
    if valid_utf8(bytes) {
        Ok(decode_utf8(bytes))
    } else {
        Err(DecodeError::InvalidUtf8)
    }
}

/// Read a text that takes up all of `data`.
pub fn get_text(data: &[u8]) -> (r: Result<String, DecodeError>)
    ensures
        match r {
            Ok(s) => spec_text(data@) == Ok::<Seq<char>, DecodeError>(s@),
            Err(e) => spec_text(data@) == Err::<Seq<char>, DecodeError>(e),
        },
{
    match utf8_to_string(data) {
        Some(s) => Ok(s),
        None => Err(DecodeError::InvalidUtf8),
    }
}

} // verus!
