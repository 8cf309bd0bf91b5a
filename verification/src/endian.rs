//! Generic big-/little-endian parsers for the numeric types wire messages
//! carry, in the style of a parser combinator: read a value, hand back the
//! rest of the buffer.

use vstd::prelude::*;

use vstd::slice::{slice_index_get, slice_subrange};

use crate::errors::BitcoinMessageError;

verus! {

/// A numeric type that can be read from its big- or little-endian bytes.
pub trait FromEndian: Sized {
    /// How many bytes one value takes on the wire.
    spec fn width() -> nat;

    /// The value big-endian bytes of that width denote.
    spec fn from_be_spec(s: Seq<u8>) -> Self;

    /// The value little-endian bytes of that width denote.
    spec fn from_le_spec(s: Seq<u8>) -> Self;

    fn byte_width() -> (n: usize)
        ensures
            n == Self::width(),
    ;

    fn from_be(msg: &[u8]) -> (r: Self)
        requires
            msg@.len() == Self::width(),
        ensures
            r == Self::from_be_spec(msg@),
    ;

    fn from_le(msg: &[u8]) -> (r: Self)
        requires
            msg@.len() == Self::width(),
        ensures
            r == Self::from_le_spec(msg@),
    ;
}

impl FromEndian for u16 {
    open spec fn width() -> nat {
        2
    }

    open spec fn from_be_spec(s: Seq<u8>) -> u16 {
        (s[0] * 0x100 + s[1]) as u16
    }

    open spec fn from_le_spec(s: Seq<u8>) -> u16 {
        (s[1] * 0x100 + s[0]) as u16
    }

    fn byte_width() -> usize {
        2
    }

    fn from_be(msg: &[u8]) -> u16 {
        let b0 = *slice_index_get(msg, 0) as u16;
        let b1 = *slice_index_get(msg, 1) as u16;
        b0 * 0x100 + b1
    }

    fn from_le(msg: &[u8]) -> u16 {
        let b0 = *slice_index_get(msg, 0) as u16;
        let b1 = *slice_index_get(msg, 1) as u16;
        b1 * 0x100 + b0
    }
}

impl FromEndian for u32 {
    open spec fn width() -> nat {
        4
    }

    open spec fn from_be_spec(s: Seq<u8>) -> u32 {
        (s[0] * 0x1000000 + s[1] * 0x10000 + s[2] * 0x100 + s[3]) as u32
    }

    open spec fn from_le_spec(s: Seq<u8>) -> u32 {
        (s[3] * 0x1000000 + s[2] * 0x10000 + s[1] * 0x100 + s[0]) as u32
    }

    fn byte_width() -> usize {
        4
    }

    fn from_be(msg: &[u8]) -> u32 {
        let b0 = *slice_index_get(msg, 0) as u32;
        let b1 = *slice_index_get(msg, 1) as u32;
        let b2 = *slice_index_get(msg, 2) as u32;
        let b3 = *slice_index_get(msg, 3) as u32;
        b0 * 0x1000000 + b1 * 0x10000 + b2 * 0x100 + b3
    }

    fn from_le(msg: &[u8]) -> u32 {
        let b0 = *slice_index_get(msg, 0) as u32;
        let b1 = *slice_index_get(msg, 1) as u32;
        let b2 = *slice_index_get(msg, 2) as u32;
        let b3 = *slice_index_get(msg, 3) as u32;
        b3 * 0x1000000 + b2 * 0x10000 + b1 * 0x100 + b0
    }
}

impl FromEndian for u64 {
    open spec fn width() -> nat {
        8
    }

    open spec fn from_be_spec(s: Seq<u8>) -> u64 {
        (s[0] * 0x100000000000000 + s[1] * 0x1000000000000 + s[2] * 0x10000000000 + s[3]
            * 0x100000000 + s[4] * 0x1000000 + s[5] * 0x10000 + s[6] * 0x100 + s[7]) as u64
    }

    open spec fn from_le_spec(s: Seq<u8>) -> u64 {
        (s[7] * 0x100000000000000 + s[6] * 0x1000000000000 + s[5] * 0x10000000000 + s[4]
            * 0x100000000 + s[3] * 0x1000000 + s[2] * 0x10000 + s[1] * 0x100 + s[0]) as u64
    }

    fn byte_width() -> usize {
        8
    }

    fn from_be(msg: &[u8]) -> u64 {
        let b0 = *slice_index_get(msg, 0) as u64;
        let b1 = *slice_index_get(msg, 1) as u64;
        let b2 = *slice_index_get(msg, 2) as u64;
        let b3 = *slice_index_get(msg, 3) as u64;
        let b4 = *slice_index_get(msg, 4) as u64;
        let b5 = *slice_index_get(msg, 5) as u64;
        let b6 = *slice_index_get(msg, 6) as u64;
        let b7 = *slice_index_get(msg, 7) as u64;
        b0 * 0x100000000000000 + b1 * 0x1000000000000 + b2 * 0x10000000000 + b3 * 0x100000000 + b4
            * 0x1000000 + b5 * 0x10000 + b6 * 0x100 + b7
    }

    fn from_le(msg: &[u8]) -> u64 {
        let b0 = *slice_index_get(msg, 0) as u64;
        let b1 = *slice_index_get(msg, 1) as u64;
        let b2 = *slice_index_get(msg, 2) as u64;
        let b3 = *slice_index_get(msg, 3) as u64;
        let b4 = *slice_index_get(msg, 4) as u64;
        let b5 = *slice_index_get(msg, 5) as u64;
        let b6 = *slice_index_get(msg, 6) as u64;
        let b7 = *slice_index_get(msg, 7) as u64;
        b7 * 0x100000000000000 + b6 * 0x1000000000000 + b5 * 0x10000000000 + b4 * 0x100000000 + b3
            * 0x1000000 + b2 * 0x10000 + b1 * 0x100 + b0
    }
}

impl FromEndian for i32 {
    open spec fn width() -> nat {
        4
    }

    open spec fn from_be_spec(s: Seq<u8>) -> i32 {
        <u32 as FromEndian>::from_be_spec(s) as i32
    }

    open spec fn from_le_spec(s: Seq<u8>) -> i32 {
        <u32 as FromEndian>::from_le_spec(s) as i32
    }

    fn byte_width() -> usize {
        4
    }

    fn from_be(msg: &[u8]) -> i32 {
        let v: u32 = <u32 as FromEndian>::from_be(msg);
        v as i32
    }

    fn from_le(msg: &[u8]) -> i32 {
        let v: u32 = <u32 as FromEndian>::from_le(msg);
        v as i32
    }
}

impl FromEndian for i64 {
    open spec fn width() -> nat {
        8
    }

    open spec fn from_be_spec(s: Seq<u8>) -> i64 {
        <u64 as FromEndian>::from_be_spec(s) as i64
    }

    open spec fn from_le_spec(s: Seq<u8>) -> i64 {
        <u64 as FromEndian>::from_le_spec(s) as i64
    }

    fn byte_width() -> usize {
        8
    }

    fn from_be(msg: &[u8]) -> i64 {
        let v: u64 = <u64 as FromEndian>::from_be(msg);
        v as i64
    }

    fn from_le(msg: &[u8]) -> i64 {
        let v: u64 = <u64 as FromEndian>::from_le(msg);
        v as i64
    }
}

/// Split off the first `size` bytes, if the buffer holds that many: the
/// parsed head and the remaining tail, in the style of a stream parser.
pub fn read_drop_slice<'a>(buff: &'a Vec<u8>, size: usize) -> (r: Result<
    (&'a [u8], Vec<u8>),
    BitcoinMessageError,
>)
    ensures
        buff@.len() >= size ==> (r matches Ok(p) && p.0@ == buff@.take(size as int) && p.1@
            == buff@.skip(size as int)),
        buff@.len() < size ==> (r matches Err(e) && e matches
            BitcoinMessageError::SerializationError(_)),
{
    if buff.len() >= size {
        let head = slice_subrange(buff.as_slice(), 0, size);
        let mut rest: Vec<u8> = Vec::new();
        let mut i: usize = size;
        while i < buff.len()
            invariant
                size <= i <= buff@.len(),
                rest@.len() == i - size,
                forall|k: int| 0 <= k < rest@.len() ==> rest@[k] == buff@[size + k],
            decreases buff@.len() - i,
        {
            rest.push(buff[i]);
            i += 1;
        }
        proof {
            assert(head@ =~= buff@.take(size as int));
            assert(rest@ =~= buff@.skip(size as int));
        }
        Ok((head, rest))
    } else {
        Err(BitcoinMessageError::SerializationError("Buffer too small".to_owned()))
    }
}

/// Read one big-endian value off the front of the buffer and hand back the
/// rest; a buffer shorter than the value is reported as a serialization
/// error.
pub fn parse_frombytes_be<T: FromEndian>(buff: &Vec<u8>) -> (r: Result<
    (T, Vec<u8>),
    BitcoinMessageError,
>)
    ensures
        buff@.len() >= T::width() ==> (r matches Ok(p) && p.0 == T::from_be_spec(
            buff@.take(T::width() as int),
        ) && p.1@ == buff@.skip(T::width() as int)),
        buff@.len() < T::width() ==> (r matches Err(e) && e matches
            BitcoinMessageError::SerializationError(_)),
{
    let size = T::byte_width();
    match read_drop_slice(buff, size) {
        Ok((res, remaining)) => Ok((T::from_be(res), remaining)),
        Err(e) => Err(e),
    }
}

/// Read one little-endian value off the front of the buffer and hand back
/// the rest; a buffer shorter than the value is reported as a serialization
/// error.
pub fn parse_frombytes_le<T: FromEndian>(buff: &Vec<u8>) -> (r: Result<
    (T, Vec<u8>),
    BitcoinMessageError,
>)
    ensures
        buff@.len() >= T::width() ==> (r matches Ok(p) && p.0 == T::from_le_spec(
            buff@.take(T::width() as int),
        ) && p.1@ == buff@.skip(T::width() as int)),
        buff@.len() < T::width() ==> (r matches Err(e) && e matches
            BitcoinMessageError::SerializationError(_)),
{
    let size = T::byte_width();
    match read_drop_slice(buff, size) {
        Ok((res, remaining)) => Ok((T::from_le(res), remaining)),
        Err(e) => Err(e),
    }
}

} // verus!
