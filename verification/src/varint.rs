//! Variable-length integers: seven bits to a byte, low bits first, the high
//! bit set on every byte but the last. The encoding library produces and reads
//! them; this module states what it does and proves that reading undoes writing.
use crate::error::Error;
use postcard::Error as CodecError;
use vstd::prelude::*;

verus! {

/// The bytes of `v`.
pub open spec fn varint_bytes(v: nat) -> Seq<u8>
    decreases v,
{
    if v < 128 {
        seq![v as u8]
    } else {
        seq![(128 + v % 128) as u8] + varint_bytes(v / 128)
    }
}

/// Reads one value from the front of `s`, giving it with the bytes that follow.
/// At most `max` bytes are read, and a value that takes all `max` bytes must
/// end in a byte of at most `top`. Leading groups of zero bits are accepted,
/// so a value can be read from more bytes than `varint_bytes` gives it.
pub open spec fn varint_parse(s: Seq<u8>, max: nat, top: nat) -> Option<(nat, Seq<u8>)>
    decreases max,
{
    if max == 0 || s.len() == 0 {
        None
    } else if s[0] < 128 {
        if max == 1 && s[0] > top {
            None
        } else {
            Some((s[0] as nat, s.skip(1)))
        }
    } else {
        match varint_parse(s.skip(1), (max - 1) as nat, top) {
            Some((high, rest)) => Some(((s[0] - 128 + 128 * high) as nat, rest)),
            None => None,
        }
    }
}

/// The least value that cannot be read under the limits `max` and `top`.
pub open spec fn varint_limit(max: nat, top: nat) -> nat
    decreases max,
{
    if max <= 1 {
        top + 1
    } else {
        128 * varint_limit((max - 1) as nat, top)
    }
}

/// A 32-bit value at the front of `s`: five bytes at most, the fifth at most 15.
pub open spec fn parse_u32(s: Seq<u8>) -> Option<(nat, Seq<u8>)> {
    varint_parse(s, 5, 15)
}

/// A 64-bit value at the front of `s`: ten bytes at most, the tenth at most 1.
pub open spec fn parse_u64(s: Seq<u8>) -> Option<(nat, Seq<u8>)> {
    varint_parse(s, 10, 1)
}

/// A value below the limit is read back from its bytes, whatever follows them,
/// and takes at most `max` bytes.
pub proof fn lemma_varint_round_trip(v: nat, tail: Seq<u8>, max: nat, top: nat)
    requires
        v < varint_limit(max, top),
        top < 128,
        max >= 1,
    ensures
        varint_parse(varint_bytes(v) + tail, max, top) == Some((v, tail)),
        1 <= varint_bytes(v).len() <= max,
    decreases max,
{
    let s = varint_bytes(v) + tail;
    if v < 128 {
        assert(s[0] == v as u8);
        assert(s.skip(1) =~= tail);
    } else {
        assert(s[0] == (128 + v % 128) as u8);
        assert(s.skip(1) =~= varint_bytes(v / 128) + tail);
        lemma_varint_round_trip(v / 128, tail, (max - 1) as nat, top);
    }
}

/// What is read lies below the limit, and the bytes that follow it are a
/// proper suffix of the input.
pub proof fn lemma_varint_parse_bound(s: Seq<u8>, max: nat, top: nat)
    requires
        varint_parse(s, max, top) is Some,
        top < 128,
    ensures
        varint_parse(s, max, top)->Some_0.0 < varint_limit(max, top),
        varint_parse(s, max, top)->Some_0.1.len() < s.len(),
        varint_parse(s, max, top)->Some_0.1 == s.skip(
            s.len() - varint_parse(s, max, top)->Some_0.1.len(),
        ),
    decreases max,
{
    if s[0] >= 128 {
        let t = s.skip(1);
        lemma_varint_parse_bound(t, (max - 1) as nat, top);
        let rest = varint_parse(t, (max - 1) as nat, top)->Some_0.1;
        assert(t.skip(t.len() - rest.len()) =~= s.skip(s.len() - rest.len()));
    } else {
        assert(varint_limit(max, top) >= top + 1) by {
            lemma_limit_floor(max, top);
        }
    }
}

proof fn lemma_limit_floor(max: nat, top: nat)
    ensures
        varint_limit(max, top) >= top + 1,
        max > 1 ==> varint_limit(max, top) >= 128,
    decreases max,
{
    if max > 1 {
        lemma_limit_floor((max - 1) as nat, top);
    }
}

/// The limits of the two widths are the first values that their types cannot hold.
pub proof fn lemma_limits()
    ensures
        varint_limit(5, 15) == 0x1_0000_0000,
        varint_limit(10, 1) == 0x1_0000_0000_0000_0000,
{
    reveal_with_fuel(varint_limit, 11);
}

/// Calls `postcard::to_allocvec` on a `u32`. The library writes the value in
/// groups of seven bits, low group first, and marks every byte but the last
/// with the high bit; its growable output never refuses a byte.
#[verifier::external_body]
fn to_allocvec_u32(v: u32) -> (r: Result<Vec<u8>, CodecError>)
    ensures
        r is Ok,
        r->Ok_0@ == varint_bytes(v as nat),
{
    postcard::to_allocvec(&v)
}

/// Calls `postcard::take_from_bytes` for a `u32`. The library reads up to five
/// bytes, fails with `DeserializeUnexpectedEnd` where the input ends before a
/// byte without the high bit, and with `DeserializeBadVarint` where the fifth
/// byte is above 15 or has the high bit.
#[verifier::external_body]
fn take_u32<'a>(s: &'a [u8]) -> (r: Result<(u32, &'a [u8]), CodecError>)
    ensures
        match r {
            Ok((v, rest)) => parse_u32(s@) == Some((v as nat, rest@)),
            Err(e) => parse_u32(s@) is None && (e == CodecError::DeserializeUnexpectedEnd || e
                == CodecError::DeserializeBadVarint),
        },
{
    postcard::take_from_bytes::<u32>(s)
}

/// Calls `postcard::take_from_bytes` for a `u64`. The library reads up to ten
/// bytes, fails with `DeserializeUnexpectedEnd` where the input ends before a
/// byte without the high bit, and with `DeserializeBadVarint` where the tenth
/// byte is above 1 or has the high bit.
#[verifier::external_body]
fn take_u64<'a>(s: &'a [u8]) -> (r: Result<(u64, &'a [u8]), CodecError>)
    ensures
        match r {
            Ok((v, rest)) => parse_u64(s@) == Some((v as nat, rest@)),
            Err(e) => parse_u64(s@) is None && (e == CodecError::DeserializeUnexpectedEnd || e
                == CodecError::DeserializeBadVarint),
        },
{
    postcard::take_from_bytes::<u64>(s)
}

/// The bytes of `v`, between one and five of them.
pub fn u32_to_varint(v: u32) -> (r: Vec<u8>)
    ensures
        r@ == varint_bytes(v as nat),
        1 <= r@.len() <= 5,
{
    proof {
        lemma_limits();
        lemma_varint_round_trip(v as nat, Seq::empty(), 5, 15);
    }
    match to_allocvec_u32(v) {
        Ok(bytes) => bytes,
        Err(_) => vstd::pervasive::unreached(),
    }
}

/// Reads a 32-bit value from the front of `s` and gives it with the rest of
/// `s`, which is shorter than `s`; where none can be read, fails with
/// `Deserialize`.
pub fn u32_from_varint<'a>(s: &'a [u8]) -> (r: Result<(u32, &'a [u8]), Error>)
    ensures
        match r {
            Ok((v, rest)) => parse_u32(s@) == Some((v as nat, rest@)) && rest@.len() < s@.len(),
            Err(e) => parse_u32(s@) is None && e == Error::Deserialize,
        },
{
    match take_u32(s) {
        Ok(found) => {
            proof {
                lemma_varint_parse_bound(s@, 5, 15);
            }
            Ok(found)
        },
        Err(e) => Err(Error::from(e)),
    }
}

/// Reads a 64-bit value from the front of `s` and gives it with the rest of
/// `s`, which is shorter than `s`; where none can be read, fails with
/// `Deserialize`.
pub fn u64_from_varint<'a>(s: &'a [u8]) -> (r: Result<(u64, &'a [u8]), Error>)
    ensures
        match r {
            Ok((v, rest)) => parse_u64(s@) == Some((v as nat, rest@)) && rest@.len() < s@.len(),
            Err(e) => parse_u64(s@) is None && e == Error::Deserialize,
        },
{
    match take_u64(s) {
        Ok(found) => {
            proof {
                lemma_varint_parse_bound(s@, 10, 1);
            }
            Ok(found)
        },
        Err(e) => Err(Error::from(e)),
    }
}

} // verus!
