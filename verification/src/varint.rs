//! The variable-length integer encoding that postcard uses on the wire,
//! and the postcard calls the batch framing is built on.
//!
//! A value is written in little-endian groups of seven bits; every byte
//! but the last carries the continuation bit `0x80`. A decoder for an
//! integer of a given width reads at most `max_len` bytes, and the last of
//! them may not exceed `last_max` (the bits that still fit the width).

use vstd::prelude::*;

verus! {

/// Postcard's varint bytes for `n`.
pub open spec fn spec_varint(n: nat) -> Seq<u8>
    decreases n,
{
    if n < 128 {
        seq![n as u8]
    } else {
        seq![(n % 128 + 128) as u8] + spec_varint(n / 128)
    }
}

/// Postcard's varint decoder: the value and the number of bytes read, or
/// `None` when the input ends early, the continuation runs past
/// `max_len` bytes, or the last allowed byte exceeds `last_max`.
/// Non-minimal encodings (such as `0x80 0x00`) are accepted.
pub open spec fn spec_take_varint(s: Seq<u8>, max_len: nat, last_max: u8) -> Option<(nat, nat)>
    decreases max_len,
{
    if max_len == 0 || s.len() == 0 {
        None
    } else if s[0] < 128 {
        if max_len == 1 && s[0] > last_max {
            None
        } else {
            Some((s[0] as nat, 1nat))
        }
    } else if max_len == 1 {
        None
    } else {
        match spec_take_varint(s.drop_first(), (max_len - 1) as nat, last_max) {
            Some((v, k)) => Some((((s[0] - 128) + 128 * v) as nat, k + 1)),
            None => None,
        }
    }
}

/// Decoder of a `u16`: three bytes at most, the third below four.
pub open spec fn spec_take_u16(s: Seq<u8>) -> Option<(nat, nat)> {
    spec_take_varint(s, 3, 3)
}

/// Decoder of a `u32` (and of an enum's variant index): five bytes at
/// most, the fifth below sixteen.
pub open spec fn spec_take_u32(s: Seq<u8>) -> Option<(nat, nat)> {
    spec_take_varint(s, 5, 15)
}

/// Decoder of a `usize` length: that of `u64` on 64-bit targets (ten
/// bytes, the tenth at most one) and of `u32` on 32-bit targets.
pub open spec fn spec_take_usize(s: Seq<u8>) -> Option<(nat, nat)> {
    if usize::BITS == 64 {
        spec_take_varint(s, 10, 1)
    } else {
        spec_take_varint(s, 5, 15)
    }
}

/// Decoder of a borrowed byte string: a `usize` length, then that many
/// bytes. Gives the bytes and the number of input bytes read.
pub open spec fn spec_take_bytes(s: Seq<u8>) -> Option<(Seq<u8>, nat)> {
    match spec_take_usize(s) {
        Some((n, k)) => if k + n <= s.len() {
            Some((s.subrange(k as int, (k + n) as int), k + n))
        } else {
            None
        },
        None => None,
    }
}

/// `postcard::to_allocvec` on a `u32`: the value's varint bytes. The
/// allocating output never fills up, so the call cannot fail.
#[verifier::external_body]
pub(crate) fn postcard_u32(v: u32) -> (res: Vec<u8>)
    ensures
        res@ == spec_varint(v as nat),
{
    match postcard::to_allocvec(&v) {
        Ok(bytes) => bytes,
        Err(_) => Vec::new(),
    }
}

/// `postcard::to_allocvec` on a `u16`: the value's varint bytes.
#[verifier::external_body]
pub(crate) fn postcard_u16(v: u16) -> (res: Vec<u8>)
    ensures
        res@ == spec_varint(v as nat),
{
    match postcard::to_allocvec(&v) {
        Ok(bytes) => bytes,
        Err(_) => Vec::new(),
    }
}

/// `postcard::to_allocvec` on a byte slice: the varint of its length,
/// then the bytes themselves.
#[verifier::external_body]
pub(crate) fn postcard_bytes(v: &[u8]) -> (res: Vec<u8>)
    ensures
        res@ == spec_varint(v@.len()) + v@,
{
    match postcard::to_allocvec(v) {
        Ok(bytes) => bytes,
        Err(_) => Vec::new(),
    }
}

/// `postcard::take_from_bytes::<u32>`: decodes one varint `u32` from the
/// front of `s` and gives it with the bytes that follow it, exactly when
/// `spec_take_u32` accepts the input.
#[verifier::external_body]
pub(crate) fn postcard_take_u32(s: &[u8]) -> (res: Option<(u32, Vec<u8>)>)
    ensures
        match spec_take_u32(s@) {
            Some((v, k)) => res matches Some((x, rest)) && x as nat == v && rest@ == s@.skip(
                k as int,
            ),
            None => res is None,
        },
{
    match postcard::take_from_bytes::<u32>(s) {
        Ok((v, rest)) => Some((v, rest.to_vec())),
        Err(_) => None,
    }
}

/// `postcard::take_from_bytes::<u16>`: decodes one varint `u16` from the
/// front of `s`, exactly when `spec_take_u16` accepts the input.
#[verifier::external_body]
pub(crate) fn postcard_take_u16(s: &[u8]) -> (res: Option<(u16, Vec<u8>)>)
    ensures
        match spec_take_u16(s@) {
            Some((v, k)) => res matches Some((x, rest)) && x as nat == v && rest@ == s@.skip(
                k as int,
            ),
            None => res is None,
        },
{
    match postcard::take_from_bytes::<u16>(s) {
        Ok((v, rest)) => Some((v, rest.to_vec())),
        Err(_) => None,
    }
}

/// `postcard::take_from_bytes::<&[u8]>`: decodes a length-prefixed byte
/// string from the front of `s`, exactly when `spec_take_bytes` accepts
/// the input.
#[verifier::external_body]
pub(crate) fn postcard_take_bytes(s: &[u8]) -> (res: Option<(Vec<u8>, Vec<u8>)>)
    ensures
        match spec_take_bytes(s@) {
            Some((d, k)) => res matches Some((data, rest)) && data@ == d && rest@ == s@.skip(
                k as int,
            ),
            None => res is None,
        },
{
    match postcard::take_from_bytes::<&[u8]>(s) {
        Ok((data, rest)) => Some((data.to_vec(), rest.to_vec())),
        Err(_) => None,
    }
}

/// The values below this bound fit in `m` varint bytes whose last one is
/// at most `last_max`.
pub open spec fn spec_varint_room(m: nat, last_max: u8) -> nat
    decreases m,
{
    if m <= 1 {
        last_max as nat + 1
    } else {
        128 * spec_varint_room((m - 1) as nat, last_max)
    }
}

/// A varint of a value within the room of `m` bytes is one to `m` bytes
/// long and starts a stream from which the decoder reads back exactly that
/// value.
pub proof fn lemma_varint_take(n: nat, rest: Seq<u8>, m: nat, last_max: u8)
    requires
        1 <= m,
        last_max < 128,
        n < spec_varint_room(m, last_max),
    ensures
        1 <= spec_varint(n).len() <= m,
        spec_take_varint(spec_varint(n) + rest, m, last_max) == Some((n, spec_varint(n).len())),
    decreases m,
{
    let e = spec_varint(n) + rest;
    if n < 128 {
        assert(e[0] == n as u8);
    } else {
        if m == 1 {
            assert(false);
        }
        let q = n / 128;
        assert(q < spec_varint_room((m - 1) as nat, last_max));
        lemma_varint_take(q, rest, (m - 1) as nat, last_max);
        assert(e[0] == (n % 128 + 128) as u8);
        assert(e.drop_first() =~= spec_varint(q) + rest);
    }
}

/// Round trip of the `u16` varint.
pub proof fn lemma_u16_round_trip(n: nat, rest: Seq<u8>)
    requires
        n < 0x1_0000,
    ensures
        1 <= spec_varint(n).len() <= 3,
        spec_take_u16(spec_varint(n) + rest) == Some((n, spec_varint(n).len())),
{
    reveal_with_fuel(spec_varint_room, 3);
    lemma_varint_take(n, rest, 3, 3);
}

/// Round trip of the `u32` varint: decoding the encoding of a value,
/// followed by any bytes, gives back the value and consumes exactly its
/// encoding.
pub proof fn lemma_u32_round_trip(n: nat, rest: Seq<u8>)
    requires
        n < 0x1_0000_0000,
    ensures
        1 <= spec_varint(n).len() <= 5,
        spec_take_u32(spec_varint(n) + rest) == Some((n, spec_varint(n).len())),
{
    reveal_with_fuel(spec_varint_room, 5);
    lemma_varint_take(n, rest, 5, 15);
}

/// Round trip of a byte string: decoding the length-prefixed encoding of
/// `d`, followed by any bytes, gives back `d` and consumes exactly its
/// encoding.
pub proof fn lemma_bytes_round_trip(d: Seq<u8>, rest: Seq<u8>)
    requires
        d.len() <= usize::MAX,
    ensures
        spec_take_bytes(spec_varint(d.len()) + d + rest) == Some(
            (d, spec_varint(d.len()).len() + d.len()),
        ),
{
    let n = d.len();
    let e = spec_varint(n) + d + rest;
    assert(e =~= spec_varint(n) + (d + rest));
    if usize::BITS == 64 {
        reveal_with_fuel(spec_varint_room, 10);
        assert(n < spec_varint_room(10, 1));
        lemma_varint_take(n, d + rest, 10, 1);
    } else {
        reveal_with_fuel(spec_varint_room, 5);
        lemma_varint_take(n, d + rest, 5, 15);
    }
    let k = spec_varint(n).len();
    assert(e.subrange(k as int, (k + n) as int) =~= d);
}

/// A successful varint decode reads at least one byte and no more than
/// the input holds.
pub proof fn lemma_take_varint_len(s: Seq<u8>, max_len: nat, last_max: u8)
    ensures
        spec_take_varint(s, max_len, last_max) matches Some((v, k)) ==> 1 <= k <= s.len(),
    decreases max_len,
{
    if max_len > 0 && s.len() > 0 && s[0] >= 128 && max_len > 1 {
        lemma_take_varint_len(s.drop_first(), (max_len - 1) as nat, last_max);
    }
}

/// A successful decode of a byte string reads at least one byte and no
/// more than the input holds.
pub proof fn lemma_take_bytes_len(s: Seq<u8>)
    ensures
        spec_take_bytes(s) matches Some((d, k)) ==> 1 <= k <= s.len() && d.len() < k,
{
    lemma_take_varint_len(s, 10, 1);
    lemma_take_varint_len(s, 5, 15);
}

} // verus!
