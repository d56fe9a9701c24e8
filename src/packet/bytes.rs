//! Big-endian integers on the wire, read and written through `byteorder`.
use byteorder::{BigEndian, ByteOrder};
use vstd::prelude::*;

verus! {

/// The two bytes of `n`, most significant first.
pub open spec fn be_u16_bytes(n: u16) -> Seq<u8> {
    seq![(n >> 8u16) as u8, n as u8]
}

/// The value of the first two bytes of `s`, read most significant first.
pub open spec fn be_u16_value(s: Seq<u8>) -> u16
    recommends
        s.len() >= 2,
{
    ((s[0] as u16) << 8u16) | (s[1] as u16)
}

/// The eight bytes of `n`, most significant first.
pub open spec fn be_u64_bytes(n: u64) -> Seq<u8> {
    seq![
        (n >> 56u64) as u8,
        (n >> 48u64) as u8,
        (n >> 40u64) as u8,
        (n >> 32u64) as u8,
        (n >> 24u64) as u8,
        (n >> 16u64) as u8,
        (n >> 8u64) as u8,
        n as u8,
    ]
}

/// The value of the first eight bytes of `s`, read most significant first.
pub open spec fn be_u64_value(s: Seq<u8>) -> u64
    recommends
        s.len() >= 8,
{
    ((s[0] as u64) << 56u64) | ((s[1] as u64) << 48u64) | ((s[2] as u64) << 40u64) | ((
    s[3] as u64) << 32u64) | ((s[4] as u64) << 24u64) | ((s[5] as u64) << 16u64) | ((
    s[6] as u64) << 8u64) | (s[7] as u64)
}

/// Reading back the bytes of a `u16` gives the `u16`, whatever follows them.
pub proof fn lemma_be_u16_round_trip(n: u16, rest: Seq<u8>)
    ensures
        (be_u16_bytes(n) + rest).len() == 2 + rest.len(),
        be_u16_value(be_u16_bytes(n) + rest) == n,
{
    let s = be_u16_bytes(n) + rest;
    assert(s[0] == (n >> 8u16) as u8 && s[1] == n as u8);
    let hi = (n >> 8u16) as u8;
    let lo = n as u8;
    assert((((hi as u16) << 8u16) | (lo as u16)) == n) by (bit_vector)
        requires
            hi == (n >> 8u16) as u8,
            lo == n as u8,
    ;
}

/// Reading back the bytes of a `u64` gives the `u64`, whatever follows them.
pub proof fn lemma_be_u64_round_trip(n: u64, rest: Seq<u8>)
    ensures
        (be_u64_bytes(n) + rest).len() == 8 + rest.len(),
        be_u64_value(be_u64_bytes(n) + rest) == n,
{
    let s = be_u64_bytes(n) + rest;
    let b0 = (n >> 56u64) as u8;
    let b1 = (n >> 48u64) as u8;
    let b2 = (n >> 40u64) as u8;
    let b3 = (n >> 32u64) as u8;
    let b4 = (n >> 24u64) as u8;
    let b5 = (n >> 16u64) as u8;
    let b6 = (n >> 8u64) as u8;
    let b7 = n as u8;
    assert(s[0] == b0 && s[1] == b1 && s[2] == b2 && s[3] == b3);
    assert(s[4] == b4 && s[5] == b5 && s[6] == b6 && s[7] == b7);
    assert(((b0 as u64) << 56u64) | ((b1 as u64) << 48u64) | ((b2 as u64) << 40u64) | ((
    b3 as u64) << 32u64) | ((b4 as u64) << 24u64) | ((b5 as u64) << 16u64) | ((b6 as u64)
        << 8u64) | (b7 as u64) == n) by (bit_vector)
        requires
            b0 == (n >> 56u64) as u8,
            b1 == (n >> 48u64) as u8,
            b2 == (n >> 40u64) as u8,
            b3 == (n >> 32u64) as u8,
            b4 == (n >> 24u64) as u8,
            b5 == (n >> 16u64) as u8,
            b6 == (n >> 8u64) as u8,
            b7 == n as u8,
    ;
}

/// Relies on `BigEndian::read_u16` of byteorder: the first two bytes of `buf`
/// as a big-endian integer. It panics on fewer than two bytes.
#[verifier::external_body]
pub(crate) fn read_be_u16(buf: &[u8]) -> (r: u16)
    requires
        buf@.len() >= 2,
    ensures
        r == be_u16_value(buf@),
{
    BigEndian::read_u16(buf)
}

/// Relies on `BigEndian::read_u64` of byteorder: the first eight bytes of `buf`
/// as a big-endian integer. It panics on fewer than eight bytes.
#[verifier::external_body]
pub(crate) fn read_be_u64(buf: &[u8]) -> (r: u64)
    requires
        buf@.len() >= 8,
    ensures
        r == be_u64_value(buf@),
{
    BigEndian::read_u64(buf)
}

/// Relies on `BigEndian::write_u16` of byteorder: it stores `n` big-endian in
/// the first two bytes of the buffer it is given.
#[verifier::external_body]
pub(crate) fn write_be_u16(n: u16) -> (r: [u8; 2])
    ensures
        r@ == be_u16_bytes(n),
{
    let mut buf = [0u8; 2];
    BigEndian::write_u16(&mut buf, n);
    buf
}

/// Relies on `BigEndian::write_u64` of byteorder: it stores `n` big-endian in
/// the first eight bytes of the buffer it is given.
#[verifier::external_body]
pub(crate) fn write_be_u64(n: u64) -> (r: [u8; 8])
    ensures
        r@ == be_u64_bytes(n),
{
    let mut buf = [0u8; 8];
    BigEndian::write_u64(&mut buf, n);
    buf
}

} // verus!

verus! {

/// Appends `bytes` to `buffer`.
pub(crate) fn append_bytes(buffer: &mut Vec<u8>, bytes: &[u8])
    ensures
        final(buffer)@ == old(buffer)@ + bytes@,
{
    let mut i: usize = 0;
    while i < bytes.len()
        invariant
            i <= bytes@.len(),
            buffer@ == old(buffer)@ + bytes@.take(i as int),
        decreases bytes@.len() - i,
    {
        buffer.push(bytes[i]);
        i = i + 1;
        assert(buffer@ == old(buffer)@ + bytes@.take(i as int));
    }
    assert(bytes@.take(i as int) == bytes@);
}

/// Relies on `Vec::into_boxed_slice`: the same elements, as a boxed slice.
#[verifier::external_body]
pub(crate) fn boxed(v: Vec<u8>) -> (r: Box<[u8]>)
    ensures
        r@ == v@,
{
    v.into_boxed_slice()
}

} // verus!
