//! The protocol fingerprint: a CRC-16 of the version string.
use crate::net::constants::PROTOCOL_VERSION;
use vstd::prelude::*;
use vstd::string::StringSliceAdditionalSpecFns;

verus! {

/// One bit of CRC-16/CCITT: shift left, folding in the polynomial 0x1021
/// when the top bit falls out.
pub open spec fn crc16_shift(c: u16) -> u16 {
    if c & 0x8000u16 != 0 {
        (c << 1u16) ^ 0x1021u16
    } else {
        c << 1u16
    }
}

/// `k` bits of CRC-16/CCITT applied to `c`.
pub open spec fn crc16_shifts(c: u16, k: nat) -> u16
    decreases k,
{
    if k == 0 {
        c
    } else {
        crc16_shifts(crc16_shift(c), (k - 1) as nat)
    }
}

/// The register after one more byte, fed most significant bit first.
pub open spec fn crc16_byte(crc: u16, b: u8) -> u16 {
    crc16_shifts(crc ^ ((b as u16) << 8u16), 8)
}

/// CRC-16/CCITT-FALSE of `s`: polynomial 0x1021, initial value 0xFFFF,
/// bytes taken most significant bit first, no final xor.
pub open spec fn crc16(s: Seq<u8>) -> u16
    decreases s.len(),
{
    if s.len() == 0 {
        0xFFFFu16
    } else {
        crc16_byte(crc16(s.drop_last()), s.last())
    }
}

/// The fingerprint of this build's protocol version.
pub open spec fn version_crc() -> u16 {
    crc16(PROTOCOL_VERSION.spec_bytes())
}

fn crc16_update(crc: u16, b: u8) -> (r: u16)
    ensures
        r == crc16_byte(crc, b),
{
    let mut c: u16 = crc ^ ((b as u16) << 8u16);
    let mut i: u8 = 0;
    while i < 8
        invariant
            i <= 8,
            crc16_shifts(c, (8 - i) as nat) == crc16_byte(crc, b),
        decreases 8 - i,
    {
        c = if c & 0x8000u16 != 0 {
            (c << 1u16) ^ 0x1021u16
        } else {
            c << 1u16
        };
        i = i + 1;
    }
    c
}

pub struct ProtocolVersion;

impl ProtocolVersion {
    /// The CRC-16 of the protocol version string.
    pub fn get_crc16() -> (r: u16)
        ensures
            r == version_crc(),
    {
        let bytes = PROTOCOL_VERSION.as_bytes();
        let mut crc: u16 = 0xFFFFu16;
        let mut i: usize = 0;
        while i < bytes.len()
            invariant
                i <= bytes@.len(),
                bytes@ == PROTOCOL_VERSION.spec_bytes(),
                crc == crc16(bytes@.take(i as int)),
            decreases bytes@.len() - i,
        {
            assert(bytes@.take(i + 1).drop_last() == bytes@.take(i as int));
            crc = crc16_update(crc, bytes[i]);
            i = i + 1;
        }
        assert(bytes@.take(i as int) == bytes@);
        crc
    }

    /// Whether `version` is the fingerprint of this build's protocol version.
    pub fn valid_version(version: u16) -> (r: bool)
        ensures
            r == (version == version_crc()),
    {
        version == Self::get_crc16()
    }
}

} // verus!
