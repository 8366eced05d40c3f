//! Calibration data of one channel.
//!
//! The platform's configuration store holds, for each channel, a scale and an
//! offset as two big-endian single-precision numbers. A raw sample `raw`
//! stands for the value `raw * scale - offset`. The library carries both
//! numbers as bit patterns and leaves the arithmetic to the caller.

use vstd::prelude::*;

verus! {

/// The number of bytes that one entry of the configuration store must hold.
pub const ENTRY_LEN: usize = 8;

/// The 32-bit number that four bytes encode, most significant byte first.
pub open spec fn be_u32(b0: u8, b1: u8, b2: u8, b3: u8) -> u32 {
    (b0 * 0x100_0000 + b1 * 0x1_0000 + b2 * 0x100 + b3) as u32
}

/// Scale and offset of one channel, as single-precision bit patterns.
#[derive(Clone, Copy, PartialEq, Eq, Debug, Structural)]
pub struct Calibration {
    pub scale: u32,
    pub offset: u32,
}

impl Calibration {
    /// What an entry of the configuration store decodes to: the first four
    /// bytes are the scale, the next four the offset, and what follows is
    /// ignored. An entry of fewer than eight bytes decodes to nothing.
    pub open spec fn decode(data: Seq<u8>) -> Option<Calibration> {
        if data.len() < ENTRY_LEN {
            None
        } else {
            Some(
                Calibration {
                    scale: be_u32(data[0], data[1], data[2], data[3]),
                    offset: be_u32(data[4], data[5], data[6], data[7]),
                },
            )
        }
    }

    /// A calibration from its two bit patterns.
    pub fn new(scale: u32, offset: u32) -> (cal: Self)
        ensures
            cal == (Calibration { scale, offset }),
    {
        Calibration { scale, offset }
    }

    /// Decodes the entry `data` of the configuration store.
    pub fn from_bytes(data: &[u8]) -> (cal: Option<Self>)
        ensures
            cal == Self::decode(data@),
    {
        if data.len() < ENTRY_LEN {
            return None;
        }
        let scale = u32_from_be(data[0], data[1], data[2], data[3]);
        let offset = u32_from_be(data[4], data[5], data[6], data[7]);
        Some(Calibration { scale, offset })
    }
}

/// The 32-bit number that four bytes encode, most significant byte first.
pub fn u32_from_be(b0: u8, b1: u8, b2: u8, b3: u8) -> (val: u32)
    ensures
        val == be_u32(b0, b1, b2, b3),
        val == b0 * 0x100_0000 + b1 * 0x1_0000 + b2 * 0x100 + b3,
{
    let w0: u32 = b0 as u32;
    let w1: u32 = b1 as u32;
    let w2: u32 = b2 as u32;
    let w3: u32 = b3 as u32;
    w0 * 0x100_0000 + w1 * 0x1_0000 + w2 * 0x100 + w3
}

} // verus!
