//! Fixed-size seed material: the raw bit pattern that initializes the core
//! generator.  It is produced by an entropy source and consumed exactly once
//! per reseed.

use vstd::prelude::*;

verus! {

/// The number of seed bytes: exactly the width of the core generator's state.
pub const SEED_BYTES: usize = 8;

/// An opaque, fixed-size bit pattern sufficient to initialize the core
/// generator.
#[derive(Clone, Copy, Debug)]
pub struct SeedMaterial {
    pub bytes: [u8; 8],
}

/// The 64-bit value encoded by eight seed bytes in little-endian order.
pub open spec fn seed_value(b: Seq<u8>) -> u64
    recommends
        b.len() == SEED_BYTES,
{
    (b[0] + b[1] * 0x100 + b[2] * 0x1_0000 + b[3] * 0x100_0000 + b[4] * 0x1_0000_0000 + b[5]
        * 0x100_0000_0000 + b[6] * 0x1_0000_0000_0000 + b[7] * 0x100_0000_0000_0000) as u64
}

impl SeedMaterial {
    /// Wrap eight raw bytes as seed material.
    pub fn new(bytes: [u8; 8]) -> (s: SeedMaterial)
        ensures
            s.bytes@ == bytes@,
    {
        SeedMaterial { bytes }
    }

    /// The seed as a single 64-bit word, read little-endian.
    pub fn word(&self) -> (w: u64)
        ensures
            w == seed_value(self.bytes@),
    {
        let b = &self.bytes;
        (b[0] as u64) + (b[1] as u64) * 0x100 + (b[2] as u64) * 0x1_0000 + (b[3] as u64)
            * 0x100_0000 + (b[4] as u64) * 0x1_0000_0000 + (b[5] as u64) * 0x100_0000_0000 + (
        b[6] as u64) * 0x1_0000_0000_0000 + (b[7] as u64) * 0x100_0000_0000_0000
    }
}

} // verus!
