//! A zero-state adapter exposing the entropy source directly as a
//! bit-generator, for callers who want unbuffered freshness: no internal
//! state, no budget, no locking — every call performs exactly one entropy
//! invocation.

use vstd::prelude::*;

use crate::core_gen::low32;
use crate::entropy::EntropySource;
use crate::entropy::EntropySourceFailure;
use crate::seed::SeedMaterial;
use crate::seed::seed_value;

verus! {

/// The direct facade: nothing but the entropy source it adapts.
pub struct DirectFacade<E: EntropySource> {
    source: E,
}

impl<E: EntropySource> View for DirectFacade<E> {
    type V = E;

    closed spec fn view(&self) -> E {
        self.source
    }
}

impl<E: EntropySource> DirectFacade<E> {
    /// Adapt the given entropy source.
    pub fn new(source: E) -> (f: DirectFacade<E>)
        ensures
            f@ == source,
    {
        DirectFacade { source }
    }

    /// One fresh 32-bit word: exactly one entropy invocation, and the result
    /// is read bit-exactly off the produced material — the low 32 bits of its
    /// little-endian value.
    pub fn next_u32(&mut self) -> (r: Result<u32, EntropySourceFailure>)
        ensures
            final(self)@.calls() == old(self)@.calls() + 1,
            match r {
                Ok(v) => exists|s: SeedMaterial|
                    #[trigger] E::next_seed_rel(old(self)@, final(self)@, Ok(s)) && v == low32(
                        seed_value(s.bytes@),
                    ),
                Err(e) => E::next_seed_rel(old(self)@, final(self)@, Err(e)),
            },
    {
        match self.source.next_seed() {
            Ok(seed) => {
                let w = seed.word();
                let masked = w & 0xFFFF_FFFF;
                assert(w & 0xFFFF_FFFF < 0x1_0000_0000) by (bit_vector);
                proof {
                    assert(E::next_seed_rel(old(self)@, self@, Ok(seed)) && (masked as u32)
                        == low32(seed_value(seed.bytes@)));
                }
                Ok(masked as u32)
            },
            Err(e) => Err(e),
        }
    }

    /// The entropy source behind the facade.
    pub fn source(&self) -> (e: &E)
        ensures
            e == self@,
    {
        &self.source
    }
}

} // verus!
