//! A shared handle: one reseeding generator behind a verified exclusive
//! lock, so that many threads can draw from the same generator.
//!
//! Every draw acquires the lock for the duration of exactly one generator
//! call and releases it again, so all draws are serialized: each one operates
//! on the generator state exactly as the immediately preceding draw left it,
//! and the lock's invariant — a well-formed generator with the configured
//! threshold — holds between any two draws, whatever their interleaving.
//! Verified code cannot terminate abnormally while holding the lock, so no
//! draw ever observes a half-updated generator and no lock failure is ever
//! surfaced to a caller.

use vstd::prelude::*;

use vstd::rwlock::RwLock;
use vstd::rwlock::RwLockPredicate;

use crate::entropy::EntropySource;
use crate::entropy::EntropySourceFailure;
use crate::reseeding::ReseedingGenerator;

verus! {

/// The lock invariant: the guarded generator is well formed and keeps the
/// threshold the handle was built with.
pub ghost struct GenPred {
    pub threshold: nat,
}

impl<E: EntropySource> RwLockPredicate<ReseedingGenerator<E>> for GenPred {
    open spec fn inv(self, g: ReseedingGenerator<E>) -> bool {
        g.wf() && g@.threshold == self.threshold
    }
}

/// One reseeding generator guarded by an exclusive lock.  The handle itself
/// is shared by reference; the generator is mutated only by whoever holds
/// the lock.
pub struct SharedHandle<E: EntropySource> {
    lock: RwLock<ReseedingGenerator<E>, GenPred>,
}

impl<E: EntropySource> SharedHandle<E> {
    /// The threshold every generator state guarded by this handle keeps.
    pub closed spec fn threshold(&self) -> nat {
        self.lock.pred().threshold
    }

    /// Put an explicitly constructed generator behind a lock.
    pub fn new(gen: ReseedingGenerator<E>) -> (h: SharedHandle<E>)
        requires
            gen.wf(),
        ensures
            h.threshold() == gen@.threshold,
    {
        let ghost pred = GenPred { threshold: gen@.threshold };
        let lock = RwLock::new(gen, Ghost(pred));
        SharedHandle { lock }
    }

    /// Build the guarded generator by one invocation of the entropy source.
    /// If that invocation fails, the failure propagates and no handle is
    /// built.
    pub fn from_source(reseed_threshold: u64, reseeder: E) -> (r: Result<
        SharedHandle<E>,
        EntropySourceFailure,
    >)
        ensures
            r matches Ok(h) ==> h.threshold() == reseed_threshold,
    {
        match ReseedingGenerator::from_source(reseed_threshold, reseeder) {
            Ok(g) => Ok(SharedHandle::new(g)),
            Err(e) => Err(e),
        }
    }

    /// One counted 32-bit draw under the lock, held for exactly this call.
    pub fn next_u32(&self) -> (r: Result<u32, EntropySourceFailure>) {
        let (mut gen, handle) = self.lock.acquire_write();
        let r = gen.next_u32();
        handle.release_write(gen);
        r
    }

    /// One counted 64-bit draw under the lock, held for exactly this call.
    pub fn next_u64(&self) -> (r: Result<u64, EntropySourceFailure>) {
        let (mut gen, handle) = self.lock.acquire_write();
        let r = gen.next_u64();
        handle.release_write(gen);
        r
    }

    /// One counted draw filling the whole buffer under the lock, held for
    /// exactly this call.  On failure the buffer is left as it was.
    pub fn fill_bytes(&self, buf: &mut Vec<u8>) -> (r: Result<(), EntropySourceFailure>)
        ensures
            final(buf)@.len() == old(buf)@.len(),
            r is Err ==> final(buf)@ == old(buf)@,
    {
        let (mut gen, handle) = self.lock.acquire_write();
        let r = gen.fill_bytes(buf);
        handle.release_write(gen);
        r
    }
}

} // verus!
