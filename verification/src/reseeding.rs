//! The reseeding generator: a core generator plus a draw budget.
//!
//! Every output-producing call is a *counted draw*.  Before producing output
//! the draw checks the remaining budget; if it is zero, the draw pulls fresh
//! seed material from the entropy source, reinitializes the core generator
//! from it and resets the budget to the configured threshold.  The draw then
//! decrements the budget by one (a call counts as one draw no matter how many
//! bytes or words it emits) and delegates to the core generator.
//!
//! A threshold of zero is a valid, if wasteful, configuration: the budget
//! stays at zero and every draw reseeds.

use vstd::prelude::*;

use crate::core_gen::CoreGenerator;
use crate::core_gen::byte_in_stream;
use crate::core_gen::core_state_after;
use crate::core_gen::core_step;
use crate::core_gen::core_word;
use crate::core_gen::low32;
use crate::core_gen::words_for;
use crate::entropy::EntropySource;
use crate::entropy::EntropySourceFailure;
use crate::seed::SeedMaterial;
use crate::seed::seed_value;

verus! {

/// The model of a reseeding generator: the core state, the draw budget, the
/// configured threshold, and the entropy source bound to it.
pub ghost struct GenModel<E> {
    pub core: u64,
    pub budget: nat,
    pub threshold: nat,
    pub source: E,
}

/// A budget decremented by one, staying at zero: with a threshold of zero the
/// budget never rises above zero.
pub open spec fn dec_or_zero(b: nat) -> nat {
    if b > 0 {
        (b - 1) as nat
    } else {
        0
    }
}

/// One counted draw that emits `words` core words, read off from core state
/// `sstate`.  Either the budget was positive and the draw serves from the
/// current core state, or the budget was exhausted and the draw serves from a
/// core state freshly initialized from one successful entropy invocation.
pub open spec fn serves_from<E: EntropySource>(
    pre: GenModel<E>,
    post: GenModel<E>,
    sstate: u64,
    words: nat,
) -> bool {
    &&& post.threshold == pre.threshold
    &&& post.core == core_state_after(sstate, words)
    &&& if pre.budget > 0 {
        &&& sstate == pre.core
        &&& post.source == pre.source
        &&& post.budget == pre.budget - 1
    } else {
        &&& exists|s: SeedMaterial|
            #[trigger] E::next_seed_rel(pre.source, post.source, Ok(s)) && sstate == seed_value(
                s.bytes@,
            )
        &&& post.source.calls() == pre.source.calls() + 1
        &&& post.budget == dec_or_zero(pre.threshold)
    }
}

/// A counted draw that failed: the budget was exhausted and the entropy
/// invocation it forced did not produce material.  The core state and the
/// budget are left as they were; only the source advanced.
pub open spec fn draw_fails<E: EntropySource>(
    pre: GenModel<E>,
    post: GenModel<E>,
    e: EntropySourceFailure,
) -> bool {
    &&& pre.budget == 0
    &&& E::next_seed_rel(pre.source, post.source, Err(e))
    &&& post.source.calls() == pre.source.calls() + 1
    &&& post.core == pre.core
    &&& post.budget == 0
    &&& post.threshold == pre.threshold
}

/// What one `next_u32` draw does: on success it emits the low 32 bits of one
/// word served as `serves_from` says; on failure, `draw_fails`.
pub open spec fn u32_draw<E: EntropySource>(
    pre: GenModel<E>,
    post: GenModel<E>,
    r: Result<u32, EntropySourceFailure>,
) -> bool {
    match r {
        Ok(v) => exists|sstate: u64|
            #[trigger] serves_from(pre, post, sstate, 1) && v == low32(core_word(sstate)),
        Err(e) => draw_fails(pre, post, e),
    }
}

/// What one `next_u64` draw does.
pub open spec fn u64_draw<E: EntropySource>(
    pre: GenModel<E>,
    post: GenModel<E>,
    r: Result<u64, EntropySourceFailure>,
) -> bool {
    match r {
        Ok(v) => exists|sstate: u64|
            #[trigger] serves_from(pre, post, sstate, 1) && v == core_word(sstate),
        Err(e) => draw_fails(pre, post, e),
    }
}

/// What one `fill_bytes` draw does: on success the whole buffer holds the
/// byte stream of one served core state, and the draw consumed one word per
/// eight bytes (rounded up) — still a single counted draw.
pub open spec fn fill_draw<E: EntropySource>(
    pre: GenModel<E>,
    post: GenModel<E>,
    out: Seq<u8>,
    r: Result<(), EntropySourceFailure>,
) -> bool {
    match r {
        Ok(u) => exists|sstate: u64|
            #[trigger] serves_from(pre, post, sstate, words_for(out.len())) && forall|j: int|
                0 <= j < out.len() ==> out[j] == byte_in_stream(sstate, j as nat),
        Err(e) => draw_fails(pre, post, e),
    }
}

/// A deterministic, seedable bit-generator whose state is refreshed from an
/// external entropy source every `reseed_threshold` draws.
pub struct ReseedingGenerator<E: EntropySource> {
    inner: CoreGenerator,
    remaining_budget: u64,
    reseed_threshold: u64,
    reseeder: E,
}

impl<E: EntropySource> View for ReseedingGenerator<E> {
    type V = GenModel<E>;

    closed spec fn view(&self) -> GenModel<E> {
        GenModel {
            core: self.inner@,
            budget: self.remaining_budget as nat,
            threshold: self.reseed_threshold as nat,
            source: self.reseeder,
        }
    }
}

impl<E: EntropySource> ReseedingGenerator<E> {
    /// The budget never exceeds the threshold.
    pub open spec fn wf(&self) -> bool {
        self@.budget <= self@.threshold
    }

    /// A generator freshly seeded from the given material, with a full
    /// budget.
    pub fn new(seed: &SeedMaterial, reseed_threshold: u64, reseeder: E) -> (g: ReseedingGenerator<
        E,
    >)
        ensures
            g.wf(),
            g@.core == seed_value(seed.bytes@),
            g@.budget == reseed_threshold,
            g@.threshold == reseed_threshold,
            g@.source == reseeder,
    {
        ReseedingGenerator {
            inner: CoreGenerator::from_seed(seed),
            remaining_budget: reseed_threshold,
            reseed_threshold,
            reseeder,
        }
    }

    /// A generator seeded by one invocation of the entropy source itself.  If
    /// that invocation fails, the failure propagates and no generator is
    /// built.
    pub fn from_source(reseed_threshold: u64, reseeder: E) -> (r: Result<
        ReseedingGenerator<E>,
        EntropySourceFailure,
    >)
        ensures
            match r {
                Ok(g) => {
                    &&& g.wf()
                    &&& g@.budget == reseed_threshold
                    &&& g@.threshold == reseed_threshold
                    &&& g@.source.calls() == reseeder.calls() + 1
                    &&& exists|s: SeedMaterial|
                        #[trigger] E::next_seed_rel(reseeder, g@.source, Ok(s)) && g@.core
                            == seed_value(s.bytes@)
                },
                Err(e) => exists|post: E|
                    #[trigger] E::next_seed_rel(reseeder, post, Err(e)) && post.calls()
                        == reseeder.calls() + 1,
            },
    {
        let mut source = reseeder;
        match source.next_seed() {
            Ok(seed) => Ok(ReseedingGenerator::new(&seed, reseed_threshold, source)),
            Err(e) => {
                proof {
                    assert(E::next_seed_rel(reseeder, source, Err(e)) && source.calls()
                        == reseeder.calls() + 1);
                }
                Err(e)
            },
        }
    }

    /// If the budget is exhausted, pull fresh material and reset it; then
    /// take one unit of budget.  On return with `Ok`, the budget unit for the
    /// present draw has been taken and the core generator is ready to serve.
    fn take_budget(&mut self) -> (r: Result<(), EntropySourceFailure>)
        requires
            old(self).wf(),
        ensures
            final(self).wf(),
            final(self)@.threshold == old(self)@.threshold,
            match r {
                Ok(u) => {
                    &&& if old(self)@.budget > 0 {
                        &&& final(self)@.core == old(self)@.core
                        &&& final(self)@.source == old(self)@.source
                        &&& final(self)@.budget == old(self)@.budget - 1
                    } else {
                        &&& exists|s: SeedMaterial|
                            #[trigger] E::next_seed_rel(
                                old(self)@.source,
                                final(self)@.source,
                                Ok(s),
                            ) && final(self)@.core == seed_value(s.bytes@)
                        &&& final(self)@.source.calls() == old(self)@.source.calls() + 1
                        &&& final(self)@.budget == dec_or_zero(old(self)@.threshold)
                    }
                },
                Err(e) => draw_fails(old(self)@, final(self)@, e),
            },
            old(self)@.budget > 0 ==> r is Ok,
    {
        if self.remaining_budget == 0 {
            match self.reseeder.next_seed() {
                Ok(seed) => {
                    self.inner.reseed(&seed);
                    self.remaining_budget = self.reseed_threshold;
                    if self.remaining_budget > 0 {
                        self.remaining_budget = self.remaining_budget - 1;
                    }
                    proof {
                        assert(E::next_seed_rel(old(self)@.source, self@.source, Ok(seed))
                            && self@.core == seed_value(seed.bytes@));
                    }
                },
                Err(e) => {
                    return Err(e);
                },
            }
        } else {
            self.remaining_budget = self.remaining_budget - 1;
        }
        Ok(())
    }

    /// One counted draw of a 32-bit word.
    pub fn next_u32(&mut self) -> (r: Result<u32, EntropySourceFailure>)
        requires
            old(self).wf(),
        ensures
            final(self).wf(),
            u32_draw(old(self)@, final(self)@, r),
            old(self)@.budget > 0 ==> r is Ok,
    {
        match self.take_budget() {
            Ok(u) => {
                let ghost sstate: u64 = self@.core;
                let v = self.inner.next_u32();
                proof {
                    crate::core_gen::lemma_state_after_unfold(sstate, 0);
                    assert(serves_from(old(self)@, self@, sstate, 1));
                }
                Ok(v)
            },
            Err(e) => Err(e),
        }
    }

    /// One counted draw of a 64-bit word.
    pub fn next_u64(&mut self) -> (r: Result<u64, EntropySourceFailure>)
        requires
            old(self).wf(),
        ensures
            final(self).wf(),
            u64_draw(old(self)@, final(self)@, r),
            old(self)@.budget > 0 ==> r is Ok,
    {
        match self.take_budget() {
            Ok(u) => {
                let ghost sstate: u64 = self@.core;
                let v = self.inner.next_u64();
                proof {
                    crate::core_gen::lemma_state_after_unfold(sstate, 0);
                    assert(serves_from(old(self)@, self@, sstate, 1));
                }
                Ok(v)
            },
            Err(e) => Err(e),
        }
    }

    /// One counted draw that fills the whole buffer — a single draw no matter
    /// how long the buffer is.  On failure the buffer is left as it was.
    pub fn fill_bytes(&mut self, buf: &mut Vec<u8>) -> (r: Result<(), EntropySourceFailure>)
        requires
            old(self).wf(),
        ensures
            final(self).wf(),
            final(buf)@.len() == old(buf)@.len(),
            fill_draw(old(self)@, final(self)@, final(buf)@, r),
            r is Err ==> final(buf)@ == old(buf)@,
            old(self)@.budget > 0 ==> r is Ok,
    {
        match self.take_budget() {
            Ok(u) => {
                let ghost sstate: u64 = self@.core;
                self.inner.fill_bytes(buf);
                proof {
                    assert(serves_from(old(self)@, self@, sstate, words_for(buf@.len() as nat)));
                }
                Ok(())
            },
            Err(e) => Err(e),
        }
    }

    /// The configured reseed threshold.
    pub fn threshold(&self) -> (t: u64)
        ensures
            t == self@.threshold,
    {
        self.reseed_threshold
    }

    /// How much of the draw budget is left before the next reseed.
    pub fn budget_left(&self) -> (b: u64)
        ensures
            b == self@.budget,
    {
        self.remaining_budget
    }

    /// The entropy source bound to this generator.
    pub fn source(&self) -> (e: &E)
        ensures
            e == self@.source,
    {
        &self.reseeder
    }
}

} // verus!
