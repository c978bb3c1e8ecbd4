//! The external entropy capability.
//!
//! An [`EntropySource`] is an external collaborator providing a single
//! operation, `next_seed`, which may be slow or impure.  The library treats it
//! as opaque: nothing is assumed of the material it returns, only of how its
//! own state advances.  A deterministic, scripted implementation is provided
//! for reproducible runs.

use vstd::prelude::*;

use crate::seed::SeedMaterial;

verus! {

/// The external source could not produce seed material.  This is never
/// recovered locally; it propagates to the caller of the draw that triggered
/// the reseed.
#[derive(Clone, Copy, Debug, PartialEq, Eq, Structural)]
pub struct EntropySourceFailure;

/// An external provider of unpredictable bits.
///
/// `calls` counts how many times the source has been invoked; every
/// invocation, successful or not, increments it by one.  `next_seed_rel`
/// relates the source's state before and after one invocation to the material
/// the invocation produced; a deterministic implementation can pin the result
/// exactly, while a genuinely random one may leave it open.
pub trait EntropySource: Sized {
    /// How many times this source has been invoked.  The default leaves the
    /// count unspecified, for implementations that live outside the verified
    /// world; an implementation verified here gives it a real definition.
    open spec fn calls(&self) -> nat {
        arbitrary()
    }

    /// What one invocation may do: relates the state before, the state after,
    /// and the produced material.  The default assumes nothing.
    open spec fn next_seed_rel(
        pre: Self,
        post: Self,
        r: Result<SeedMaterial, EntropySourceFailure>,
    ) -> bool {
        true
    }

    /// Pull one unit of fresh seed material from the source.
    fn next_seed(&mut self) -> (r: Result<SeedMaterial, EntropySourceFailure>)
        ensures
            final(self).calls() == old(self).calls() + 1,
            Self::next_seed_rel(*old(self), *final(self), r),
    ;
}

/// The mathematical content of a scripted source: the scripted seed byte
/// sequences and how many of them have been handed out.
pub ghost struct ScriptView {
    pub script: Seq<Seq<u8>>,
    pub handed_out: nat,
}

/// A deterministic entropy source that replays a fixed script of seeds in
/// order and fails once the script is exhausted.
pub struct ScriptedEntropySource {
    seeds: Vec<SeedMaterial>,
    handed_out: usize,
    invocations: Ghost<nat>,
}

impl View for ScriptedEntropySource {
    type V = ScriptView;

    closed spec fn view(&self) -> ScriptView {
        ScriptView {
            script: self.seeds@.map_values(|m: SeedMaterial| m.bytes@),
            handed_out: self.handed_out as nat,
        }
    }
}

impl ScriptedEntropySource {
    /// Build a source that will hand out the given seeds in order.
    pub fn new(seeds: Vec<SeedMaterial>) -> (s: ScriptedEntropySource)
        ensures
            s@.script == seeds@.map_values(|m: SeedMaterial| m.bytes@),
            s@.handed_out == 0,
            s.calls() == 0,
    {
        ScriptedEntropySource { seeds, handed_out: 0, invocations: Ghost(0) }
    }

    /// How many scripted seeds have been handed out so far.
    pub fn seeds_used(&self) -> (n: usize)
        ensures
            n == self@.handed_out,
    {
        self.handed_out
    }
}

impl EntropySource for ScriptedEntropySource {
    closed spec fn calls(&self) -> nat {
        self.invocations@
    }

    /// A scripted invocation hands out the next scripted seed, or fails once
    /// the script is exhausted; the script itself never changes.
    open spec fn next_seed_rel(
        pre: Self,
        post: Self,
        r: Result<SeedMaterial, EntropySourceFailure>,
    ) -> bool {
        &&& post@.script == pre@.script
        &&& match r {
            Ok(s) => {
                &&& pre@.handed_out < pre@.script.len()
                &&& s.bytes@ == pre@.script[pre@.handed_out as int]
                &&& post@.handed_out == pre@.handed_out + 1
            },
            Err(e) => {
                &&& pre@.handed_out >= pre@.script.len()
                &&& post@.handed_out == pre@.handed_out
            },
        }
    }

    fn next_seed(&mut self) -> (r: Result<SeedMaterial, EntropySourceFailure>) {
        self.invocations = Ghost(self.invocations@ + 1);
        if self.handed_out < self.seeds.len() {
            let s = self.seeds[self.handed_out];
            self.handed_out = self.handed_out + 1;
            Ok(s)
        } else {
            Err(EntropySourceFailure)
        }
    }
}

/// A scripted invocation is a function of the source's state: from equal
/// states, two invocations hand out the same material (byte for byte) and
/// leave the source in the same model state.
pub proof fn lemma_scripted_next_seed_functional(
    pre: ScriptedEntropySource,
    post1: ScriptedEntropySource,
    r1: Result<SeedMaterial, EntropySourceFailure>,
    post2: ScriptedEntropySource,
    r2: Result<SeedMaterial, EntropySourceFailure>,
)
    requires
        ScriptedEntropySource::next_seed_rel(pre, post1, r1),
        ScriptedEntropySource::next_seed_rel(pre, post2, r2),
    ensures
        r1 is Ok <==> r2 is Ok,
        r1 matches Ok(a) ==> (r2 matches Ok(b) && a.bytes@ == b.bytes@),
        post1@ == post2@,
{
    assert(post1@ =~= post2@);
}

} // verus!
