//! The core bit-generator: a deterministic, seedable strategy that produces
//! the stream of words actually handed to callers between reseeds.
//!
//! The algorithm is a 64-bit additive-sequence generator with a two-round
//! multiply-xorshift output mix.  Its whole behaviour is stated by the spec
//! functions below: from a state `s`, one draw emits `core_word(s)` and moves
//! the state to `core_step(s)`.

use vstd::prelude::*;

use crate::seed::SeedMaterial;
use crate::seed::seed_value;

verus! {

/// The additive constant by which the state advances on every word drawn.
pub const STATE_INCREMENT: u64 = 0x9E37_79B9_7F4A_7C15;

/// First multiplier of the output mix.
pub const MIX_MULTIPLIER_1: u64 = 0xBF58_476D_1CE4_E5B9;

/// Second multiplier of the output mix.
pub const MIX_MULTIPLIER_2: u64 = 0x94D0_49BB_1331_11EB;

/// The state reached after one draw from state `s`.
pub open spec fn core_step(s: u64) -> u64 {
    vstd::wrapping::u64_specs::wrapping_add(s, STATE_INCREMENT)
}

/// The output mix applied to an advanced state.
pub open spec fn mix(z: u64) -> u64 {
    let z1 = vstd::wrapping::u64_specs::wrapping_mul(z ^ (z >> 30), MIX_MULTIPLIER_1);
    let z2 = vstd::wrapping::u64_specs::wrapping_mul(z1 ^ (z1 >> 27), MIX_MULTIPLIER_2);
    z2 ^ (z2 >> 31)
}

/// The 64-bit word emitted by one draw from state `s`.
pub open spec fn core_word(s: u64) -> u64 {
    mix(core_step(s))
}

/// The low 32 bits of a word.
pub open spec fn low32(w: u64) -> u32 {
    (w & 0xFFFF_FFFF) as u32
}

/// The state reached after `k` draws from state `s`.
pub open spec fn core_state_after(s: u64, k: nat) -> u64
    decreases k,
{
    if k == 0 {
        s
    } else {
        core_step(core_state_after(s, (k - 1) as nat))
    }
}

/// The `k`-th word (counting from zero) of the stream drawn from state `s`.
pub open spec fn word_in_stream(s: u64, k: nat) -> u64 {
    core_word(core_state_after(s, k))
}

/// How many whole words a buffer of `n` bytes consumes.
pub open spec fn words_for(n: nat) -> nat {
    (n + 7) / 8
}

/// Byte `j` (little-endian, `j < 8`) of the word `w`.
pub open spec fn byte_of_word(w: u64, j: nat) -> u8
    recommends
        j < 8,
{
    ((w >> ((8 * j) as u64)) & 0xFF) as u8
}

/// The `i`-th byte of the byte stream drawn from state `s`: the words of the
/// stream laid out little-endian, eight bytes each.
pub open spec fn byte_in_stream(s: u64, i: nat) -> u8 {
    byte_of_word(word_in_stream(s, i / 8), i % 8)
}

/// The core generator.  Its model is simply its 64-bit state.
pub struct CoreGenerator {
    state: u64,
}

impl View for CoreGenerator {
    type V = u64;

    closed spec fn view(&self) -> u64 {
        self.state
    }
}

impl CoreGenerator {
    /// A generator freshly initialized from the given seed material.
    pub fn from_seed(seed: &SeedMaterial) -> (g: CoreGenerator)
        ensures
            g@ == seed_value(seed.bytes@),
    {
        CoreGenerator { state: seed.word() }
    }

    /// Replace the whole state with a fresh one taken from the given seed
    /// material; the previous state is discarded.
    pub fn reseed(&mut self, seed: &SeedMaterial)
        ensures
            final(self)@ == seed_value(seed.bytes@),
    {
        self.state = seed.word();
    }

    /// Draw the next 64-bit word, advancing the state by one step.
    pub fn next_u64(&mut self) -> (r: u64)
        ensures
            final(self)@ == core_step(old(self)@),
            r == core_word(old(self)@),
    {
        let z = self.state.wrapping_add(STATE_INCREMENT);
        self.state = z;
        let z1 = (z ^ (z >> 30)).wrapping_mul(MIX_MULTIPLIER_1);
        let z2 = (z1 ^ (z1 >> 27)).wrapping_mul(MIX_MULTIPLIER_2);
        z2 ^ (z2 >> 31)
    }

    /// Draw the next word and keep its low 32 bits, advancing the state by
    /// one step.
    pub fn next_u32(&mut self) -> (r: u32)
        ensures
            final(self)@ == core_step(old(self)@),
            r == low32(core_word(old(self)@)),
    {
        let w = self.next_u64();
        let masked = w & 0xFFFF_FFFF;
        assert(w & 0xFFFF_FFFF < 0x1_0000_0000) by (bit_vector);
        masked as u32
    }

    /// Fill the whole buffer with the byte stream drawn from the current
    /// state, consuming exactly one word per eight bytes (rounded up).
    pub fn fill_bytes(&mut self, buf: &mut Vec<u8>)
        ensures
            final(buf)@.len() == old(buf)@.len(),
            forall|j: int|
                0 <= j < old(buf)@.len() ==> final(buf)@[j] == byte_in_stream(
                    old(self)@,
                    j as nat,
                ),
            final(self)@ == core_state_after(old(self)@, words_for(old(buf)@.len() as nat)),
    {
        let ghost s0: u64 = self@;
        let n = buf.len();
        let mut i: usize = 0;
        let mut w: u64 = 0;
        while i < n
            invariant
                i <= n,
                n == buf@.len(),
                self@ == core_state_after(s0, words_for(i as nat)),
                i % 8 != 0 ==> w == word_in_stream(s0, (i / 8) as nat),
                forall|j: int| 0 <= j < i ==> buf@[j] == byte_in_stream(s0, j as nat),
            decreases n - i,
        {
            if i % 8 == 0 {
                proof {
                    lemma_words_for_multiple(i as nat);
                }
                w = self.next_u64();
                proof {
                    lemma_state_after_unfold(s0, (i / 8) as nat);
                }
            }
            let r: usize = i % 8;
            let sh: u64 = (r as u64) * 8;
            let word = w;
            assert((word >> sh) & 0xFF < 0x100) by (bit_vector);
            assert(sh == (8 * ((i % 8) as nat)) as u64);
            let b: u8 = ((word >> sh) & 0xFF) as u8;
            assert(b == byte_of_word(w, (i % 8) as nat));
            buf[i] = b;
            proof {
                lemma_index_step(i as nat);
            }
            i = i + 1;
        }
    }
}

/// When `i` is a multiple of eight, a buffer of `i` bytes consumes exactly
/// `i / 8` words.
proof fn lemma_words_for_multiple(i: nat)
    requires
        i % 8 == 0,
    ensures
        words_for(i) == i / 8,
{
    vstd::arithmetic::div_mod::lemma_fundamental_div_mod(i as int, 8);
    vstd::arithmetic::div_mod::lemma_fundamental_div_mod_converse((i + 7) as int, 8, (i / 8) as int, 7);
}

/// Unfolding of `core_state_after` from the front: `k + 1` draws are `k`
/// draws followed by one step.
pub proof fn lemma_state_after_unfold(s: u64, k: nat)
    ensures
        core_state_after(s, k + 1) == core_step(core_state_after(s, k)),
{
}

/// How byte position `i + 1` relates to position `i`: which word it falls in
/// and how many words a buffer that long consumes.
proof fn lemma_index_step(i: nat)
    ensures
        words_for(i + 1) == i / 8 + 1,
        i % 8 != 7 ==> (i + 1) % 8 == i % 8 + 1 && (i + 1) / 8 == i / 8,
        i % 8 == 7 ==> (i + 1) % 8 == 0 && (i + 1) / 8 == i / 8 + 1,
        i % 8 == 0 ==> words_for(i) == i / 8,
{
    let q = i / 8;
    let r = i % 8;
    vstd::arithmetic::div_mod::lemma_fundamental_div_mod(i as int, 8);
    if r < 7 {
        vstd::arithmetic::div_mod::lemma_fundamental_div_mod_converse(
            (i + 1) as int,
            8,
            q as int,
            (r + 1) as int,
        );
    } else {
        vstd::arithmetic::div_mod::lemma_fundamental_div_mod_converse(
            (i + 1) as int,
            8,
            (q + 1) as int,
            0,
        );
    }
    vstd::arithmetic::div_mod::lemma_fundamental_div_mod_converse(
        (i + 1 + 7) as int,
        8,
        (q + 1) as int,
        r as int,
    );
    if r == 0 {
        vstd::arithmetic::div_mod::lemma_fundamental_div_mod_converse(
            (i + 7) as int,
            8,
            q as int,
            7,
        );
    }
}

} // verus!
