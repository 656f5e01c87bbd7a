//! Integer helpers without a game type of their own: seed mixing, the
//! xorshift32 generator, and clamping a pixel span to an image.

use vstd::prelude::*;
use vstd::arithmetic::div_mod::{lemma_mod_multiples_vanish, lemma_mul_mod_noop_left, lemma_small_mod};
use vstd::arithmetic::mul::{lemma_mul_is_associative, lemma_mul_is_distributive_add};

verus! {

/// The multiplier applied to the first seed component.
pub const SEED_MUL_A: u32 = 73856093;
/// The multiplier applied to the second seed component.
pub const SEED_MUL_B: u32 = 19349663;
/// The multiplier applied to the third seed component.
pub const SEED_MUL_C: u32 = 83492791;
/// The constant mixed into every seed.
pub const SEED_SALT: u32 = 0x9E3779B9;

/// Multiplication modulo 2^32.
pub open spec fn mul_mod32(a: u32, b: u32) -> u32 {
    ((a as int * b as int) % 0x1_0000_0000) as u32
}

/// The seed made of three components.
pub open spec fn spec_mix_seeds(a: u32, b: u32, c: u32) -> u32 {
    mul_mod32(a, SEED_MUL_A) ^ mul_mod32(b, SEED_MUL_B) ^ mul_mod32(c, SEED_MUL_C) ^ SEED_SALT
}

/// Mixes three numbers into one seed.
pub fn mix_seeds(a: u32, b: u32, c: u32) -> (r: u32)
    ensures
        r == spec_mix_seeds(a, b, c),
{
    a.wrapping_mul(SEED_MUL_A) ^ b.wrapping_mul(SEED_MUL_B) ^ c.wrapping_mul(SEED_MUL_C) ^ SEED_SALT
}

/// Multiplying by `k` modulo 2^32 is undone by multiplying by `k_inv`, where
/// `k * k_inv == 1 + t * 2^32`.
proof fn mul_mod32_cancels(a: u32, k: u32, k_inv: u32, t: int)
    requires
        k as int * k_inv as int == 1 + 0x1_0000_0000 * t,
    ensures
        mul_mod32(mul_mod32(a, k), k_inv) == a,
{
    let m: int = 0x1_0000_0000;
    let x: int = a as int * k as int;
    lemma_mul_mod_noop_left(x, k_inv as int, m);
    lemma_mul_is_associative(a as int, k as int, k_inv as int);
    lemma_mul_is_distributive_add(a as int, 1, m * t);
    lemma_mul_is_associative(a as int, m, t);
    assert(a as int * (m * t) == m * (a as int * t)) by {
        vstd::arithmetic::mul::lemma_mul_is_commutative(a as int, m);
        lemma_mul_is_associative(m, a as int, t);
    }
    lemma_mod_multiples_vanish(a as int * t, a as int, m);
    lemma_small_mod(a as nat, m as nat);
}

/// Multiplying by an odd constant modulo 2^32 is one to one.
proof fn mul_mod32_injective(a: u32, b: u32, k: u32, k_inv: u32, t: int)
    requires
        k as int * k_inv as int == 1 + 0x1_0000_0000 * t,
        mul_mod32(a, k) == mul_mod32(b, k),
    ensures
        a == b,
{
    mul_mod32_cancels(a, k, k_inv, t);
    mul_mod32_cancels(b, k, k_inv, t);
}

/// Seeds that differ in their first component differ.
pub proof fn mix_seeds_separates_first(a1: u32, a2: u32, b: u32, c: u32)
    requires
        a1 != a2,
    ensures
        spec_mix_seeds(a1, b, c) != spec_mix_seeds(a2, b, c),
{
    let p = mul_mod32(a1, SEED_MUL_A);
    let q = mul_mod32(a2, SEED_MUL_A);
    if p == q {
        mul_mod32_injective(a1, a2, SEED_MUL_A, 727089141, 12502997);
    }
    assert(p != q ==> ((p ^ mul_mod32(b, SEED_MUL_B)) ^ mul_mod32(c, SEED_MUL_C)) ^ SEED_SALT
        != ((q ^ mul_mod32(b, SEED_MUL_B)) ^ mul_mod32(c, SEED_MUL_C)) ^ SEED_SALT) by (bit_vector);
}

/// Seeds that differ in their second component differ.
pub proof fn mix_seeds_separates_second(a: u32, b1: u32, b2: u32, c: u32)
    requires
        b1 != b2,
    ensures
        spec_mix_seeds(a, b1, c) != spec_mix_seeds(a, b2, c),
{
    let p = mul_mod32(b1, SEED_MUL_B);
    let q = mul_mod32(b2, SEED_MUL_B);
    if p == q {
        mul_mod32_injective(b1, b2, SEED_MUL_B, 2910444383, 13112118);
    }
    let x = mul_mod32(a, SEED_MUL_A);
    let z = mul_mod32(c, SEED_MUL_C);
    assert(p != q ==> ((x ^ p) ^ z) ^ SEED_SALT != ((x ^ q) ^ z) ^ SEED_SALT) by (bit_vector);
}

/// Seeds that differ in their third component differ.
pub proof fn mix_seeds_separates_third(a: u32, b: u32, c1: u32, c2: u32)
    requires
        c1 != c2,
    ensures
        spec_mix_seeds(a, b, c1) != spec_mix_seeds(a, b, c2),
{
    let p = mul_mod32(c1, SEED_MUL_C);
    let q = mul_mod32(c2, SEED_MUL_C);
    if p == q {
        mul_mod32_injective(c1, c2, SEED_MUL_C, 3695316487, 71835771);
    }
    let x = mul_mod32(a, SEED_MUL_A);
    let y = mul_mod32(b, SEED_MUL_B);
    assert(p != q ==> ((x ^ y) ^ p) ^ SEED_SALT != ((x ^ y) ^ q) ^ SEED_SALT) by (bit_vector);
}


/// One step of the xorshift32 generator.
pub open spec fn xorshift32(x: u32) -> u32 {
    let a = x ^ (x << 13u32);
    let b = a ^ (a >> 17u32);
    b ^ (b << 5u32)
}

/// The state after `n` steps of xorshift32 from `state`.
pub open spec fn xorshift32_steps(state: u32, n: nat) -> u32
    decreases n,
{
    if n == 0 {
        state
    } else {
        xorshift32(xorshift32_steps(state, (n - 1) as nat))
    }
}

/// A step of xorshift32 never turns a nonzero state into zero, so a generator
/// that starts from a nonzero state never degenerates into the constant zero stream.
pub proof fn xorshift32_keeps_nonzero(x: u32)
    requires
        x != 0,
    ensures
        xorshift32(x) != 0,
{
    assert(x != 0 ==> {
        let a = x ^ (x << 13u32);
        let b = a ^ (a >> 17u32);
        b ^ (b << 5u32) != 0
    }) by (bit_vector);
}

/// However many steps are taken, a generator started from a nonzero state
/// stays nonzero.
pub proof fn xorshift32_steps_keep_nonzero(state: u32, n: nat)
    requires
        state != 0,
    ensures
        xorshift32_steps(state, n) != 0,
    decreases n,
{
    if n > 0 {
        xorshift32_steps_keep_nonzero(state, (n - 1) as nat);
        xorshift32_keeps_nonzero(xorshift32_steps(state, (n - 1) as nat));
    }
}

/// A deterministic pseudo-random generator (xorshift32): the same seed always
/// gives the same stream.
pub struct SeededRng(u32);

impl SeededRng {
    /// The generator's current state.
    pub closed spec fn state(self) -> u32 {
        self.0
    }

    /// The state is never zero: zero is the one state that xorshift32 never leaves.
    #[verifier::type_invariant]
    closed spec fn nonzero(self) -> bool {
        self.0 != 0
    }

    /// A generator seeded with `seed`; the low bit is set so that the state is never zero.
    pub fn new(seed: u32) -> (r: Self)
        ensures
            r.state() == seed | 1u32,
            r.state() != 0,
    {
        assert(seed | 1u32 != 0) by (bit_vector);
        SeededRng(seed | 1)
    }

    /// Advances the generator one step and returns the new state.
    pub fn next_u32(&mut self) -> (r: u32)
        ensures
            r == xorshift32(old(self).state()),
            final(self).state() == r,
            r != 0,
    {
        proof {
            use_type_invariant(&*self);
            xorshift32_keeps_nonzero(self.0);
        }
        let mut x = self.0;
        x ^= x << 13u32;
        x ^= x >> 17u32;
        x ^= x << 5u32;
        self.0 = x;
        x
    }

    /// Advances the generator one step and returns the top 24 bits of the new
    /// state: the numerator of a uniform fraction of 2^24 in `[0, 1)`.
    pub fn next_unit_bits(&mut self) -> (r: u32)
        ensures
            final(self).state() == xorshift32(old(self).state()),
            r == xorshift32(old(self).state()) >> 8u32,
            r < 0x100_0000,
    {
        let x = self.next_u32();
        assert(x >> 8u32 < 0x100_0000) by (bit_vector);
        x >> 8
    }
}

/// The part `[start, end)` of `[lo, hi)` that lies within `[0, limit)`, where
/// `start` never exceeds `end`: an empty range when `hi` does not exceed `lo`.
pub open spec fn spec_pixel_span(lo: u32, hi: u32, limit: u32) -> (u32, u32) {
    let start = if lo < limit { lo } else { limit };
    let end = if hi < start { start } else if hi > limit { limit } else { hi };
    (start, end)
}

/// Clamps the pixel bounds `lo` (first pixel) and `hi` (one past the last) to an
/// image dimension of `limit` pixels, never letting the end fall below the start.
pub fn pixel_span(lo: u32, hi: u32, limit: u32) -> (r: (u32, u32))
    ensures
        r == spec_pixel_span(lo, hi, limit),
        r.0 <= r.1 <= limit,
{
    let start = if lo < limit { lo } else { limit };
    let end = if hi < start { start } else if hi > limit { limit } else { hi };
    (start, end)
}


/// The clamped span starts at `lo`, or at the image's end when `lo` lies beyond
/// it; it ends at `hi` when `hi` lies between the start and the image's end, at the
/// image's end when `hi` lies beyond it, and at the start (an empty span) when `hi`
/// does not pass the start.
pub proof fn pixel_span_clamps_to_the_image(lo: u32, hi: u32, limit: u32)
    ensures
        lo <= limit ==> spec_pixel_span(lo, hi, limit).0 == lo,
        lo > limit ==> spec_pixel_span(lo, hi, limit).0 == limit,
        spec_pixel_span(lo, hi, limit).0 <= hi <= limit ==> spec_pixel_span(lo, hi, limit).1 == hi,
        hi > limit ==> spec_pixel_span(lo, hi, limit).1 == limit,
        hi <= spec_pixel_span(lo, hi, limit).0 ==> spec_pixel_span(lo, hi, limit).1 == spec_pixel_span(lo, hi, limit).0,
{
}

} // verus!
