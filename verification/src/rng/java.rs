use vstd::prelude::*;

use super::sts::swap_in_vec;

verus! {

/// Multiplier of the linear congruential generator of `java.util.Random`.
pub const JAVA_MULTIPLIER: u64 = 0x5DEECE66D;
/// Increment of the linear congruential generator of `java.util.Random`.
pub const JAVA_INCREMENT: u64 = 0xB;
/// The generator keeps 48 bits of state.
pub const JAVA_MASK: u64 = 0xFFFF_FFFF_FFFF;

/// Seed scrambling done by `java.util.Random(long seed)`.
pub open spec fn java_initial_scramble(seed: u64) -> u64 {
    (seed ^ JAVA_MULTIPLIER) & JAVA_MASK
}

/// One step of the linear congruential generator: `(seed * 0x5DEECE66D + 0xB) mod 2^48`,
/// computed in 64-bit wrapping arithmetic as Java does.
#[verifier::opaque]
pub open spec fn java_next_seed(seed: u64) -> u64 {
    vstd::wrapping::u64_specs::wrapping_add(
        vstd::wrapping::u64_specs::wrapping_mul(seed, JAVA_MULTIPLIER),
        JAVA_INCREMENT,
    ) & JAVA_MASK
}

/// The 31 high bits of a 48-bit seed: what `next(31)` returns.
pub open spec fn java_bits31(seed: u64) -> u64 {
    seed >> 17u64
}

/// `nextInt(bound)` when `bound` is a power of two: `(bound * next(31)) >> 31`.
pub open spec fn java_pow2_value(bound: u64, bits: u64) -> u64 {
    ((bound * bits) as u64) >> 31u64
}

/// One attempt of `nextInt(bound)`: the next state, whether the draw is accepted, and the
/// value it gives. Powers of two take `(bound * next(31)) >> 31` and are always accepted;
/// other bounds take `bits % bound`, accepted when `bits - bits % bound + (bound - 1)` does
/// not overflow a signed 32-bit integer.
pub open spec fn java_attempt(seed: u64, bound: u64) -> (u64, bool, u64) {
    let s = java_next_seed(seed);
    let bits = java_bits31(s);
    if bound & (bound - 1) as u64 == 0 {
        (s, true, java_pow2_value(bound, bits))
    } else {
        let value = bits % bound;
        (s, bits - value + (bound - 1) <= i32::MAX, value)
    }
}

/// `nextInt(bound)`: attempts until one is accepted. The draw budget `fuel` only bounds the
/// recursion; an attempt is rejected with probability below one half.
pub open spec fn java_next_int(seed: u64, bound: u64, fuel: nat) -> (u64, u64)
    decreases fuel,
{
    let (s, accepted, value) = java_attempt(seed, bound);
    if accepted || fuel == 0 {
        (s, value)
    } else {
        java_next_int(s, bound, (fuel - 1) as nat)
    }
}

/// The sequence `s` with the elements at `i` and `j` exchanged.
pub open spec fn seq_swap<T>(s: Seq<T>, i: int, j: int) -> Seq<T> {
    s.update(i, s[j]).update(j, s[i])
}

/// `Collections.shuffle` on the first `i` elements of `s`, starting from generator state `seed`:
/// the shuffled sequence and the generator state afterwards.
pub open spec fn java_shuffle<T>(s: Seq<T>, seed: u64, i: nat) -> (Seq<T>, u64)
    decreases i,
{
    if i <= 1 {
        (s, seed)
    } else {
        let (next_seed, j) = java_next_int(seed, i as u64, 0xFFFF_FFFF);
        java_shuffle(seq_swap(s, i - 1, j as int), next_seed, (i - 1) as nat)
    }
}

/// `java.util.Random`, as the game uses it for a few shuffles.
#[derive(Debug)]
pub struct JavaRandom {
    pub seed: u64,
}

/// The state after one step stays within 48 bits, and the 31 bits drawn are below 2^31.
pub proof fn lemma_java_step_bounds(seed: u64)
    ensures
        java_next_seed(seed) <= JAVA_MASK,
        java_bits31(java_next_seed(seed)) < 0x8000_0000,
{
    reveal(java_next_seed);
    let m = vstd::wrapping::u64_specs::wrapping_add(
        vstd::wrapping::u64_specs::wrapping_mul(seed, JAVA_MULTIPLIER),
        JAVA_INCREMENT,
    );
    assert((m & 0xFFFF_FFFF_FFFFu64) <= 0xFFFF_FFFF_FFFFu64) by (bit_vector);
    let s = m & 0xFFFF_FFFF_FFFFu64;
    assert(s <= 0xFFFF_FFFF_FFFFu64 ==> (s >> 17u64) < 0x8000_0000u64) by (bit_vector);
}

/// `(bound * bits) >> 31` is below `bound` when `bits < 2^31`.
pub proof fn lemma_pow2_value_below(bound: u64, bits: u64)
    requires
        0 < bound <= 0x8000_0000,
        bits < 0x8000_0000,
    ensures
        java_pow2_value(bound, bits) < bound,
        bound * bits <= u64::MAX,
{
    assert(bound * bits < bound * 0x8000_0000) by (nonlinear_arith)
        requires
            0 < bound,
            bits < 0x8000_0000,
    ;
    assert(bound * 0x8000_0000 <= 0x8000_0000 * 0x8000_0000) by (nonlinear_arith)
        requires
            bound <= 0x8000_0000,
    ;
    let p = (bound * bits) as u64;
    assert(p >> 31u64 == p / 0x8000_0000u64) by (bit_vector);
    assert(p / 0x8000_0000 < bound) by (nonlinear_arith)
        requires
            p < bound * 0x8000_0000,
            0 < bound,
    ;
}

/// One attempt answers below `bound` and keeps the state within 48 bits.
pub proof fn lemma_java_attempt_bounds(seed: u64, bound: u64)
    requires
        0 < bound <= 0x8000_0000,
    ensures
        java_attempt(seed, bound).2 < bound,
        java_attempt(seed, bound).0 <= JAVA_MASK,
{
    lemma_java_step_bounds(seed);
    let s = java_next_seed(seed);
    let bits = java_bits31(s);
    if bound & (bound - 1) as u64 == 0 {
        lemma_pow2_value_below(bound, bits);
    }
}

/// `nextInt(bound)` answers below `bound` and keeps the state within 48 bits.
pub proof fn lemma_java_next_int_bounds(seed: u64, bound: u64, fuel: nat)
    requires
        0 < bound <= 0x8000_0000,
    ensures
        java_next_int(seed, bound, fuel).1 < bound,
        java_next_int(seed, bound, fuel).0 <= JAVA_MASK,
    decreases fuel,
{
    lemma_java_attempt_bounds(seed, bound);
    let (s, accepted, value) = java_attempt(seed, bound);
    if !(accepted || fuel == 0) {
        lemma_java_next_int_bounds(s, bound, (fuel - 1) as nat);
    }
}

/// `Collections.shuffle` only reorders: the multiset of elements and the length are kept.
pub proof fn lemma_java_shuffle_keeps_multiset<T>(s: Seq<T>, seed: u64, i: nat)
    requires
        i <= s.len(),
        i <= 0x8000_0000,
    ensures
        java_shuffle(s, seed, i).0.to_multiset() == s.to_multiset(),
        java_shuffle(s, seed, i).0.len() == s.len(),
    decreases i,
{
    if i > 1 {
        let (next_seed, j) = java_next_int(seed, i as u64, 0xFFFF_FFFF);
        lemma_java_next_int_bounds(seed, i as u64, 0xFFFF_FFFF);
        crate::rng::sts::lemma_swap_keeps_multiset(s, i - 1, j as int);
        lemma_java_shuffle_keeps_multiset(seq_swap(s, i - 1, j as int), next_seed, (i - 1) as nat);
    }
}

/// One step of the linear congruential generator.
fn java_next_seed_exec(seed: u64) -> (r: u64)
    ensures
        r == java_next_seed(seed),
{
    reveal(java_next_seed);
    seed.wrapping_mul(JAVA_MULTIPLIER).wrapping_add(JAVA_INCREMENT) & JAVA_MASK
}

/// One attempt of `nextInt(bound)`.
fn java_attempt_exec(seed: u64, bound: u64) -> (r: (u64, bool, u64))
    requires
        0 < bound <= 0x8000_0000,
    ensures
        r == java_attempt(seed, bound),
{
    proof {
        lemma_java_step_bounds(seed);
    }
    let s = java_next_seed_exec(seed);
    let bits = s >> 17u64;
    if bound & (bound - 1) == 0 {
        proof {
            lemma_pow2_value_below(bound, bits);
        }
        let product: u64 = bound * bits;
        (s, true, product >> 31u64)
    } else {
        let value = bits % bound;
        assert(value <= bits) by (nonlinear_arith)
            requires
                value == bits % bound,
                bound > 0,
        ;
        (s, bits - value + (bound - 1) <= 0x7FFF_FFFF, value)
    }
}

impl JavaRandom {
    /// Seeds the generator as `new java.util.Random(seed)` does.
    pub fn from_u64(seed: u64) -> (r: JavaRandom)
        ensures
            r.seed == java_initial_scramble(seed),
            r.seed <= JAVA_MASK,
    {
        let scrambled = (seed ^ JAVA_MULTIPLIER) & JAVA_MASK;
        assert(((seed ^ 0x5DEECE66Du64) & 0xFFFF_FFFF_FFFFu64) <= 0xFFFF_FFFF_FFFFu64) by (bit_vector);
        JavaRandom { seed: scrambled }
    }

    /// `java.util.Random.nextInt(bound)`.
    pub fn next_int(&mut self, bound: u64) -> (r: u64)
        requires
            0 < bound <= 0x8000_0000,
        ensures
            r < bound,
            final(self).seed <= JAVA_MASK,
            (final(self).seed, r) == java_next_int(old(self).seed, bound, 0xFFFF_FFFF),
    {
        proof {
            lemma_java_next_int_bounds(self.seed, bound, 0xFFFF_FFFF);
        }
        let ghost start = self.seed;
        let mut fuel: u64 = 0xFFFF_FFFF;
        loop
            invariant
                0 < bound <= 0x8000_0000,
                fuel <= 0xFFFF_FFFF,
                start == old(self).seed,
                java_next_int(start, bound, 0xFFFF_FFFF).1 < bound,
                java_next_int(start, bound, 0xFFFF_FFFF).0 <= JAVA_MASK,
                java_next_int(start, bound, 0xFFFF_FFFF) == java_next_int(self.seed, bound, fuel as nat),
            decreases fuel,
        {
            let ghost before = self.seed;
            let (s, accepted, value) = java_attempt_exec(self.seed, bound);
            self.seed = s;
            if accepted || fuel == 0 {
                assert(java_next_int(before, bound, fuel as nat) == (s, value));
                return value;
            }
            fuel = fuel - 1;
        }
    }

    /// `java.util.Collections.shuffle(list, random)`: for `i` from the length down to 2,
    /// swap element `i - 1` with element `nextInt(i)`.
    pub fn shuffle<T>(&mut self, v: &mut Vec<T>)
        requires
            old(v)@.len() <= 0x8000_0000,
        ensures
            (final(v)@, final(self).seed) == java_shuffle(old(v)@, old(self).seed, old(v)@.len()),
            final(v)@.to_multiset() == old(v)@.to_multiset(),
            final(v)@.len() == old(v)@.len(),
    {
        proof {
            lemma_java_shuffle_keeps_multiset(v@, self.seed, v@.len());
        }
        let n = v.len();
        let mut i = n;
        while i > 1
            invariant
                n <= 0x8000_0000,
                v@.len() == n,
                i <= n,
                java_shuffle(old(v)@, old(self).seed, n as nat) == java_shuffle(v@, self.seed, i as nat),
            decreases i,
        {
            let j = self.next_int(i as u64);
            swap_in_vec(v, i - 1, j as usize);
            i = i - 1;
        }
    }
}

} // verus!
