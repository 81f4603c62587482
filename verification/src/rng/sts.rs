use vstd::prelude::*;
use vstd::wrapping::u64_specs;

use super::java::{java_initial_scramble, java_shuffle, JavaRandom, JAVA_MASK};
use super::precision::{lemma_round_below_power, lemma_two_pow_values, round_single, single_round};
use super::seed::Seed;
use crate::data::Card;

verus! {

broadcast use vstd::seq_lib::group_to_multiset_ensures;

/// The abstract state of an `StsRandom`: the two words of the xorshift state, the number of
/// draws made so far (wrapping), and the seed it was created from.
pub struct RngState {
    pub state0: u64,
    pub state1: u64,
    pub counter: usize,
    pub initial_seed: u64,
}

/// The counter after one more draw (wrapping at `usize::MAX`).
pub open spec fn tick(counter: usize) -> usize {
    if counter == usize::MAX {
        0
    } else {
        (counter + 1) as usize
    }
}

/// The finalizer of MurmurHash3, used to derive the xorshift state from a seed.
pub open spec fn murmur_hash_3(x: u64) -> u64 {
    let x1 = x ^ (x >> 33u64);
    let x2 = u64_specs::wrapping_mul(x1, 0xff51afd7ed558ccd);
    let x3 = x2 ^ (x2 >> 33u64);
    let x4 = u64_specs::wrapping_mul(x3, 0xc4ceb9fe1a85ec53);
    x4 ^ (x4 >> 33u64)
}

/// The state of a generator freshly created from `seed` (0 is replaced by `1 << 63`).
pub open spec fn seeded_state(seed: u64) -> RngState {
    let s0 = murmur_hash_3(if seed == 0 { 0x8000_0000_0000_0000u64 } else { seed });
    RngState { state0: s0, state1: murmur_hash_3(s0), counter: 0, initial_seed: seed }
}

/// One step of the xorshift128+ generator: the next state and the value drawn.
pub open spec fn rng_step(st: RngState) -> (RngState, u64) {
    let s1 = st.state0;
    let s0 = st.state1;
    let a = s1 ^ (s1 << 23u64);
    let new1 = a ^ s0 ^ (a >> 17u64) ^ (s0 >> 26u64);
    (
        RngState { state0: s0, state1: new1, counter: tick(st.counter), initial_seed: st.initial_seed },
        u64_specs::wrapping_add(new1, s0),
    )
}

/// The state after `n` draws.
pub open spec fn rng_advance(st: RngState, n: nat) -> RngState
    decreases n,
{
    if n == 0 {
        st
    } else {
        rng_advance(rng_step(st).0, (n - 1) as nat)
    }
}

/// Whether a 63-bit draw `bits` is accepted by rejection sampling for `bound`: the bucket of
/// `bits` must be complete, i.e. `bits - bits % bound + bound - 1` must not reach bit 63.
pub open spec fn accepts(bits: u64, bound: u64) -> bool {
    let value = bits % bound;
    u64_specs::wrapping_sub(u64_specs::wrapping_add(u64_specs::wrapping_sub(bits, value), bound), 1)
        & 0x8000_0000_0000_0000u64 == 0
}

/// Rejection sampling of a value in `[0, bound)`: draw until `accepts`, with a draw budget that
/// only bounds the recursion (each draw is accepted with probability at least one half).
pub open spec fn bounded_draw(st: RngState, bound: u64, fuel: nat) -> (RngState, u64)
    decreases fuel,
{
    let (next, raw) = rng_step(st);
    let bits = raw >> 1u64;
    if accepts(bits, bound) || fuel == 0 {
        (next, bits % bound)
    } else {
        bounded_draw(next, bound, (fuel - 1) as nat)
    }
}

/// The budget of rejected draws after which `next_u64_bounded` gives up and answers anyway.
pub open spec fn draw_budget() -> nat {
    0xFFFF_FFFF_FFFF_FFFEnat
}

/// A uniform draw in `[start, end)`.
pub open spec fn range_draw(st: RngState, start: u64, end: u64) -> (RngState, u64) {
    let (next, v) = bounded_draw(st, (end - start) as u64, draw_budget());
    (next, (v + start) as u64)
}

/// The index chosen by a weighted choice: the weights are taken off `x` in order, the first
/// that brings it to zero or below wins, and the last entry wins when none does. What is left
/// after each weight is rounded as a single-precision float rounds it.
pub open spec fn weighted_pick(weights: Seq<u64>, x: int, i: int) -> int
    decreases weights.len() - i,
{
    if i >= weights.len() - 1 {
        weights.len() - 1
    } else if x <= weights[i] {
        i
    } else {
        weighted_pick(weights, single_round((x - weights[i]) as nat) as int, i + 1)
    }
}

/// A weighted choice picks an index of the weights.
pub proof fn lemma_weighted_pick_in_range(weights: Seq<u64>, x: int, i: int)
    requires
        0 <= i < weights.len(),
    ensures
        i <= weighted_pick(weights, x, i) < weights.len(),
    decreases weights.len() - i,
{
    if i < weights.len() - 1 && !(x <= weights[i]) {
        lemma_weighted_pick_in_range(weights, single_round((x - weights[i]) as nat) as int, i + 1);
    }
}

/// Fisher-Yates on the first `i` elements of `s`: swap element `i - 1` with a uniform index in
/// `[0, i - 1]`, then continue with `i - 1`.
pub open spec fn fisher_yates<T>(s: Seq<T>, st: RngState, i: nat) -> (Seq<T>, RngState)
    decreases i,
{
    if i <= 1 {
        (s, st)
    } else {
        let (next, j) = range_draw(st, 0, i as u64);
        fisher_yates(s.update(i - 1, s[j as int]).update(j as int, s[i - 1]), next, (i - 1) as nat)
    }
}

/// Rejection sampling answers below the bound.
pub proof fn lemma_bounded_draw_below(st: RngState, bound: u64, fuel: nat)
    requires
        bound > 0,
    ensures
        bounded_draw(st, bound, fuel).1 < bound,
    decreases fuel,
{
    let (next, raw) = rng_step(st);
    let bits = raw >> 1u64;
    if !(accepts(bits, bound) || fuel == 0) {
        lemma_bounded_draw_below(next, bound, (fuel - 1) as nat);
    }
}

/// Fisher-Yates only reorders: the multiset of elements and the length are kept.
pub proof fn lemma_fisher_yates_keeps_multiset<T>(s: Seq<T>, st: RngState, i: nat)
    requires
        i <= s.len(),
        i <= u64::MAX,
    ensures
        fisher_yates(s, st, i).0.to_multiset() == s.to_multiset(),
        fisher_yates(s, st, i).0.len() == s.len(),
    decreases i,
{
    if i > 1 {
        let (next, j) = range_draw(st, 0, i as u64);
        lemma_bounded_draw_below(st, i as u64, draw_budget());
        lemma_swap_keeps_multiset(s, i - 1, j as int);
        lemma_fisher_yates_keeps_multiset(
            s.update(i - 1, s[j as int]).update(j as int, s[i - 1]),
            next,
            (i - 1) as nat,
        );
    }
}

/// Exchanging two elements keeps the multiset of elements.
pub proof fn lemma_swap_keeps_multiset<T>(s: Seq<T>, i: int, j: int)
    requires
        0 <= i < s.len(),
        0 <= j < s.len(),
    ensures
        s.update(i, s[j]).update(j, s[i]).to_multiset() == s.to_multiset(),
{
    broadcast use vstd::seq_lib::to_multiset_update;
    let t = s.update(i, s[j]);
    assert(t[j] == s[j]) by {
        if i != j {
        }
    }
    assert(t.update(j, s[i]).to_multiset() =~= s.to_multiset());
}

/// Swaps two elements of a vector (`<[T]>::swap`).
#[verifier::external_body]
pub(crate) fn swap_in_vec<T>(v: &mut Vec<T>, i: usize, j: usize)
    requires
        i < old(v)@.len(),
        j < old(v)@.len(),
    ensures
        final(v)@ == old(v)@.update(i as int, old(v)@[j as int]).update(j as int, old(v)@[i as int]),
{
    v.swap(i, j);
}

/// A pseudo-random number generator following the game's use of xorshift128+, seeded through
/// MurmurHash3; it also forks `java.util.Random` instances for shuffles where the game does.
#[derive(Debug)]
pub struct StsRandom {
    initial_seed: u64,
    state0: u64,
    state1: u64,
    counter: usize,
}

impl View for StsRandom {
    type V = RngState;

    closed spec fn view(&self) -> RngState {
        RngState {
            state0: self.state0,
            state1: self.state1,
            counter: self.counter,
            initial_seed: self.initial_seed,
        }
    }
}

/// MurmurHash3's 64-bit finalizer.
fn murmur_hash_3_exec(x: u64) -> (r: u64)
    ensures
        r == murmur_hash_3(x),
{
    let x1 = x ^ (x >> 33u64);
    let x2 = x1.wrapping_mul(0xff51afd7ed558ccd);
    let x3 = x2 ^ (x2 >> 33u64);
    let x4 = x3.wrapping_mul(0xc4ceb9fe1a85ec53);
    x4 ^ (x4 >> 33u64)
}

impl StsRandom {
    /// A generator seeded with `seed`.
    pub fn from_seed(seed: u64) -> (r: StsRandom)
        ensures
            r@ == seeded_state(seed),
    {
        let state0 = murmur_hash_3_exec(if seed == 0 { 0x8000_0000_0000_0000u64 } else { seed });
        let state1 = murmur_hash_3_exec(state0);
        StsRandom { initial_seed: seed, state0, state1, counter: 0 }
    }

    /// A copy of this generator in its current state.
    pub fn copy(&self) -> (r: StsRandom)
        ensures
            r@ == self@,
    {
        StsRandom {
            initial_seed: self.initial_seed,
            state0: self.state0,
            state1: self.state1,
            counter: self.counter,
        }
    }

    /// Number of values drawn so far (wrapping).
    pub fn get_counter(&self) -> (r: usize)
        ensures
            r == self@.counter,
    {
        self.counter
    }

    /// The seed this generator was created from.
    pub fn get_initial_seed(&self) -> (r: u64)
        ensures
            r == self@.initial_seed,
    {
        self.initial_seed
    }

    /// Draws the next 64-bit value (xorshift128+).
    pub fn next_u64(&mut self) -> (r: u64)
        ensures
            (final(self)@, r) == rng_step(old(self)@),
    {
        let mut s1 = self.state0;
        let s0 = self.state1;
        self.state0 = s0;
        s1 = s1 ^ (s1 << 23u64);
        self.state1 = s1 ^ s0 ^ (s1 >> 17u64) ^ (s0 >> 26u64);
        self.counter = if self.counter == usize::MAX { 0 } else { self.counter + 1 };
        self.state1.wrapping_add(s0)
    }

    /// Draws a value in `[0, bound)` by rejection sampling.
    pub fn next_u64_bounded(&mut self, bound: u64) -> (r: u64)
        requires
            bound > 0,
        ensures
            r < bound,
            (final(self)@, r) == bounded_draw(old(self)@, bound, draw_budget()),
    {
        let ghost start = self@;
        let mut fuel: u64 = 0xFFFF_FFFF_FFFF_FFFE;
        loop
            invariant
                bound > 0,
                start == old(self)@,
                bounded_draw(start, bound, draw_budget()) == bounded_draw(self@, bound, fuel as nat),
            decreases fuel,
        {
            let ghost before = self@;
            let raw = self.next_u64();
            let bits = raw >> 1u64;
            let value = bits % bound;
            let t = bits.wrapping_sub(value).wrapping_add(bound).wrapping_sub(1);
            if (t & 0x8000_0000_0000_0000u64) == 0 || fuel == 0 {
                assert(bounded_draw(before, bound, fuel as nat) == (self@, value));
                assert(bounded_draw(start, bound, draw_budget()) == (self@, value));
                return value;
            }
            fuel = fuel - 1;
        }
    }

    /// Advances the generator by one draw, ignoring the value.
    pub fn advance(&mut self)
        ensures
            final(self)@ == rng_step(old(self)@).0,
    {
        self.next_u64();
    }

    /// A uniform value in `[start, end)`.
    pub fn gen_range(&mut self, start: u64, end: u64) -> (r: u64)
        requires
            start < end,
        ensures
            start <= r < end,
            (final(self)@, r) == range_draw(old(self)@, start, end),
    {
        let v = self.next_u64_bounded(end - start);
        v + start
    }

    /// A uniform value in `[start, end]`.
    pub fn gen_range_inclusive(&mut self, start: u64, end: u64) -> (r: u64)
        requires
            start <= end < u64::MAX,
        ensures
            start <= r <= end,
            (final(self)@, r) == range_draw(old(self)@, start, (end + 1) as u64),
    {
        self.gen_range(start, end + 1)
    }

    /// Shuffles the vector in place (Fisher-Yates).
    pub fn shuffle<T>(&mut self, v: &mut Vec<T>)
        ensures
            (final(v)@, final(self)@) == fisher_yates(old(v)@, old(self)@, old(v)@.len()),
            final(v)@.to_multiset() == old(v)@.to_multiset(),
    {
        let n = v.len();
        assert(n <= u64::MAX);
        proof {
            lemma_fisher_yates_keeps_multiset(v@, self@, v@.len());
        }
        let mut i = n;
        while i > 1
            invariant
                v@.len() == n,
                i <= n,
                fisher_yates(old(v)@, old(self)@, n as nat) == fisher_yates(v@, self@, i as nat),
            decreases i,
        {
            let j = self.gen_range(0, i as u64) as usize;
            swap_in_vec(v, i - 1, j);
            i = i - 1;
        }
    }

    /// A fair coin: the lowest bit of the next draw.
    pub fn next_bool(&mut self) -> (r: bool)
        ensures
            final(self)@ == rng_step(old(self)@).0,
            r == (rng_step(old(self)@).1 & 1u64 == 1u64),
    {
        self.next_u64() & 1u64 == 1u64
    }

    /// Shuffles the vector in place the way the game does: by seeding a `java.util.Random` with
    /// the next draw of this generator and letting it run `Collections.shuffle`. Only one draw of
    /// this generator is consumed.
    pub fn java_compat_shuffle<T>(&mut self, v: &mut Vec<T>)
        requires
            old(v)@.len() <= 0x8000_0000,
        ensures
            final(self)@ == rng_step(old(self)@).0,
            final(v)@ == java_shuffle(
                old(v)@,
                java_initial_scramble(rng_step(old(self)@).1),
                old(v)@.len(),
            ).0,
            final(v)@.to_multiset() == old(v)@.to_multiset(),
    {
        let seed = self.next_u64();
        let mut java = JavaRandom::from_u64(seed);
        java.shuffle(v);
    }

    /// A uniformly chosen element of a non-empty slice.
    pub fn choose_element<'a, T>(&mut self, choices: &'a [T]) -> (r: &'a T)
        requires
            choices@.len() > 0,
        ensures
            *r == choices@[range_draw(old(self)@, 0, choices@.len() as u64).1 as int],
            final(self)@ == range_draw(old(self)@, 0, choices@.len() as u64).0,
    {
        let i = self.gen_range(0, choices.len() as u64) as usize;
        &choices[i]
    }

    /// A weighted choice among non-empty `choices`. Each weight is a fraction in units of
    /// 2^-32, one that a single-precision float holds exactly. The draw is a uniform fraction
    /// with 24 bits of precision (the game's `nextFloat`); the weights are subtracted from it in
    /// order, what is left being rounded as a single-precision float rounds it, and the first
    /// weight that brings it to zero or below wins; the last entry wins if none does.
    pub fn weighted_choose<T: Copy>(&mut self, choices: &[(T, u64)]) -> (r: T)
        requires
            choices@.len() > 0,
        ensures
            final(self)@ == rng_step(old(self)@).0,
            r == choices@[weighted_pick(
                choices@.map_values(|c: (T, u64)| c.1),
                ((rng_step(old(self)@).1 >> 40u64) * 256) as int,
                0,
            )].0,
    {
        let raw = self.next_u64();
        let roll = raw >> 40u64;
        assert(roll < 0x100_0000) by (bit_vector)
            requires roll == raw >> 40u64;
        let ghost weights = choices@.map_values(|c: (T, u64)| c.1);
        let mut remaining: u64 = roll * 256;
        let mut i: usize = 0;
        let ghost after = self@;
        while i < choices.len() - 1
            invariant
                choices@.len() > 0,
                i < choices@.len(),
                self@ == after,
                after == rng_step(old(self)@).0,
                raw == rng_step(old(self)@).1,
                roll == raw >> 40u64,
                weights == choices@.map_values(|c: (T, u64)| c.1),
                weighted_pick(weights, (roll * 256) as int, 0) == weighted_pick(weights, remaining as int, i as int),
                remaining <= 0x1_0000_0000,
            decreases choices@.len() - i,
        {
            let w = choices[i].1;
            if remaining <= w {
                return choices[i].0;
            }
            proof {
                lemma_two_pow_values();
                lemma_round_below_power((remaining - w) as nat, 32);
            }
            remaining = round_single(remaining - w);
            i = i + 1;
        }
        choices[i].0
    }
}

impl From<u64> for StsRandom {
    fn from(seed: u64) -> (r: StsRandom) {
        StsRandom::from_seed(seed)
    }
}

impl vstd::std_specs::convert::FromSpecImpl<u64> for StsRandom {
    open spec fn obeys_from_spec() -> bool {
        true
    }

    closed spec fn from_spec(v: u64) -> StsRandom {
        StsRandom {
            initial_seed: seeded_state(v).initial_seed,
            state0: seeded_state(v).state0,
            state1: seeded_state(v).state1,
            counter: seeded_state(v).counter,
        }
    }
}

impl From<Seed> for StsRandom {
    fn from(seed: Seed) -> (r: StsRandom) {
        StsRandom::from_seed(seed.value)
    }
}

impl vstd::std_specs::convert::FromSpecImpl<Seed> for StsRandom {
    open spec fn obeys_from_spec() -> bool {
        true
    }

    closed spec fn from_spec(v: Seed) -> StsRandom {
        StsRandom {
            initial_seed: seeded_state(v.value).initial_seed,
            state0: seeded_state(v.value).state0,
            state1: seeded_state(v.value).state1,
            counter: seeded_state(v.value).counter,
        }
    }
}

/// Draws uniformly from `choices` until the card drawn is not in `taken` (with a draw budget
/// that only bounds the recursion).
pub open spec fn fresh_draw(st: RngState, choices: Seq<Card>, taken: Seq<Card>, fuel: nat) -> (RngState, Card)
    decreases fuel,
{
    let (next, i) = range_draw(st, 0, choices.len() as u64);
    let c = choices[i as int];
    if !taken.contains(c) || fuel == 0 {
        (next, c)
    } else {
        fresh_draw(next, choices, taken, (fuel - 1) as nat)
    }
}

/// `n` cards drawn from `choices`, each one redrawn while it was drawn already.
pub open spec fn sample(st: RngState, choices: Seq<Card>, n: nat) -> (RngState, Seq<Card>)
    decreases n,
{
    if n == 0 {
        (st, Seq::empty())
    } else {
        let (st1, before) = sample(st, choices, (n - 1) as nat);
        let (st2, c) = fresh_draw(st1, choices, before, draw_budget());
        (st2, before.push(c))
    }
}

/// Whether a draw redrawn while it was taken ended on a card not taken, rather than by running
/// out of its budget.
pub open spec fn fresh_draw_is_fresh(st: RngState, choices: Seq<Card>, taken: Seq<Card>, fuel: nat) -> bool
    decreases fuel,
{
    let (next, i) = range_draw(st, 0, choices.len() as u64);
    if !taken.contains(choices[i as int]) {
        true
    } else if fuel == 0 {
        false
    } else {
        fresh_draw_is_fresh(next, choices, taken, (fuel - 1) as nat)
    }
}

/// A draw that ended on a card not taken gives a card not taken.
proof fn lemma_fresh_draw_not_taken(st: RngState, choices: Seq<Card>, taken: Seq<Card>, fuel: nat)
    requires
        fresh_draw_is_fresh(st, choices, taken, fuel),
    ensures
        !taken.contains(fresh_draw(st, choices, taken, fuel).1),
    decreases fuel,
{
    let (next, i) = range_draw(st, 0, choices.len() as u64);
    if taken.contains(choices[i as int]) {
        lemma_fresh_draw_not_taken(next, choices, taken, (fuel - 1) as nat);
    }
}

/// Whether every draw of a sample ended on a card not drawn before.
pub open spec fn sample_is_fresh(st: RngState, choices: Seq<Card>, n: nat) -> bool
    decreases n,
{
    if n == 0 {
        true
    } else {
        let (st1, before) = sample(st, choices, (n - 1) as nat);
        sample_is_fresh(st, choices, (n - 1) as nat) && fresh_draw_is_fresh(st1, choices, before, draw_budget())
    }
}

/// A sample has no duplicates, unless one of its redraws ran out of its budget.
pub proof fn law_sample_has_no_duplicates(st: RngState, choices: Seq<Card>, n: nat)
    requires
        sample_is_fresh(st, choices, n),
    ensures
        sample(st, choices, n).1.no_duplicates(),
        sample(st, choices, n).1.len() == n,
    decreases n,
{
    if n > 0 {
        law_sample_has_no_duplicates(st, choices, (n - 1) as nat);
        let (st1, before) = sample(st, choices, (n - 1) as nat);
        lemma_fresh_draw_not_taken(st1, choices, before, draw_budget());
        let c = fresh_draw(st1, choices, before, draw_budget()).1;
        let after = before.push(c);
        assert forall|i: int, j: int| 0 <= i < after.len() && 0 <= j < after.len() && i != j implies after[i] != after[j] by {
            if i < before.len() && j < before.len() {
            } else if i == before.len() {
                assert(before[j] == after[j]);
                assert(before.contains(after[j]));
            } else {
                assert(before[i] == after[i]);
                assert(before.contains(after[i]));
            }
        }
    }
}

/// Every card drawn comes from the choices.
pub proof fn lemma_fresh_draw_from_choices(st: RngState, choices: Seq<Card>, taken: Seq<Card>, fuel: nat)
    requires
        0 < choices.len() <= u64::MAX,
    ensures
        choices.contains(fresh_draw(st, choices, taken, fuel).1),
    decreases fuel,
{
    let (next, i) = range_draw(st, 0, choices.len() as u64);
    lemma_bounded_draw_below(st, choices.len() as u64, draw_budget());
    assert(choices[i as int] == choices[i as int]);
    if !(!taken.contains(choices[i as int]) || fuel == 0) {
        lemma_fresh_draw_from_choices(next, choices, taken, (fuel - 1) as nat);
    }
}

/// Whether `card` is among `cards`.
pub fn contains_card(cards: &[Card], card: Card) -> (r: bool)
    ensures
        r == cards@.contains(card),
{
    let mut i: usize = 0;
    while i < cards.len()
        invariant
            i <= cards@.len(),
            forall|k: int| 0 <= k < i ==> cards@[k] != card,
        decreases cards@.len() - i,
    {
        if cards[i] == card {
            assert(cards@[i as int] == card);
            return true;
        }
        i = i + 1;
    }
    false
}

impl StsRandom {
    /// Draws uniformly from `choices` until the card drawn is not in `taken` (see
    /// `fresh_draw`).
    pub fn choose_fresh(&mut self, choices: &[Card], taken: &[Card]) -> (r: Card)
        requires
            choices@.len() > 0,
        ensures
            (final(self)@, r) == fresh_draw(old(self)@, choices@, taken@, draw_budget()),
            choices@.contains(r),
    {
        let count = choices.len();
        proof {
            assert(count as int == choices@.len());
            lemma_fresh_draw_from_choices(self@, choices@, taken@, draw_budget());
        }
        let ghost start = self@;
        let mut fuel: u64 = 0xFFFF_FFFF_FFFF_FFFE;
        loop
            invariant
                choices@.len() > 0,
                start == old(self)@,
                fresh_draw(start, choices@, taken@, draw_budget()) == fresh_draw(self@, choices@, taken@, fuel as nat),
                choices@.contains(fresh_draw(start, choices@, taken@, draw_budget()).1),
            decreases fuel,
        {
            let c = *self.choose_element(choices);
            if !contains_card(taken, c) || fuel == 0 {
                return c;
            }
            fuel = fuel - 1;
        }
    }

    /// Draws `n` cards from `choices`, each redrawn while it was drawn already (the game's
    /// way of sampling without replacement).
    pub fn sample_without_replacement(&mut self, choices: &[Card], n: usize) -> (r: Vec<Card>)
        requires
            n <= choices@.len(),
        ensures
            (final(self)@, r@) == sample(old(self)@, choices@, n as nat),
    {
        let mut result: Vec<Card> = Vec::new();
        let mut k: usize = 0;
        while k < n
            invariant
                k <= n,
                n <= choices@.len(),
                (self@, result@) == sample(old(self)@, choices@, k as nat),
            decreases n - k,
        {
            let c = self.choose_fresh(choices, result.as_slice());
            result.push(c);
            k = k + 1;
        }
        result
    }
}

} // verus!
