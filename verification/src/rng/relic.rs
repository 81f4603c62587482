use std::collections::VecDeque;

use vstd::prelude::*;

use crate::data::{
    spec_boss_relic_pool, spec_common_relic_pool, spec_rare_relic_pool, spec_shop_relic_pool,
    spec_uncommon_relic_pool, Character, Relic,
};
use crate::rng::java::{java_initial_scramble, java_shuffle, lemma_java_shuffle_keeps_multiset};

use super::seed::Seed;
use super::sts::{rng_step, seeded_state, RngState, StsRandom};

verus! {

/// The relics left to hand out, by tier, in the order they come.
pub struct RelicPools {
    pub common: Seq<Relic>,
    pub uncommon: Seq<Relic>,
    pub rare: Seq<Relic>,
    pub shop: Seq<Relic>,
    pub boss: Seq<Relic>,
}

/// The relics of a run: each tier's pool is shuffled once at the start, and relics are handed
/// out from the front.
pub struct RelicGenerator {
    common_relic_pool: VecDeque<Relic>,
    uncommon_relic_pool: VecDeque<Relic>,
    rare_relic_pool: VecDeque<Relic>,
    shop_relic_pool: VecDeque<Relic>,
    boss_relic_pool: VecDeque<Relic>,
}

impl View for RelicGenerator {
    type V = RelicPools;

    closed spec fn view(&self) -> RelicPools {
        RelicPools {
            common: self.common_relic_pool@,
            uncommon: self.uncommon_relic_pool@,
            rare: self.rare_relic_pool@,
            shop: self.shop_relic_pool@,
            boss: self.boss_relic_pool@,
        }
    }
}

/// A pool shuffled the game's way with one draw of the generator, and the generator after it.
pub open spec fn shuffled_pool(st: RngState, pool: Seq<Relic>) -> (RngState, Seq<Relic>) {
    let (next, raw) = rng_step(st);
    (next, java_shuffle(pool, java_initial_scramble(raw), pool.len()).0)
}

/// The pools of a run with this seed for a character: the character's common, uncommon, rare,
/// shop and boss pools shuffled in that order by one generator seeded with it.
pub open spec fn shuffled_pools(seed: u64, c: Character) -> RelicPools {
    let (st1, common) = shuffled_pool(seeded_state(seed), spec_common_relic_pool(c));
    let (st2, uncommon) = shuffled_pool(st1, spec_uncommon_relic_pool(c));
    let (st3, rare) = shuffled_pool(st2, spec_rare_relic_pool(c));
    let (st4, shop) = shuffled_pool(st3, spec_shop_relic_pool(c));
    let (_, boss) = shuffled_pool(st4, spec_boss_relic_pool(c));
    RelicPools { common, uncommon, rare, shop, boss }
}

/// A run's pools hold exactly the character's relics of each tier: shuffling only reorders
/// them.
pub proof fn law_pools_hold_the_character_relics(seed: u64, c: Character)
    ensures
        shuffled_pools(seed, c).common.to_multiset() == spec_common_relic_pool(c).to_multiset(),
        shuffled_pools(seed, c).uncommon.to_multiset() == spec_uncommon_relic_pool(c).to_multiset(),
        shuffled_pools(seed, c).rare.to_multiset() == spec_rare_relic_pool(c).to_multiset(),
        shuffled_pools(seed, c).shop.to_multiset() == spec_shop_relic_pool(c).to_multiset(),
        shuffled_pools(seed, c).boss.to_multiset() == spec_boss_relic_pool(c).to_multiset(),
{
    let (st1, raw1) = rng_step(seeded_state(seed));
    let (st2, raw2) = rng_step(st1);
    let (st3, raw3) = rng_step(st2);
    let (st4, raw4) = rng_step(st3);
    let (st5, raw5) = rng_step(st4);
    lemma_java_shuffle_keeps_multiset(spec_common_relic_pool(c), java_initial_scramble(raw1), spec_common_relic_pool(c).len());
    lemma_java_shuffle_keeps_multiset(spec_uncommon_relic_pool(c), java_initial_scramble(raw2), spec_uncommon_relic_pool(c).len());
    lemma_java_shuffle_keeps_multiset(spec_rare_relic_pool(c), java_initial_scramble(raw3), spec_rare_relic_pool(c).len());
    lemma_java_shuffle_keeps_multiset(spec_shop_relic_pool(c), java_initial_scramble(raw4), spec_shop_relic_pool(c).len());
    lemma_java_shuffle_keeps_multiset(spec_boss_relic_pool(c), java_initial_scramble(raw5), spec_boss_relic_pool(c).len());
}

/// The next rare relic, or a Circlet when none is left.
pub open spec fn next_rare(p: RelicPools) -> (RelicPools, Relic) {
    if p.rare.len() > 0 {
        (RelicPools { rare: p.rare.drop_first(), ..p }, p.rare[0])
    } else {
        (p, Relic::Circlet)
    }
}

/// The next uncommon relic, or the next rare one when none is left.
pub open spec fn next_uncommon(p: RelicPools) -> (RelicPools, Relic) {
    if p.uncommon.len() > 0 {
        (RelicPools { uncommon: p.uncommon.drop_first(), ..p }, p.uncommon[0])
    } else {
        next_rare(p)
    }
}

/// The next common relic, or the next uncommon one when none is left.
pub open spec fn next_common(p: RelicPools) -> (RelicPools, Relic) {
    if p.common.len() > 0 {
        (RelicPools { common: p.common.drop_first(), ..p }, p.common[0])
    } else {
        next_uncommon(p)
    }
}

/// The next shop relic, or the next uncommon one when none is left.
pub open spec fn next_shop(p: RelicPools) -> (RelicPools, Relic) {
    if p.shop.len() > 0 {
        (RelicPools { shop: p.shop.drop_first(), ..p }, p.shop[0])
    } else {
        next_uncommon(p)
    }
}

/// The next boss relic, or a Circlet when none is left.
pub open spec fn next_boss(p: RelicPools) -> (RelicPools, Relic) {
    if p.boss.len() > 0 {
        (RelicPools { boss: p.boss.drop_first(), ..p }, p.boss[0])
    } else {
        (p, Relic::Circlet)
    }
}

/// A pool shuffled the game's way, as a queue.
fn shuffled_queue(relic_rng: &mut StsRandom, pool: Vec<Relic>) -> (r: VecDeque<Relic>)
    requires
        pool@.len() <= 0x8000_0000,
    ensures
        (final(relic_rng)@, r@) == shuffled_pool(old(relic_rng)@, pool@),
{
    let mut pool = pool;
    relic_rng.java_compat_shuffle(&mut pool);
    let mut queue: VecDeque<Relic> = VecDeque::new();
    let mut i: usize = 0;
    while i < pool.len()
        invariant
            i <= pool@.len(),
            queue@ == pool@.subrange(0, i as int),
        decreases pool@.len() - i,
    {
        queue.push_back(pool[i]);
        assert(pool@.subrange(0, i as int + 1) =~= pool@.subrange(0, i as int).push(pool@[i as int]));
        i = i + 1;
    }
    assert(pool@.subrange(0, pool@.len() as int) =~= pool@);
    queue
}

impl RelicGenerator {
    /// The relics of a run with this seed for `character`.
    pub fn new(seed: Seed, character: Character) -> (r: RelicGenerator)
        ensures
            r@ == shuffled_pools(seed.value, character),
    {
        let mut relic_rng = StsRandom::from_seed(seed.value);
        let common_relic_pool = shuffled_queue(&mut relic_rng, character.common_relic_pool());
        let uncommon_relic_pool = shuffled_queue(&mut relic_rng, character.uncommon_relic_pool());
        let rare_relic_pool = shuffled_queue(&mut relic_rng, character.rare_relic_pool());
        let shop_relic_pool = shuffled_queue(&mut relic_rng, character.shop_relic_pool());
        let boss_relic_pool = shuffled_queue(&mut relic_rng, character.boss_relic_pool());
        RelicGenerator { common_relic_pool, uncommon_relic_pool, rare_relic_pool, shop_relic_pool, boss_relic_pool }
    }

    /// The next common relic; uncommon ones once the commons run out.
    pub fn common_relic(&mut self) -> (r: Relic)
        ensures
            (final(self)@, r) == next_common(old(self)@),
    {
        match self.common_relic_pool.pop_front() {
            Some(relic) => relic,
            None => self.uncommon_relic(),
        }
    }

    /// The next uncommon relic; rare ones once the uncommons run out.
    pub fn uncommon_relic(&mut self) -> (r: Relic)
        ensures
            (final(self)@, r) == next_uncommon(old(self)@),
    {
        match self.uncommon_relic_pool.pop_front() {
            Some(relic) => relic,
            None => self.rare_relic(),
        }
    }

    /// The next rare relic; a Circlet once the rares run out.
    pub fn rare_relic(&mut self) -> (r: Relic)
        ensures
            (final(self)@, r) == next_rare(old(self)@),
    {
        match self.rare_relic_pool.pop_front() {
            Some(relic) => relic,
            None => Relic::Circlet,
        }
    }

    /// The next shop relic; uncommon ones once the shop relics run out.
    pub fn _shop_relic(&mut self) -> (r: Relic)
        ensures
            (final(self)@, r) == next_shop(old(self)@),
    {
        match self.shop_relic_pool.pop_front() {
            Some(relic) => relic,
            None => self.uncommon_relic(),
        }
    }

    /// The next boss relic; a Circlet once the boss relics run out.
    pub fn _boss_relic(&mut self) -> (r: Relic)
        ensures
            (final(self)@, r) == next_boss(old(self)@),
    {
        match self.boss_relic_pool.pop_front() {
            Some(relic) => relic,
            None => Relic::Circlet,
        }
    }
}

} // verus!
