use vstd::prelude::*;

use crate::data::{
    curse_card_pool, spec_common_card_pool, spec_curse_card_pool, spec_rare_card_pool, spec_uncommon_card_pool,
    spec_uncommon_colorless_cards, uncommon_colorless_cards, Act, Card, Character,
};

use super::seed::Seed;
use super::sts::{draw_budget, fresh_draw, range_draw, rng_step, sample, seeded_state, weighted_pick, RngState, StsRandom};

verus! {

/// The card rewards of a run: a card's rarity leans towards rare the longer none came up, and
/// from act 2 on non-rare cards may come upgraded.
pub struct CardGenerator {
    pub character: Character,
    /// The chance that a reward card is upgraded, in units of 2^-32.
    pub upgrade_probability: u64,
    pub card_rng: StsRandom,
    /// Added to the rarity roll; it drops as common cards come up and goes back to 5 with a
    /// rare one.
    pub rarity_bias: i32,
}

/// The chance of an upgraded reward in an act, in units of 2^-32: none in act 1, a quarter in
/// act 2, a half in acts 3 and 4.
pub open spec fn upgrade_weight(act: u8) -> u64 {
    if act == 1 {
        0
    } else if act == 2 {
        0x4000_0000
    } else {
        0x8000_0000
    }
}

/// The rarity roll: a draw in `[0, 100)` plus the bias. Below 3 the card is rare (and the bias
/// goes back to 5), below 40 uncommon, else common (and the bias drops by one, down to -40).
/// Answers the generator state after the draw, whether the card is rare, its pool, and the new
/// bias.
pub open spec fn class_pool_draw(c: Character, st: RngState, bias: i32) -> (RngState, bool, Seq<Card>, i32) {
    let (next, v) = range_draw(st, 0, 100);
    let roll = v + bias;
    if roll < 3 {
        (next, true, spec_rare_card_pool(c), 5)
    } else if roll < 40 {
        (next, false, spec_uncommon_card_pool(c), bias)
    } else {
        (next, false, spec_common_card_pool(c), if bias - 1 < -40 { -40i32 } else { (bias - 1) as i32 })
    }
}

/// `n` reward cards: for each, a rarity roll, then a card of that pool redrawn while it was
/// drawn already. Answers the state, the bias, the cards and whether each is rare.
pub open spec fn reward_cards(c: Character, st: RngState, bias: i32, n: nat) -> (RngState, i32, Seq<Card>, Seq<bool>)
    decreases n,
{
    if n == 0 {
        (st, bias, Seq::empty(), Seq::empty())
    } else {
        let (st1, bias1, cards, rares) = reward_cards(c, st, bias, (n - 1) as nat);
        let (st2, rare, pool, bias2) = class_pool_draw(c, st1, bias1);
        let (st3, card) = fresh_draw(st2, pool, cards, draw_budget());
        (st3, bias2, cards.push(card), rares.push(rare))
    }
}

/// Whether the raw draw upgrades a card, with the chance `weight`.
pub open spec fn upgrade_drawn(raw: u64, weight: u64) -> bool {
    ((raw >> 40u64) * 256) as int <= weight as int
}

/// One upgrade roll per reward card, in order: the state afterwards, and whether some card
/// that is not rare rolled an upgrade.
pub open spec fn upgrade_rolls(st: RngState, weight: u64, rares: Seq<bool>) -> (RngState, bool)
    decreases rares.len(),
{
    if rares.len() == 0 {
        (st, false)
    } else {
        let (st1, any) = upgrade_rolls(st, weight, rares.drop_last());
        let (st2, raw) = rng_step(st1);
        (st2, any || (upgrade_drawn(raw, weight) && !rares.last()))
    }
}

/// Whether the three reward cards that the generator would give need no upgrade, which this
/// simulator does not do.
pub open spec fn rewards_need_no_upgrade(g: &CardGenerator) -> bool {
    let (st, _, _, rares) = reward_cards(g.character, g.card_rng@, g.rarity_bias, 3);
    !upgrade_rolls(st, g.upgrade_probability, rares).1
}

/// An upgrade rolled on a prefix of the cards is rolled on all of them.
proof fn lemma_upgrade_rolls_prefix(st: RngState, weight: u64, rares: Seq<bool>, k: int)
    requires
        0 <= k <= rares.len(),
    ensures
        upgrade_rolls(st, weight, rares.subrange(0, k)).1 ==> upgrade_rolls(st, weight, rares).1,
    decreases rares.len(),
{
    if k < rares.len() {
        lemma_upgrade_rolls_prefix(st, weight, rares.drop_last(), k);
        assert(rares.drop_last().subrange(0, k) == rares.subrange(0, k));
    } else {
        assert(rares.subrange(0, k) == rares);
    }
}

impl CardGenerator {
    /// The generator of an act (1 to 4) for `character`.
    pub fn new(seed: Seed, character: Character, act: Act) -> (r: CardGenerator)
        requires
            1 <= act.number <= 4,
        ensures
            r.character == character,
            r.upgrade_probability == upgrade_weight(act.number),
            r.card_rng@ == seeded_state(seed.value),
            r.rarity_bias == 5,
    {
        let upgrade_probability: u64 = if act.number == 1 {
            0
        } else if act.number == 2 {
            0x4000_0000
        } else {
            0x8000_0000
        };
        CardGenerator { character, upgrade_probability, card_rng: StsRandom::from_seed(seed.value), rarity_bias: 5 }
    }

    /// Three different uncommon colorless cards.
    pub fn three_colorless_card_choices(&mut self) -> (r: Vec<Card>)
        ensures
            (final(self).card_rng@, r@) == sample(old(self).card_rng@, spec_uncommon_colorless_cards(), 3),
            final(self).rarity_bias == old(self).rarity_bias,
            final(self).upgrade_probability == old(self).upgrade_probability,
            final(self).character == old(self).character,
    {
        let pool = uncommon_colorless_cards();
        self.card_rng.sample_without_replacement(pool.as_slice(), 3)
    }

    /// A curse, chosen uniformly.
    pub fn one_curse(&mut self) -> (r: Card)
        ensures
            r == spec_curse_card_pool()[range_draw(old(self).card_rng@, 0, 10).1 as int],
            final(self).card_rng@ == range_draw(old(self).card_rng@, 0, 10).0,
            final(self).rarity_bias == old(self).rarity_bias,
            final(self).upgrade_probability == old(self).upgrade_probability,
            final(self).character == old(self).character,
    {
        let pool = curse_card_pool();
        *self.card_rng.choose_element(pool.as_slice())
    }

    /// The three cards of a combat reward (see `reward_cards`); each then rolls for an
    /// upgrade, which only cards that are not rare could get.
    pub fn combat_rewards(&mut self) -> (r: Vec<Card>)
        requires
            -40 <= old(self).rarity_bias <= 5,
            rewards_need_no_upgrade(old(self)),
        ensures
            ({
                let (st, bias, cards, rares) = reward_cards(old(self).character, old(self).card_rng@, old(self).rarity_bias, 3);
                &&& r@ == cards
                &&& final(self).rarity_bias == bias
                &&& final(self).card_rng@ == upgrade_rolls(st, old(self).upgrade_probability, rares).0
            }),
            -40 <= final(self).rarity_bias <= 5,
            final(self).upgrade_probability == old(self).upgrade_probability,
            final(self).character == old(self).character,
    {
        let mut result: Vec<Card> = Vec::new();
        let mut is_rare_vec: Vec<bool> = Vec::new();
        let mut k: usize = 0;
        while k < 3
            invariant
                k <= 3,
                -40 <= self.rarity_bias <= 5,
                (self.card_rng@, self.rarity_bias, result@, is_rare_vec@)
                    == reward_cards(old(self).character, old(self).card_rng@, old(self).rarity_bias, k as nat),
                result@.len() == k,
                is_rare_vec@.len() == k,
                self.upgrade_probability == old(self).upgrade_probability,
                self.character == old(self).character,
            decreases 3 - k,
        {
            let (is_rare, pool) = self.pool_for_class();
            let card = self.card_rng.choose_fresh(pool.as_slice(), result.as_slice());
            result.push(card);
            is_rare_vec.push(is_rare);
            k = k + 1;
        }
        let ghost after_cards = self.card_rng@;
        proof {
            lemma_upgrade_rolls_prefix(after_cards, self.upgrade_probability, is_rare_vec@, 0);
            assert(is_rare_vec@.subrange(0, 0) =~= Seq::<bool>::empty());
        }
        let mut j: usize = 0;
        while j < 3
            invariant
                j <= 3,
                is_rare_vec@.len() == 3,
                -40 <= self.rarity_bias <= 5,
                (after_cards, self.rarity_bias, result@, is_rare_vec@)
                    == reward_cards(old(self).character, old(self).card_rng@, old(self).rarity_bias, 3),
                self.upgrade_probability == old(self).upgrade_probability,
                self.character == old(self).character,
                self.card_rng@ == upgrade_rolls(after_cards, self.upgrade_probability, is_rare_vec@.subrange(0, j as int)).0,
                !upgrade_rolls(after_cards, self.upgrade_probability, is_rare_vec@).1,
            decreases 3 - j,
        {
            let choices = vec![(true, self.upgrade_probability), (false, 0x1_0000_0000u64)];
            let ghost before = self.card_rng@;
            let should_upgrade = self.card_rng.weighted_choose(choices.as_slice());
            proof {
                let ws = choices@.map_values(|c: (bool, u64)| c.1);
                assert(ws.len() == 2);
                assert(ws[0] == self.upgrade_probability);
                reveal_with_fuel(weighted_pick, 3);
                let pre = is_rare_vec@.subrange(0, j as int + 1);
                assert(pre.drop_last() == is_rare_vec@.subrange(0, j as int));
                assert(pre.last() == is_rare_vec@[j as int]);
                lemma_upgrade_rolls_prefix(after_cards, self.upgrade_probability, is_rare_vec@, j as int + 1);
            }
            assert(!(should_upgrade && !is_rare_vec@[j as int]));
            j = j + 1;
        }
        assert(is_rare_vec@.subrange(0, 3) == is_rare_vec@);
        result
    }

    /// The rarity roll (see `class_pool_draw`): whether the card is rare, and its pool.
    fn pool_for_class(&mut self) -> (r: (bool, Vec<Card>))
        requires
            -40 <= old(self).rarity_bias <= 5,
        ensures
            (final(self).card_rng@, r.0, r.1@, final(self).rarity_bias) == class_pool_draw(old(self).character, old(self).card_rng@, old(self).rarity_bias),
            -40 <= final(self).rarity_bias <= 5,
            final(self).upgrade_probability == old(self).upgrade_probability,
            final(self).character == old(self).character,
    {
        let roll = self.card_rng.gen_range(0, 100) as i32 + self.rarity_bias;
        if roll < 3 {
            self.rarity_bias = 5;
            (true, self.character.rare_card_pool())
        } else if roll < 40 {
            (false, self.character.uncommon_card_pool())
        } else {
            self.rarity_bias = if self.rarity_bias - 1 < -40 { -40 } else { self.rarity_bias - 1 };
            (false, self.character.common_card_pool())
        }
    }
}

} // verus!
