use vstd::prelude::*;

use crate::data::{
    curse_card_pool, first_neow_pool, neow_bonuses, neow_penalties, second_neow_pool, spec_curse_card_pool, spec_first_neow_pool,
    spec_common_card_pool, spec_rare_card_pool, spec_uncommon_card_pool, spec_neow_bonuses,
    spec_neow_penalties, spec_second_neow_pool, spec_uncommon_colorless_cards, uncommon_colorless_cards, Card,
    Character, NeowBlessing,
};

use super::seed::Seed;
use super::sts::{draw_budget, fresh_draw, range_draw, rng_step, sample, seeded_state, weighted_pick, RngState, StsRandom};

verus! {

/// The chance that a card Neow offers comes from the uncommon pool, in units of 2^-32 (0.33 as
/// a single-precision float).
pub const NEOW_UNCOMMON_WEIGHT: u64 = 0x547a_e180;

/// The chance that a card Neow offers comes from the common pool, in units of 2^-32 (0.67 as a
/// single-precision float).
pub const NEOW_COMMON_WEIGHT: u64 = 0xab85_1f00;

/// Neow's four blessings for a seed, and the state of Neow's generator after them: one draw
/// from each of the first two offers, a penalty and then one of its bonuses for the third, the
/// starter relic swap as the fourth, and one more draw that the game makes and discards.
pub open spec fn neow_blessings(seed: u64) -> (RngState, Seq<NeowBlessing>) {
    let (st1, i1) = range_draw(seeded_state(seed), 0, spec_first_neow_pool().len() as u64);
    let (st2, i2) = range_draw(st1, 0, spec_second_neow_pool().len() as u64);
    let (st3, i3) = range_draw(st2, 0, spec_neow_penalties().len() as u64);
    let penalty = spec_neow_penalties()[i3 as int];
    let (st4, i4) = range_draw(st3, 0, spec_neow_bonuses(penalty).len() as u64);
    (
        rng_step(st4).0,
        seq![
            spec_first_neow_pool()[i1 as int],
            spec_second_neow_pool()[i2 as int],
            NeowBlessing::Composite(spec_neow_bonuses(penalty)[i4 as int], penalty),
            NeowBlessing::ReplaceStarterRelic,
        ],
    )
}

/// The pool a raw draw picks for one of Neow's cards: a weighted choice between the uncommon
/// pool (0.33) and the common pool (0.67).
pub open spec fn neow_card_pool(c: Character, raw: u64) -> Seq<Card> {
    if weighted_pick(seq![NEOW_UNCOMMON_WEIGHT, NEOW_COMMON_WEIGHT], ((raw >> 40u64) * 256) as int, 0) == 0 {
        spec_uncommon_card_pool(c)
    } else {
        spec_common_card_pool(c)
    }
}

/// `n` of Neow's cards for a character: for each a pool, then a card of it redrawn while it was
/// drawn already.
pub open spec fn neow_cards(c: Character, st: RngState, n: nat) -> (RngState, Seq<Card>)
    decreases n,
{
    if n == 0 {
        (st, Seq::empty())
    } else {
        let (st1, before) = neow_cards(c, st, (n - 1) as nat);
        let (st2, raw) = rng_step(st1);
        let (st3, card) = fresh_draw(st2, neow_card_pool(c, raw), before, draw_budget());
        (st3, before.push(card))
    }
}

/// What Neow offers at the start of a run. Neow's own generator decides the blessings and the
/// cards Neow shows; the card generator of the run decides colorless cards and curses.
pub struct NeowGenerator {
    pub neow_rng: StsRandom,
    pub card_rng: StsRandom,
    pub character: Character,
    pub blessing_choices: [NeowBlessing; 4],
}

impl NeowGenerator {
    /// Neow's offer for a run with this seed: the four blessings are drawn at once.
    pub fn new(seed: Seed, character: Character, card_rng: StsRandom) -> (r: NeowGenerator)
        ensures
            (r.neow_rng@, r.blessing_choices@) == neow_blessings(seed.value),
            r.card_rng@ == card_rng@,
            r.character == character,
    {
        let mut neow_rng = StsRandom::from_seed(seed.value);
        let first_pool = first_neow_pool();
        let first_blessing = *neow_rng.choose_element(first_pool.as_slice());
        let second_pool = second_neow_pool();
        let second_blessing = *neow_rng.choose_element(second_pool.as_slice());
        let penalties = neow_penalties();
        let penalty = *neow_rng.choose_element(penalties.as_slice());
        let bonuses = neow_bonuses(penalty);
        let bonus = *neow_rng.choose_element(bonuses.as_slice());
        let blessing_choices = [
            first_blessing,
            second_blessing,
            NeowBlessing::Composite(bonus, penalty),
            NeowBlessing::ReplaceStarterRelic,
        ];
        neow_rng.advance();
        assert(blessing_choices@ =~= neow_blessings(seed.value).1);
        NeowGenerator { neow_rng, card_rng, character, blessing_choices }
    }

    /// The four blessings on offer.
    pub fn blessing_choices(&self) -> (r: &[NeowBlessing; 4])
        ensures
            r@ == self.blessing_choices@,
    {
        &self.blessing_choices
    }

    /// Three different cards of the character's, each from the uncommon pool (0.33) or the common
/// pool (0.67).
    pub fn three_card_choices(&mut self) -> (r: Vec<Card>)
        ensures
            (final(self).neow_rng@, r@) == neow_cards(old(self).character, old(self).neow_rng@, 3),
            final(self).card_rng == old(self).card_rng,
            final(self).character == old(self).character,
            final(self).blessing_choices == old(self).blessing_choices,
    {
        let uncommon = self.character.uncommon_card_pool();
        let common = self.character.common_card_pool();
        let pools: [(bool, u64); 2] = [(true, NEOW_UNCOMMON_WEIGHT), (false, NEOW_COMMON_WEIGHT)];
        assert(pools@.map_values(|c: (bool, u64)| c.1) =~= seq![NEOW_UNCOMMON_WEIGHT, NEOW_COMMON_WEIGHT]);
        let mut result: Vec<Card> = Vec::new();
        let mut k: usize = 0;
        while k < 3
            invariant
                k <= 3,
                uncommon@ == spec_uncommon_card_pool(self.character),
                common@ == spec_common_card_pool(self.character),
                pools@ == seq![(true, NEOW_UNCOMMON_WEIGHT), (false, NEOW_COMMON_WEIGHT)],
                pools@.map_values(|c: (bool, u64)| c.1) == seq![NEOW_UNCOMMON_WEIGHT, NEOW_COMMON_WEIGHT],
                (self.neow_rng@, result@) == neow_cards(old(self).character, old(self).neow_rng@, k as nat),
                self.card_rng == old(self).card_rng,
                self.character == old(self).character,
                self.blessing_choices == old(self).blessing_choices,
            decreases 3 - k,
        {
            let ghost before = self.neow_rng@;
            let from_uncommon = self.neow_rng.weighted_choose(&pools);
            proof {
                crate::rng::sts::lemma_weighted_pick_in_range(
                    seq![NEOW_UNCOMMON_WEIGHT, NEOW_COMMON_WEIGHT],
                    ((rng_step(before).1 >> 40u64) * 256) as int,
                    0,
                );
            }
            let card = if from_uncommon {
                self.neow_rng.choose_fresh(uncommon.as_slice(), result.as_slice())
            } else {
                self.neow_rng.choose_fresh(common.as_slice(), result.as_slice())
            };
            result.push(card);
            k = k + 1;
        }
        result
    }

    /// Three different uncommon colorless cards, from the run's card generator as the game
    /// does.
    pub fn three_colorless_card_choices(&mut self) -> (r: Vec<Card>)
        ensures
            (final(self).card_rng@, r@) == sample(old(self).card_rng@, spec_uncommon_colorless_cards(), 3),
            final(self).neow_rng == old(self).neow_rng,
            final(self).character == old(self).character,
            final(self).blessing_choices == old(self).blessing_choices,
    {
        let pool = uncommon_colorless_cards();
        self.card_rng.sample_without_replacement(pool.as_slice(), 3)
    }

    /// A rare card of the character's, chosen uniformly by Neow's generator.
    pub fn one_random_rare_card(&mut self) -> (r: Card)
        ensures
            (final(self).neow_rng@, r) == ({
                let (st, i) = range_draw(old(self).neow_rng@, 0, spec_rare_card_pool(old(self).character).len() as u64);
                (st, spec_rare_card_pool(old(self).character)[i as int])
            }),
            final(self).card_rng == old(self).card_rng,
            final(self).character == old(self).character,
            final(self).blessing_choices == old(self).blessing_choices,
    {
        let pool = self.character.rare_card_pool();
        *self.neow_rng.choose_element(pool.as_slice())
    }

    /// A curse, chosen uniformly by the run's card generator as the game does.
    pub fn one_curse(&mut self) -> (r: Card)
        ensures
            (final(self).card_rng@, r) == ({
                let (st, i) = range_draw(old(self).card_rng@, 0, spec_curse_card_pool().len() as u64);
                (st, spec_curse_card_pool()[i as int])
            }),
            final(self).neow_rng == old(self).neow_rng,
            final(self).character == old(self).character,
            final(self).blessing_choices == old(self).blessing_choices,
    {
        let pool = curse_card_pool();
        *self.card_rng.choose_element(pool.as_slice())
    }
}

} // verus!
