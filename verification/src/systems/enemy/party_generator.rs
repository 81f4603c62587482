use vstd::prelude::*;

use crate::data::Encounter;
use crate::rng::seed::Seed;
use crate::rng::sts::{seeded_state, StsRandom};

use super::enemy_in_combat::EnemyInCombat;
use super::enemy_party::{ai_after_spawning, exordium_wildlife, generated, holds_plan, party_can_be_generated, party_plan, single_enemy, small_slimes, EnemyParty};
use super::enemy_state::{spawned_as, EnemyState};

verus! {

/// Generates the enemies of an encounter: it owns the generator of their hit points, seeded
/// from the floor's seed.
pub struct EnemyPartyGenerator {
    pub encounter: Encounter,
    pub hp_rng: StsRandom,
}

impl EnemyPartyGenerator {
    /// A generator for `encounter` on the floor with seed `seed_for_floor`.
    pub fn new(seed_for_floor: Seed, encounter: Encounter) -> (r: EnemyPartyGenerator)
        ensures
            r.encounter == encounter,
            r.hp_rng@ == seeded_state(seed_for_floor.value),
    {
        EnemyPartyGenerator { encounter, hp_rng: StsRandom::from_seed(seed_for_floor.value) }
    }

    /// Puts the encounter's enemies in the first slots of `enemy_party` (the other slots are
    /// left as they are): hit points from this generator, first actions from `ai_rng`, and the
    /// random choice of enemies from `misc_rng`.
    pub fn generate(&mut self, ai_rng: &mut StsRandom, misc_rng: &mut StsRandom, enemy_party: &mut Vec<Option<EnemyInCombat>>)
        requires
            old(enemy_party)@.len() == 5,
            party_can_be_generated(old(self).encounter, old(misc_rng)@),
        ensures
            final(self).encounter == old(self).encounter,
            ({
                let (plan, hp, misc) = party_plan(old(self).encounter, old(self).hp_rng@, old(misc_rng)@);
                &&& final(self).hp_rng@ == hp
                &&& final(misc_rng)@ == misc
                &&& final(ai_rng)@ == ai_after_spawning(plan, old(ai_rng)@, plan.len() as int)
                &&& final(enemy_party)@.len() == 5
                &&& forall|i: int| 0 <= i < plan.len() ==> (#[trigger] final(enemy_party)@[i] matches Some(e)
                        && spawned_as(e.state, plan[i].0, plan[i].1, ai_after_spawning(plan, old(ai_rng)@, i)))
                &&& forall|i: int| plan.len() <= i < 5 ==> #[trigger] final(enemy_party)@[i] == old(enemy_party)@[i]
            }),
    {
        let ghost ai0 = ai_rng@;
        let ghost plan = party_plan(self.encounter, self.hp_rng@, misc_rng@).0;
        let party = match self.encounter {
            Encounter::ExordiumWildlife => exordium_wildlife(&mut self.hp_rng, ai_rng, misc_rng),
            Encounter::SmallSlimes => small_slimes(&mut self.hp_rng, ai_rng, misc_rng),
            _ => single_enemy(self.encounter, &mut self.hp_rng, ai_rng, misc_rng),
        };
        let ghost made = party.0@;
        assert(holds_plan(made, plan, ai0));
        let mut slots = party.0;
        let mut i: usize = 0;
        while i < 5
            invariant
                i <= 5,
                made.len() == 5,
                holds_plan(made, plan, ai0),
                slots@ == made.subrange(i as int, 5),
                enemy_party@.len() == 5,
                old(enemy_party)@.len() == 5,
                forall|k: int| 0 <= k < i && k < plan.len() ==> (#[trigger] enemy_party@[k] matches Some(e)
                    && spawned_as(e.state, plan[k].0, plan[k].1, ai_after_spawning(plan, ai0, k))),
                forall|k: int| 0 <= k < i && plan.len() <= k ==> #[trigger] enemy_party@[k] == old(enemy_party)@[k],
                forall|k: int| i <= k < 5 ==> #[trigger] enemy_party@[k] == old(enemy_party)@[k],
            decreases 5 - i,
        {
            let slot = slots.remove(0);
            assert(slot == made[i as int]);
            assert(slots@ =~= made.subrange(i as int + 1, 5));
            match slot {
                Some(state) => {
                    enemy_party.set(i, Some(EnemyInCombat { state }));
                },
                None => {
                    assert(!(i < plan.len()));
                },
            }
            i = i + 1;
        }
    }
}

} // verus!
