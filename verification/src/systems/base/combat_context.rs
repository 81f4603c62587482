use vstd::prelude::*;

use crate::components::{cards_in_combat, EffectQueue, PlayerCombatState, PlayerPersistentState};
use crate::data::Encounter;
use crate::player::comms::Comms;
use crate::rng::seed::Seed;
use crate::rng::sts::{seeded_state, StsRandom};
use crate::systems::enemy::enemy_party::{ai_after_spawning, holds_plan, party_can_be_generated, party_plan, EnemyParty};
use crate::systems::enemy::enemy_state::EnemyState;
use crate::types::EnemyIndex;

verus! {

/// Everything a combat works on: the channels to the client, the player's persistent and
/// combat states, the enemies, the enemy being acted on, the effects waiting to be resolved,
/// and the generators of the combat.
pub struct CombatContext {
    pub comms: Comms,
    pub pps: PlayerPersistentState,
    pub pcs: PlayerCombatState,
    pub enemy_party: EnemyParty,
    pub maybe_enemy_index: Option<EnemyIndex>,
    pub effect_queue: EffectQueue,
    pub misc_rng: StsRandom,
    pub enemy_rng: StsRandom,
    pub shuffle_rng: StsRandom,
    pub card_randomizer_rng: StsRandom,
}

/// Every enemy slot is empty.
pub open spec fn all_enemies_gone(party: Seq<Option<EnemyState>>) -> bool {
    forall|i: int| 0 <= i < party.len() ==> party[i] is None
}

impl CombatContext {
    /// The context of a combat against `encounter` on the floor with seed `seed_for_floor`:
    /// the deck enters the draw pile, the enemies are generated (their actions drawn from an
    /// enemy generator seeded with the floor's seed), and the shuffle and cost generators are
    /// seeded with it too.
    pub fn new(comms: Comms, seed_for_floor: Seed, encounter: Encounter, pps: PlayerPersistentState, misc_rng: StsRandom) -> (r: CombatContext)
        requires
            party_can_be_generated(encounter, misc_rng@),
        ensures
            r.comms == comms,
            r.pps == pps,
            r.pcs.draw_pile@ == cards_in_combat(pps.deck@),
            r.pcs.discard_pile@.len() == 0,
            r.pcs.hand@.len() == 0,
            r.pcs.exhaust_pile@.len() == 0,
            r.pcs.energy == 3,
            r.pcs.block == 0,
            r.pcs.strength == 0,
            r.pcs.dexterity == 0,
            r.pcs.conditions@.len() == 0,
            r.pcs.hp_loss_count == 0,
            ({
                let (plan, _, misc) = party_plan(encounter, seeded_state(seed_for_floor.value), misc_rng@);
                &&& holds_plan(r.enemy_party.0@, plan, seeded_state(seed_for_floor.value))
                &&& r.enemy_rng@ == ai_after_spawning(plan, seeded_state(seed_for_floor.value), plan.len() as int)
                &&& r.misc_rng@ == misc
            }),
            r.maybe_enemy_index is None,
            r.effect_queue@.len() == 0,
            r.shuffle_rng@ == seeded_state(seed_for_floor.value),
            r.card_randomizer_rng@ == seeded_state(seed_for_floor.value),
    {
        let pcs = PlayerCombatState::new(pps.deck.as_slice());
        let mut misc_rng = misc_rng;
        let mut enemy_rng = StsRandom::from_seed(seed_for_floor.value);
        let enemy_party = EnemyParty::generate(seed_for_floor, encounter, &mut enemy_rng, &mut misc_rng);
        CombatContext {
            comms,
            pps,
            pcs,
            enemy_party,
            maybe_enemy_index: None,
            effect_queue: EffectQueue::new(),
            misc_rng,
            enemy_rng,
            shuffle_rng: StsRandom::from_seed(seed_for_floor.value),
            card_randomizer_rng: StsRandom::from_seed(seed_for_floor.value),
        }
    }

    /// Whether the combat is over: the player has no hit points left, or no enemy is left.
    pub fn combat_should_end(&self) -> (r: bool)
        ensures
            r == (self.pps.hp == 0 || all_enemies_gone(self.enemy_party.0@)),
    {
        if self.pps.hp == 0 {
            return true;
        }
        let mut i: usize = 0;
        while i < self.enemy_party.0.len()
            invariant
                i <= self.enemy_party.0@.len(),
                self.pps.hp != 0,
                forall|k: int| 0 <= k < i ==> self.enemy_party.0@[k] is None,
            decreases self.enemy_party.0@.len() - i,
        {
            if self.enemy_party.0[i].is_some() {
                return false;
            }
            i = i + 1;
        }
        true
    }
}

} // verus!
