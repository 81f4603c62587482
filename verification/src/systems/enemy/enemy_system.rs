use vstd::prelude::*;

use crate::data::{EnemyCondition, Encounter};
use crate::rng::seed::Seed;
use crate::rng::sts::{seeded_state, RngState, StsRandom};
use crate::systems::combat::enemy_condition::enemy_turn_ended;
use crate::types::Strength;

use super::enemy_characteristics::following_action;
use super::enemy_party::{ai_after_spawning, holds_plan, party_can_be_generated, party_plan, EnemyParty};
use super::enemy_state::EnemyState;

verus! {

/// Runs the enemies' side of a combat on one floor: it owns the generator that drives their
/// AI, seeded from the floor's seed.
pub struct EnemySystem {
    pub seed_for_floor: Seed,
    pub ai_rng: StsRandom,
}

/// The run length after an action is followed by `next`: one more (saturating) when it repeats,
/// else one.
pub open spec fn run_length_after(action: crate::data::EnemyAction, next: crate::data::EnemyAction, run_length: usize) -> usize {
    if next == action {
        if run_length == usize::MAX { usize::MAX } else { (run_length + 1) as usize }
    } else {
        1
    }
}

/// The conditions of an enemy at the end of the enemies' turn, processed in order, with its
/// strength: the conditions that stay active, the strength after them, and whether every
/// strength gain stayed within `i32`.
pub open spec fn conditions_ended(conditions: Seq<EnemyCondition>, strength: Strength) -> (Seq<EnemyCondition>, Strength, bool)
    decreases conditions.len(),
{
    if conditions.len() == 0 {
        (Seq::empty(), strength, true)
    } else {
        let (kept, s1, fits) = conditions_ended(conditions.drop_last(), strength);
        let c = conditions.last();
        let c_fits = c matches EnemyCondition::Ritual(r, false) ==> i32::MIN <= s1 + r <= i32::MAX;
        let (c2, s2, active) = enemy_turn_ended(c, s1);
        (if active { kept.push(c2) } else { kept }, s2, fits && c_fits)
    }
}

/// The state of the AI generator after the living enemies among the first `n` slots have
/// chosen their next actions, in slot order.
pub open spec fn ai_after_advancing(party: Seq<Option<EnemyState>>, ai: RngState, n: int) -> RngState
    decreases n,
{
    if n <= 0 {
        ai
    } else {
        let before = ai_after_advancing(party, ai, n - 1);
        match party[n - 1] {
            Some(e) => following_action(e.characteristics, before, e.next_action, e.run_length).0,
            None => before,
        }
    }
}

/// `after` is `before` with only block reset to zero.
pub open spec fn block_reset(before: EnemyState, after: EnemyState) -> bool {
    after == (EnemyState { block: 0, ..before })
}

impl EnemySystem {
    /// The enemy system of a floor; its AI generator is seeded with the floor's seed.
    pub fn new(seed_for_floor: Seed) -> (r: EnemySystem)
        ensures
            r.ai_rng@ == seeded_state(seed_for_floor.value),
            r.seed() == seed_for_floor,
    {
        EnemySystem { seed_for_floor, ai_rng: StsRandom::from_seed(seed_for_floor.value) }
    }

    /// The floor's seed.
    pub open spec fn seed(&self) -> Seed {
        self.seed_for_floor
    }

    /// Generates the enemies of `encounter`, their first actions drawn from the AI generator.
    pub fn create_enemy_party(&mut self, encounter: Encounter, misc_rng: &mut StsRandom) -> (r: EnemyParty)
        requires
            party_can_be_generated(encounter, old(misc_rng)@),
        ensures
            final(self).seed() == old(self).seed(),
            ({
                let (plan, _, misc) = party_plan(encounter, seeded_state(old(self).seed().value), old(misc_rng)@);
                &&& holds_plan(r.0@, plan, old(self).ai_rng@)
                &&& final(self).ai_rng@ == ai_after_spawning(plan, old(self).ai_rng@, plan.len() as int)
                &&& final(misc_rng)@ == misc
            }),
    {
        EnemyParty::generate(self.seed_for_floor, encounter, &mut self.ai_rng, misc_rng)
    }

    /// Starts the enemies' turn: their block is reset to zero (their conditions do not change
    /// at this point).
    pub fn start_turn(&mut self, enemy_party: &mut EnemyParty)
        ensures
            final(self).ai_rng@ == old(self).ai_rng@,
            final(self).seed() == old(self).seed(),
            final(enemy_party).0@.len() == old(enemy_party).0@.len(),
            forall|i: int| 0 <= i < old(enemy_party).0@.len() ==> match (#[trigger] old(enemy_party).0@[i], final(enemy_party).0@[i]) {
                (Some(b), Some(a)) => block_reset(b, a),
                (None, None) => true,
                _ => false,
            },
    {
        let n = enemy_party.0.len();
        let mut i: usize = 0;
        while i < n
            invariant
                n == old(enemy_party).0@.len(),
                enemy_party.0@.len() == n,
                i <= n,
                forall|k: int| 0 <= k < i ==> match (#[trigger] old(enemy_party).0@[k], enemy_party.0@[k]) {
                    (Some(b), Some(a)) => block_reset(b, a),
                    (None, None) => true,
                    _ => false,
                },
                forall|k: int| i <= k < n ==> #[trigger] enemy_party.0@[k] == old(enemy_party).0@[k],
            decreases n - i,
        {
            let slot = enemy_party.0.remove(i);
            let updated = match slot {
                Some(enemy) => Some(EnemyState { block: 0, ..enemy }),
                None => None,
            };
            enemy_party.0.insert(i, updated);
            i = i + 1;
        }
    }

    /// Ends the enemies' turn: each living enemy's conditions are ended in order (Ritual grants
    /// strength, Vulnerable and Weak tick down and end at zero), then it chooses its next
    /// action, in slot order.
    pub fn end_turn(&mut self, enemy_party: &mut EnemyParty)
        requires
            forall|i: int| 0 <= i < old(enemy_party).0@.len() ==> (#[trigger] old(enemy_party).0@[i] matches Some(e)
                ==> conditions_ended(e.conditions@, e.strength).2),
        ensures
            final(self).seed() == old(self).seed(),
            final(self).ai_rng@ == ai_after_advancing(old(enemy_party).0@, old(self).ai_rng@, old(enemy_party).0@.len() as int),
            final(enemy_party).0@.len() == old(enemy_party).0@.len(),
            forall|i: int| 0 <= i < old(enemy_party).0@.len() ==> match (#[trigger] old(enemy_party).0@[i], final(enemy_party).0@[i]) {
                (Some(b), Some(a)) => {
                    let (conditions, strength, _) = conditions_ended(b.conditions@, b.strength);
                    let next = following_action(b.characteristics, ai_after_advancing(old(enemy_party).0@, old(self).ai_rng@, i), b.next_action, b.run_length).1;
                    &&& a.conditions@ == conditions
                    &&& a.strength == strength
                    &&& a.next_action == next
                    &&& a.run_length == run_length_after(b.next_action, next, b.run_length)
                    &&& a.enemy == b.enemy && a.hp == b.hp && a.hp_max == b.hp_max && a.block == b.block
                    &&& a.characteristics == b.characteristics
                },
                (None, None) => true,
                _ => false,
            },
    {
        let n = enemy_party.0.len();
        let mut i: usize = 0;
        while i < n
            invariant
                n == old(enemy_party).0@.len(),
                enemy_party.0@.len() == n,
                i <= n,
                self.seed() == old(self).seed(),
                self.ai_rng@ == ai_after_advancing(old(enemy_party).0@, old(self).ai_rng@, i as int),
                forall|k: int| 0 <= k < n ==> (#[trigger] old(enemy_party).0@[k] matches Some(e)
                    ==> conditions_ended(e.conditions@, e.strength).2),
                forall|k: int| 0 <= k < i ==> match (#[trigger] old(enemy_party).0@[k], enemy_party.0@[k]) {
                    (Some(b), Some(a)) => {
                        let (conditions, strength, _) = conditions_ended(b.conditions@, b.strength);
                        let next = following_action(b.characteristics, ai_after_advancing(old(enemy_party).0@, old(self).ai_rng@, k), b.next_action, b.run_length).1;
                        &&& a.conditions@ == conditions
                        &&& a.strength == strength
                        &&& a.next_action == next
                        &&& a.run_length == run_length_after(b.next_action, next, b.run_length)
                        &&& a.enemy == b.enemy && a.hp == b.hp && a.hp_max == b.hp_max && a.block == b.block
                        &&& a.characteristics == b.characteristics
                    },
                    (None, None) => true,
                    _ => false,
                },
                forall|k: int| i <= k < n ==> #[trigger] enemy_party.0@[k] == old(enemy_party).0@[k],
            decreases n - i,
        {
            let slot = enemy_party.0.remove(i);
            let ghost before_slot = slot;
            let updated = match slot {
                Some(mut enemy) => {
                    let ghost b = enemy;
                    crate::systems::combat::enemy_condition_system::end_enemy_conditions(&mut enemy);
                    self.advance_action(&mut enemy);
                    proof {
                        assert(old(enemy_party).0@[i as int] == Some(b));
                    }
                    Some(enemy)
                },
                None => None,
            };
            enemy_party.0.insert(i, updated);
            i = i + 1;
        }
    }

    /// Chooses the enemy's next action; the run length grows when the action repeats and is
    /// one otherwise.
    pub fn advance_action(&mut self, enemy_state: &mut EnemyState)
        ensures
            final(self).seed() == old(self).seed(),
            action_advanced(*old(enemy_state), *final(enemy_state), old(self).ai_rng@, final(self).ai_rng@),
    {
        advance_enemy_action(enemy_state, &mut self.ai_rng);
    }
}

/// `after` is `before` having chosen its next action with the generator going from `ai` to
/// `ai_after`: the run length grows when the action repeats and is one otherwise; nothing else
/// changes.
pub open spec fn action_advanced(before: EnemyState, after: EnemyState, ai: RngState, ai_after: RngState) -> bool {
    &&& (ai_after, after.next_action) == following_action(before.characteristics, ai, before.next_action, before.run_length)
    &&& after.run_length == run_length_after(before.next_action, after.next_action, before.run_length)
    &&& after == (EnemyState { next_action: after.next_action, run_length: after.run_length, ..before })
}

/// Chooses the enemy's next action with `ai_rng` (see `action_advanced`).
pub(crate) fn advance_enemy_action(enemy_state: &mut EnemyState, ai_rng: &mut StsRandom)
    ensures
        action_advanced(*old(enemy_state), *final(enemy_state), old(ai_rng)@, final(ai_rng)@),
{
    let action = enemy_state.next_action;
    enemy_state.next_action = enemy_state.characteristics.next_action(ai_rng, action, enemy_state.run_length);
    if enemy_state.next_action == action {
        enemy_state.run_length = enemy_state.run_length.saturating_add(1);
    } else {
        enemy_state.run_length = 1;
    }
}

} // verus!
