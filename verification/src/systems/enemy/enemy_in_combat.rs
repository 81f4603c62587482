use vstd::prelude::*;

use crate::components::EnemyStatus;
use crate::data::{spec_action_intent, EnemyAction, EnemyCondition};
use crate::player::state::{spec_saturating_add, spec_saturating_sub};
use crate::rng::sts::StsRandom;
use crate::types::{AttackDamage, Block};

use super::enemy_characteristics::{characteristic_kind, first_action, following_action, EnemyCharacteristics};
use super::enemy_state::{spawned_as, EnemyState};
use super::enemy_system::{conditions_ended, run_length_after};

verus! {

/// An enemy taking part in a combat.
#[derive(Debug)]
pub struct EnemyInCombat {
    pub state: EnemyState,
}

/// What applying `incoming` to an existing condition of the same kind makes of it: Ritual adds
/// up (saturating) and counts as applied this turn, Spore Cloud stays as it was, Vulnerable and
/// Weak add up (saturating). Other conditions are not merged.
pub open spec fn merged_in_combat(existing: EnemyCondition, incoming: EnemyCondition) -> Option<EnemyCondition> {
    match (existing, incoming) {
        (EnemyCondition::Ritual(a, _), EnemyCondition::Ritual(b, _)) => Some(EnemyCondition::Ritual(
            if a + b > i32::MAX { i32::MAX } else if a + b < i32::MIN { i32::MIN } else { (a + b) as i32 },
            true,
        )),
        (EnemyCondition::SporeCloud(a), EnemyCondition::SporeCloud(_)) => Some(EnemyCondition::SporeCloud(a)),
        (EnemyCondition::Vulnerable(a), EnemyCondition::Vulnerable(b)) => Some(EnemyCondition::Vulnerable(spec_saturating_add(a, b))),
        (EnemyCondition::Weak(a), EnemyCondition::Weak(b)) => Some(EnemyCondition::Weak(spec_saturating_add(a, b))),
        _ => None,
    }
}

/// The conditions after applying `c`: merged into the first condition it merges with, or added.
pub open spec fn applied_in_combat(s: Seq<EnemyCondition>, c: EnemyCondition) -> Seq<EnemyCondition>
    decreases s.len(),
{
    if s.len() == 0 {
        seq![c]
    } else if merged_in_combat(s[0], c) is Some {
        seq![merged_in_combat(s[0], c)->0] + s.drop_first()
    } else {
        seq![s[0]] + applied_in_combat(s.drop_first(), c)
    }
}

/// Merges `incoming` into `existing` when they merge; answers whether they did.
fn maybe_merge_conditions(existing: &mut EnemyCondition, incoming: &EnemyCondition) -> (r: bool)
    ensures
        r == merged_in_combat(*old(existing), *incoming) is Some,
        r ==> Some(*final(existing)) == merged_in_combat(*old(existing), *incoming),
        !r ==> *final(existing) == *old(existing),
{
    match (*existing, *incoming) {
        (EnemyCondition::Ritual(intensity, _), EnemyCondition::Ritual(additional, _)) => {
            let sum: i64 = intensity as i64 + additional as i64;
            let capped: i32 = if sum > i32::MAX as i64 { i32::MAX } else if sum < i32::MIN as i64 { i32::MIN } else { sum as i32 };
            *existing = EnemyCondition::Ritual(capped, true);
            true
        },
        (EnemyCondition::SporeCloud(_), EnemyCondition::SporeCloud(_)) => true,
        (EnemyCondition::Vulnerable(turns), EnemyCondition::Vulnerable(additional)) => {
            *existing = EnemyCondition::Vulnerable(turns.saturating_add(additional));
            true
        },
        (EnemyCondition::Weak(turns), EnemyCondition::Weak(additional)) => {
            *existing = EnemyCondition::Weak(turns.saturating_add(additional));
            true
        },
        _ => false,
    }
}

impl EnemyInCombat {
    /// Spawns the enemy with these characteristics; its first action is drawn from `ai_rng`.
    pub fn new(characteristics: EnemyCharacteristics, ai_rng: &mut StsRandom) -> (r: EnemyInCombat)
        ensures
            spawned_as(r.state, characteristic_kind(characteristics), characteristics, old(ai_rng)@),
            final(ai_rng)@ == first_action(characteristics, old(ai_rng)@).0,
    {
        let enemy = characteristics.enemy_type();
        EnemyInCombat { state: EnemyState::new(enemy, characteristics, ai_rng) }
    }

    /// Takes the announced action and chooses the next one; answers the action taken.
    pub fn next_action(&mut self, ai_rng: &mut StsRandom) -> (r: EnemyAction)
        ensures
            r == old(self).state.next_action,
            (final(ai_rng)@, final(self).state.next_action) == following_action(
                old(self).state.characteristics, old(ai_rng)@, r, old(self).state.run_length),
            final(self).state.run_length == run_length_after(r, final(self).state.next_action, old(self).state.run_length),
            final(self).state == (EnemyState {
                next_action: final(self).state.next_action,
                run_length: final(self).state.run_length,
                ..old(self).state
            }),
    {
        let action = self.state.next_action;
        self.state.next_action = self.state.characteristics.next_action(ai_rng, action, self.state.run_length);
        if self.state.next_action == action {
            self.state.run_length = self.state.run_length.saturating_add(1);
        } else {
            self.state.run_length = 1;
        }
        action
    }

    /// The enemy's block goes back to zero at the start of its turn.
    pub fn start_turn(&mut self)
        ensures
            final(self).state == (EnemyState { block: 0, ..old(self).state }),
    {
        self.state.block = 0;
    }

    /// Ends the enemy's turn for its conditions: Ritual grants its strength unless applied this
    /// turn, Vulnerable and Weak tick down and end at zero.
    pub fn end_turn(&mut self)
        requires
            conditions_ended(old(self).state.conditions@, old(self).state.strength).2,
        ensures
            final(self).state.conditions@ == conditions_ended(old(self).state.conditions@, old(self).state.strength).0,
            final(self).state == (EnemyState {
                conditions: final(self).state.conditions,
                strength: conditions_ended(old(self).state.conditions@, old(self).state.strength).1,
                ..old(self).state
            }),
    {
        crate::systems::combat::enemy_condition_system::end_enemy_conditions(&mut self.state);
    }

    /// Applies a condition: merged into the first one it merges with, or added.
    pub fn apply_condition(&mut self, condition: &EnemyCondition)
        ensures
            final(self).state.conditions@ == applied_in_combat(old(self).state.conditions@, *condition),
            final(self).state == (EnemyState { conditions: final(self).state.conditions, ..old(self).state }),
    {
        let ghost s = self.state.conditions@;
        let mut i: usize = 0;
        assert(s.subrange(0, s.len() as int) == s);
        assert(s.subrange(0, 0) + applied_in_combat(s, *condition) == applied_in_combat(s, *condition));
        while i < self.state.conditions.len()
            invariant
                i <= self.state.conditions@.len(),
                self.state.conditions@ == s,
                s == old(self).state.conditions@,
                self.state == old(self).state,
                applied_in_combat(s, *condition) == s.subrange(0, i as int) + applied_in_combat(s.subrange(i as int, s.len() as int), *condition),
            decreases self.state.conditions@.len() - i,
        {
            let ghost tail = s.subrange(i as int, s.len() as int);
            assert(tail[0] == s[i as int]);
            assert(tail.drop_first() == s.subrange(i as int + 1, s.len() as int));
            let mut existing = self.state.conditions[i];
            let ghost before = existing;
            if maybe_merge_conditions(&mut existing, condition) {
                self.state.conditions.set(i, existing);
                proof {
                    assert(applied_in_combat(tail, *condition) == seq![existing] + tail.drop_first());
                    assert(self.state.conditions@ =~= s.subrange(0, i as int) + (seq![existing] + tail.drop_first()));
                }
                return;
            }
            proof {
                assert(s.subrange(0, i as int + 1) == s.subrange(0, i as int) + seq![s[i as int]]);
                assert(applied_in_combat(s, *condition) =~= s.subrange(0, i as int + 1)
                    + applied_in_combat(s.subrange(i as int + 1, s.len() as int), *condition));
            }
            i = i + 1;
        }
        self.state.conditions.push(*condition);
        proof {
            assert(s.subrange(s.len() as int, s.len() as int) == Seq::<EnemyCondition>::empty());
            assert(self.state.conditions@ =~= s + seq![*condition]);
        }
    }

    /// Takes damage already adjusted for strength, weakness and vulnerability: block absorbs
    /// what it can, hit points take the rest. Answers the block before the hit and the damage
    /// that got through.
    pub fn take_damage(&mut self, amount: AttackDamage) -> (r: (Block, AttackDamage))
        ensures
            r.0 == old(self).state.block,
            r.1 == spec_saturating_sub(amount, old(self).state.block),
            final(self).state == (EnemyState {
                block: spec_saturating_sub(old(self).state.block, amount),
                hp: spec_saturating_sub(old(self).state.hp, r.1),
                ..old(self).state
            }),
    {
        let block = self.state.block;
        let remaining_damage = amount.saturating_sub(block);
        self.state.block = self.state.block.saturating_sub(amount);
        self.state.hp = self.state.hp.saturating_sub(remaining_damage);
        (block, remaining_damage)
    }

    /// What the player may know of this enemy.
    pub fn status(&self) -> (r: EnemyStatus)
        ensures
            r.enemy_type == self.state.enemy,
            r.hp == self.state.hp,
            r.hp_max == self.state.hp_max,
            r.conditions@ == self.state.conditions@,
            r.intent == spec_action_intent(self.state.next_action),
    {
        self.state.status()
    }
}

} // verus!
