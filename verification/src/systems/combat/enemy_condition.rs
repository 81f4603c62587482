use vstd::prelude::*;

use crate::components::{Damage, Effect, EffectQueue, EnemyEffect};
use crate::data::{EnemyCondition, PlayerCondition};
use crate::player::state::{spec_saturating_add, spec_saturating_sub};
use crate::systems::damage::damage_system::DamageTaken;
use crate::types::{Block, Strength};

use super::condition::{enemy_ended, enemy_merge_fits, enemy_merged};

verus! {

/// An enemy condition at the end of the enemies' turn, with the enemy's strength: Ritual
/// grants its strength (except on the turn it was applied), Vulnerable and Weak tick down.
pub open spec fn enemy_turn_ended(c: EnemyCondition, strength: Strength) -> (EnemyCondition, Strength, bool) {
    match c {
        EnemyCondition::Ritual(s, just_applied) => if just_applied {
            (EnemyCondition::Ritual(s, false), strength, true)
        } else {
            (c, (strength + s) as i32, true)
        },
        _ => (enemy_ended(c).0, strength, enemy_ended(c).1),
    }
}

/// What an enemy condition does when the enemy takes damage, given its block and the effect
/// queue: Curl Up adds its block and ends; Thorns queues its damage first when the damage was
/// an attack; the rest do nothing. Answers the block, the queue, and whether it stays.
pub open spec fn damage_reaction(c: EnemyCondition, block: Block, queue: Seq<Effect>, damage_taken: DamageTaken) -> (Block, Seq<Effect>, bool) {
    match c {
        EnemyCondition::CurlUp(b) => (spec_saturating_add(block, b), queue, false),
        EnemyCondition::Thorns(hp) => if damage_taken.provokes_thorns {
            (block, seq![Effect::EnemyState(EnemyEffect::Deal(Damage::BlockableNonAttack(hp)))] + queue, true)
        } else {
            (block, queue, true)
        },
        _ => (block, queue, true),
    }
}

/// What an enemy condition does when the enemy dies: Spore Cloud queues Vulnerable for the
/// player first. Answers the queue; the condition stays.
pub open spec fn death_reaction(c: EnemyCondition, queue: Seq<Effect>) -> Seq<Effect> {
    match c {
        EnemyCondition::SporeCloud(stacks) => seq![Effect::EnemyState(EnemyEffect::Inflict(PlayerCondition::Vulnerable(stacks)))] + queue,
        _ => queue,
    }
}

impl EnemyCondition {
    /// Merges `other` into this condition; answers whether they combined (they do exactly
    /// when they are the same condition).
    pub fn merge(&mut self, other: &Self) -> (r: bool)
        requires
            enemy_merge_fits(*old(self), *other),
        ensures
            r == enemy_merged(*old(self), *other) is Some,
            r ==> Some(*final(self)) == enemy_merged(*old(self), *other),
            !r ==> *final(self) == *old(self),
    {
        match (*self, *other) {
            (EnemyCondition::CurlUp(block), EnemyCondition::CurlUp(incoming)) => {
                *self = EnemyCondition::CurlUp(block + incoming);
                true
            },
            (EnemyCondition::Enrage(strength), EnemyCondition::Enrage(incoming)) => {
                *self = EnemyCondition::Enrage(strength + incoming);
                true
            },
            (EnemyCondition::Ritual(strength, just_applied), EnemyCondition::Ritual(incoming, incoming_just_applied)) => {
                *self = EnemyCondition::Ritual(strength + incoming, just_applied || incoming_just_applied);
                true
            },
            (EnemyCondition::SporeCloud(stacks), EnemyCondition::SporeCloud(incoming)) => {
                *self = EnemyCondition::SporeCloud(stacks + incoming);
                true
            },
            (EnemyCondition::StrengthLossThisTurn(strength), EnemyCondition::StrengthLossThisTurn(incoming)) => {
                *self = EnemyCondition::StrengthLossThisTurn(strength + incoming);
                true
            },
            (EnemyCondition::Thorns(hp), EnemyCondition::Thorns(incoming)) => {
                *self = EnemyCondition::Thorns(hp + incoming);
                true
            },
            (EnemyCondition::Vulnerable(turns), EnemyCondition::Vulnerable(incoming)) => {
                *self = EnemyCondition::Vulnerable(turns + incoming);
                true
            },
            (EnemyCondition::Weak(turns), EnemyCondition::Weak(incoming)) => {
                *self = EnemyCondition::Weak(turns + incoming);
                true
            },
            _ => false,
        }
    }

    /// The start of the enemies' turn changes no enemy condition; it stays active.
    pub fn start_turn(&mut self) -> (r: bool)
        ensures
            r,
            *final(self) == *old(self),
    {
        true
    }

    /// Ends the enemies' turn for this condition; Ritual adds to the enemy's strength.
    /// Answers whether the condition is still active.
    pub fn end_turn(&mut self, enemy_strength: &mut Strength) -> (r: bool)
        requires
            *old(self) matches EnemyCondition::Ritual(s, false) ==> i32::MIN <= (*old(enemy_strength)) + s <= i32::MAX,
        ensures
            (*final(self), *final(enemy_strength), r) == enemy_turn_ended(*old(self), *old(enemy_strength)),
    {
        match *self {
            EnemyCondition::Ritual(strength, just_applied) => {
                if just_applied {
                    *self = EnemyCondition::Ritual(strength, false);
                } else {
                    *enemy_strength = *enemy_strength + strength;
                }
                true
            },
            EnemyCondition::Vulnerable(turns) => {
                let left = turns.saturating_sub(1);
                *self = EnemyCondition::Vulnerable(left);
                left > 0
            },
            EnemyCondition::Weak(turns) => {
                let left = turns.saturating_sub(1);
                *self = EnemyCondition::Weak(left);
                left > 0
            },
            _ => true,
        }
    }

    /// Reacts to the enemy taking damage (see `damage_reaction`); answers whether the
    /// condition stays.
    pub fn on_damage_taken(&mut self, enemy_block: &mut Block, damage_taken: &DamageTaken, effect_queue: &mut EffectQueue) -> (r: bool)
        ensures
            (*final(enemy_block), final(effect_queue)@, r) == damage_reaction(*old(self), *old(enemy_block), old(effect_queue)@, *damage_taken),
            *final(self) == *old(self),
    {
        match *self {
            EnemyCondition::CurlUp(block) => {
                *enemy_block = enemy_block.saturating_add(block);
                false
            },
            EnemyCondition::Thorns(hp) => {
                if damage_taken.provokes_thorns {
                    effect_queue.push_front(Effect::EnemyState(EnemyEffect::Deal(Damage::BlockableNonAttack(hp))));
                }
                true
            },
            _ => true,
        }
    }

    /// Reacts to the enemy dying (see `death_reaction`); the condition stays.
    pub fn on_death(&mut self, effect_queue: &mut EffectQueue) -> (r: bool)
        ensures
            final(effect_queue)@ == death_reaction(*old(self), old(effect_queue)@),
            r,
            *final(self) == *old(self),
    {
        if let EnemyCondition::SporeCloud(stacks) = *self {
            effect_queue.push_front(Effect::EnemyState(EnemyEffect::Inflict(PlayerCondition::Vulnerable(stacks))));
        }
        true
    }
}

} // verus!
