use vstd::prelude::*;

use crate::components::{AttackerStatus, DefenderStatus, EnemyStatus};
use crate::data::{spec_action_intent, EnemyAction, EnemyCondition, EnemyType};
use crate::rng::sts::StsRandom;
use crate::types::{Block, Hp, HpMax, Strength};

use super::enemy_characteristics::{characteristic_hp_max, first_action, spawn_conditions, EnemyCharacteristics};

verus! {

/// An enemy in combat: its kind, health, block, strength and conditions, the action it will
/// take next and how many times in a row, and its characteristics.
#[derive(Debug)]
pub struct EnemyState {
    pub enemy: EnemyType,
    pub hp: Hp,
    pub hp_max: HpMax,
    pub block: Block,
    pub strength: Strength,
    pub conditions: Vec<EnemyCondition>,
    pub next_action: EnemyAction,
    pub run_length: usize,
    pub characteristics: EnemyCharacteristics,
}

/// `s` is a freshly spawned enemy of kind `enemy` with characteristics `c`, whose first action
/// was drawn from `ai`.
pub open spec fn spawned_as(s: EnemyState, enemy: EnemyType, c: EnemyCharacteristics, ai: crate::rng::sts::RngState) -> bool {
    &&& s.enemy == enemy
    &&& s.characteristics == c
    &&& s.hp == characteristic_hp_max(c)
    &&& s.hp_max == characteristic_hp_max(c)
    &&& s.block == 0
    &&& s.strength == 0
    &&& s.conditions@ == spawn_conditions(c)
    &&& s.next_action == first_action(c, ai).1
    &&& s.run_length == 1
}

/// Whether the conditions hold one of the kind `Weak`.
pub open spec fn has_weak(conditions: Seq<EnemyCondition>) -> bool {
    exists|i: int| 0 <= i < conditions.len() && conditions[i] is Weak
}

/// Whether the conditions hold one of the kind `Vulnerable`.
pub open spec fn has_vulnerable(conditions: Seq<EnemyCondition>) -> bool {
    exists|i: int| 0 <= i < conditions.len() && conditions[i] is Vulnerable
}

impl EnemyState {
    /// Spawns an enemy of kind `enemy` with the given characteristics; its first action is
    /// drawn from `ai_rng`.
    pub fn new(enemy: EnemyType, characteristics: EnemyCharacteristics, ai_rng: &mut StsRandom) -> (r: EnemyState)
        ensures
            spawned_as(r, enemy, characteristics, old(ai_rng)@),
            final(ai_rng)@ == first_action(characteristics, old(ai_rng)@).0,
    {
        let (hp_max, conditions, first_action) = characteristics.on_spawn(ai_rng);
        EnemyState {
            enemy,
            hp: hp_max,
            hp_max,
            block: 0,
            strength: 0,
            conditions,
            run_length: 1,
            next_action: first_action,
            characteristics,
        }
    }

    /// Whether the enemy has no hit points left.
    pub fn is_dead(&self) -> (r: bool)
        ensures
            r == (self.hp == 0),
    {
        self.hp == 0
    }

    /// Whether the enemy is weak.
    pub fn is_weak(&self) -> (r: bool)
        ensures
            r == has_weak(self.conditions@),
    {
        let mut i: usize = 0;
        while i < self.conditions.len()
            invariant
                i <= self.conditions@.len(),
                forall|k: int| 0 <= k < i ==> !(self.conditions@[k] is Weak),
            decreases self.conditions@.len() - i,
        {
            if let EnemyCondition::Weak(_) = self.conditions[i] {
                return true;
            }
            i = i + 1;
        }
        false
    }

    /// Whether the enemy is vulnerable.
    pub fn is_vulnerable(&self) -> (r: bool)
        ensures
            r == has_vulnerable(self.conditions@),
    {
        let mut i: usize = 0;
        while i < self.conditions.len()
            invariant
                i <= self.conditions@.len(),
                forall|k: int| 0 <= k < i ==> !(self.conditions@[k] is Vulnerable),
            decreases self.conditions@.len() - i,
        {
            if let EnemyCondition::Vulnerable(_) = self.conditions[i] {
                return true;
            }
            i = i + 1;
        }
        false
    }

    /// The enemy as an attacker: its block, strength and weakness (it has no cards).
    pub fn attacker_status(&self) -> (r: AttackerStatus)
        ensures
            r == (AttackerStatus {
                block: self.block,
                draw_pile_size: 0,
                hand_size: 0,
                is_weak: has_weak(self.conditions@),
                number_of_strike_cards_owned: 0,
                strength: self.strength,
            }),
    {
        AttackerStatus {
            block: self.block,
            draw_pile_size: 0,
            hand_size: 0,
            is_weak: self.is_weak(),
            number_of_strike_cards_owned: 0,
            strength: self.strength,
        }
    }

    /// The enemy as a defender: no dexterity, never frail, vulnerable or not.
    pub fn defender_status(&self) -> (r: DefenderStatus)
        ensures
            r == (DefenderStatus { dexterity: 0, is_frail: false, is_vulnerable: has_vulnerable(self.conditions@) }),
    {
        DefenderStatus { dexterity: 0, is_frail: false, is_vulnerable: self.is_vulnerable() }
    }

    /// What the player may know of this enemy.
    pub fn status(&self) -> (r: EnemyStatus)
        ensures
            r.enemy_type == self.enemy,
            r.hp == self.hp,
            r.hp_max == self.hp_max,
            r.strength == self.strength,
            r.block == self.block,
            r.conditions@ == self.conditions@,
            r.intent == spec_action_intent(self.next_action),
    {
        EnemyStatus {
            enemy_type: self.enemy,
            hp: self.hp,
            hp_max: self.hp_max,
            strength: self.strength,
            block: self.block,
            conditions: crate::player::message::copy_vec(&self.conditions),
            intent: self.next_action.intent(),
        }
    }
}

} // verus!
