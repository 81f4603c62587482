use vstd::prelude::*;

use crate::components::{player_as_defender, AttackerStatus, DefenderStatus, EnemyEffect, Resource};
use crate::player::comms::tallied;
use crate::player::message::StsError;
use crate::systems::base::combat_context::CombatContext;
use crate::systems::enemy::enemy_state::{has_vulnerable, has_weak, EnemyState};

use super::block_system::{player_damaged, BlockSystem};
use super::condition::{applied, apply_fits};
use super::condition_system::{conditions_changed, told_conditions};
use super::damage_calculator::{block_gained, damage_in_range, damage_inflicted, DamageCalculator};
use super::enemy_condition_system::EnemyConditionSystem;
use super::player_condition_system::{only_player_combat_state_changed, PlayerConditionSystem};

verus! {

/// The effects that enemies bring about.
pub struct EnemyEffectSystem;

/// An enemy as an attacker: its block, strength and weakness (it has no cards).
pub open spec fn enemy_as_attacker(e: EnemyState) -> AttackerStatus {
    AttackerStatus {
        block: e.block,
        draw_pile_size: 0,
        hand_size: 0,
        is_weak: has_weak(e.conditions@),
        number_of_strike_cards_owned: 0,
        strength: e.strength,
    }
}

/// An enemy as a defender: no dexterity, never frail, vulnerable or not.
pub open spec fn enemy_as_defender(e: EnemyState) -> DefenderStatus {
    DefenderStatus { dexterity: 0, is_frail: false, is_vulnerable: has_vulnerable(e.conditions@) }
}

/// The enemy that effects act on: the one in the slot that `maybe_enemy_index` names, if any.
pub open spec fn acting_enemy(ctx: CombatContext) -> Option<EnemyState> {
    match ctx.maybe_enemy_index {
        Some(i) => if i < ctx.enemy_party.0@.len() { ctx.enemy_party.0@[i as int] } else { None },
        None => None,
    }
}

/// Only the enemy acted on changed, and it is still there.
pub open spec fn only_acting_enemy_changed(before: CombatContext, after: CombatContext) -> bool {
    let i = before.maybe_enemy_index->0 as int;
    &&& after.enemy_party.0@.len() == before.enemy_party.0@.len()
    &&& forall|j: int| 0 <= j < before.enemy_party.0@.len() && j != i ==> after.enemy_party.0@[j] == #[trigger] before.enemy_party.0@[j]
    &&& acting_enemy(after) is Some
    &&& after.comms == before.comms
    &&& after.pps == before.pps
    &&& after.pcs == before.pcs
    &&& after.maybe_enemy_index == before.maybe_enemy_index
    &&& after.effect_queue == before.effect_queue
    &&& after.misc_rng == before.misc_rng
    &&& after.enemy_rng == before.enemy_rng
    &&& after.shuffle_rng == before.shuffle_rng
    &&& after.card_randomizer_rng == before.card_randomizer_rng
}

/// What an enemy effect needs to be carried out without overflow: a condition applied merges
/// within range, damage is within range, block and strength gained fit, and an enemy gains
/// nothing but block and strength.
pub open spec fn enemy_effect_fits(ctx: CombatContext, effect: EnemyEffect) -> bool {
    match acting_enemy(ctx) {
        None => true,
        Some(e) => match effect {
            EnemyEffect::Apply(c) => apply_fits(e.conditions@, c),
            EnemyEffect::Deal(d) => damage_in_range(enemy_as_attacker(e), d),
            EnemyEffect::Gain(Resource::Block(b)) => e.block + block_gained(enemy_as_defender(e), b) <= u32::MAX,
            EnemyEffect::Gain(Resource::Strength(s)) => i32::MIN <= e.strength + s <= i32::MAX,
            EnemyEffect::Gain(_) => false,
            EnemyEffect::Inflict(c) => apply_fits(ctx.pcs.conditions@, c),
        },
    }
}

/// `after` is `before` once the acting enemy brought about `effect`; `failed` tells whether a
/// message could not be sent. With no enemy to act, nothing happens.
pub open spec fn enemy_effect_done(before: CombatContext, after: CombatContext, effect: EnemyEffect, failed: bool) -> bool {
    match acting_enemy(before) {
        None => after == before && !failed,
        Some(e) => {
            let a = acting_enemy(after)->0;
            match effect {
                EnemyEffect::Apply(c) => {
                    &&& only_acting_enemy_changed(before, after)
                    &&& a == (EnemyState { conditions: a.conditions, ..e })
                    &&& a.conditions@ == applied(e.conditions@, c)
                    &&& !failed
                },
                EnemyEffect::Deal(d) => player_damaged(before, after,
                    damage_inflicted(enemy_as_attacker(e), Some(player_as_defender(before.pcs)), d), failed),
                EnemyEffect::Gain(Resource::Block(b)) => {
                    &&& only_acting_enemy_changed(before, after)
                    &&& a == (EnemyState { block: (e.block + block_gained(enemy_as_defender(e), b)) as u32, ..e })
                    &&& !failed
                },
                EnemyEffect::Gain(Resource::Strength(s)) => {
                    &&& only_acting_enemy_changed(before, after)
                    &&& a == (EnemyState { strength: (e.strength + s) as i32, ..e })
                    &&& !failed
                },
                EnemyEffect::Gain(_) => false,
                EnemyEffect::Inflict(c) => {
                    &&& only_player_combat_state_changed(&before, &after)
                    &&& conditions_changed(&before.pcs, &after.pcs, applied(before.pcs.conditions@, c))
                    &&& told_conditions(before.comms.sent(), after.comms.sent(), after.pcs.conditions@)
                    &&& tallied(before.comms, after.comms, failed)
                },
            }
        },
    }
}

impl EnemyEffectSystem {
    /// The acting enemy brings about `effect`: it applies a condition to itself, deals damage
    /// to the player (see `BlockSystem::damage_player`), gains block or strength, or inflicts
    /// a condition on the player. With no enemy to act, nothing happens.
    pub fn process_enemy_effect(ctx: &mut CombatContext, effect: &EnemyEffect) -> (r: Result<(), StsError>)
        requires
            enemy_effect_fits(*old(ctx), *effect),
        ensures
            enemy_effect_done(*old(ctx), *final(ctx), *effect, r is Err),
            r matches Err(e) ==> e == StsError::Disconnected,
            tallied(old(ctx).comms, final(ctx).comms, r is Err),
    {
        let i = match ctx.maybe_enemy_index {
            Some(i) => i,
            None => return Ok(()),
        };
        if i >= ctx.enemy_party.0.len() {
            return Ok(());
        }
        let attacker = match &ctx.enemy_party.0[i] {
            Some(e) => e.attacker_status(),
            None => return Ok(()),
        };
        match *effect {
            EnemyEffect::Deal(d) => {
                let defender = ctx.pcs.defender_status();
                let damage = DamageCalculator::calculate_damage_inflicted(&attacker, Some(&defender), &d);
                BlockSystem::damage_player(ctx, damage)
            },
            EnemyEffect::Inflict(c) => PlayerConditionSystem::apply_to_player(ctx, &c),
            _ => {
                let slot = ctx.enemy_party.0.remove(i);
                let mut enemy = slot.unwrap();
                match *effect {
                    EnemyEffect::Apply(c) => EnemyConditionSystem::apply_to_enemy(&mut enemy, &c),
                    EnemyEffect::Gain(Resource::Block(b)) => {
                        let defender = enemy.defender_status();
                        let gained = DamageCalculator::calculate_block_gained(&defender, b);
                        enemy.block = enemy.block + gained;
                    },
                    EnemyEffect::Gain(Resource::Strength(s)) => {
                        enemy.strength = enemy.strength + s;
                    },
                    _ => {},
                }
                ctx.enemy_party.0.insert(i, Some(enemy));
                proof {
                    assert(ctx.enemy_party.0@ =~= old(ctx).enemy_party.0@.update(i as int, ctx.enemy_party.0@[i as int]));
                }
                Ok(())
            },
        }
    }
}

} // verus!
