use std::sync::mpsc::channel;

use sts_sim::components::{Damage, Effect, EnemyEffect, PlayerEffect, PlayerPersistentState, Resource, TargetEffect};
use sts_sim::data::{Encounter, EnemyCondition, PlayerCondition, IRONCLAD};
use sts_sim::player::comms::Comms;
use sts_sim::rng::seed::Seed;
use sts_sim::rng::sts::StsRandom;
use sts_sim::systems::base::combat_context::CombatContext;
use sts_sim::systems::combat::block_system::BlockSystem;
use sts_sim::systems::combat::damage_calculator::CalculatedDamage;
use sts_sim::systems::combat::effect_system::EffectSystem;
use sts_sim::systems::combat::enemy_effect_system::EnemyEffectSystem;
use sts_sim::systems::combat::player_effect_system::PlayerEffectSystem;

fn context_for_effects() -> CombatContext {
    let (_to_server, from_client) = channel();
    let (to_client, from_server) = channel();
    std::mem::forget(from_server);
    std::mem::forget(_to_server);
    let comms = Comms::new(from_client, to_client);
    CombatContext::new(
        comms,
        Seed::from(3),
        Encounter::SmallSlimes,
        PlayerPersistentState::new(IRONCLAD),
        StsRandom::from_seed(3),
    )
}

fn living(ctx: &CombatContext) -> Vec<usize> {
    (0..ctx.enemy_party.0.len()).filter(|i| ctx.enemy_party.0[*i].is_some()).collect()
}

#[test]
fn block_absorbs_damage_to_the_player_before_hit_points() {
    let mut ctx = context_for_effects();
    let hp = ctx.pps.hp;
    ctx.pcs.block = 5;
    BlockSystem::damage_player(&mut ctx, CalculatedDamage::Blockable(8)).unwrap();
    assert_eq!(ctx.pcs.block, 0);
    assert_eq!(ctx.pps.hp, hp - 3);
    BlockSystem::damage_player(&mut ctx, CalculatedDamage::Blockable(0)).unwrap();
    assert_eq!(ctx.pps.hp, hp - 3);
    ctx.pcs.block = 10;
    BlockSystem::damage_player(&mut ctx, CalculatedDamage::HpLoss(2)).unwrap();
    assert_eq!(ctx.pcs.block, 10);
    assert_eq!(ctx.pps.hp, hp - 5);
}

#[test]
fn an_enemy_gains_block_and_strength_then_hits_harder() {
    let mut ctx = context_for_effects();
    let i = living(&ctx)[0];
    ctx.maybe_enemy_index = Some(i);
    let block = ctx.enemy_party.0[i].as_ref().unwrap().block;
    EnemyEffectSystem::process_enemy_effect(&mut ctx, &EnemyEffect::Gain(Resource::Block(4))).unwrap();
    assert_eq!(ctx.enemy_party.0[i].as_ref().unwrap().block, block + 4);
    EnemyEffectSystem::process_enemy_effect(&mut ctx, &EnemyEffect::Gain(Resource::Strength(2))).unwrap();
    let hp = ctx.pps.hp;
    EnemyEffectSystem::process_enemy_effect(&mut ctx, &EnemyEffect::Deal(Damage::Blockable(6))).unwrap();
    assert_eq!(ctx.pps.hp, hp - 8);
    EnemyEffectSystem::process_enemy_effect(&mut ctx, &EnemyEffect::Inflict(PlayerCondition::Vulnerable(2))).unwrap();
    assert_eq!(ctx.pcs.conditions, vec![PlayerCondition::Vulnerable(2)]);
    EnemyEffectSystem::process_enemy_effect(&mut ctx, &EnemyEffect::Deal(Damage::Blockable(4))).unwrap();
    assert_eq!(ctx.pps.hp, hp - 8 - 9);
}

#[test]
fn no_acting_enemy_means_no_enemy_effect() {
    let mut ctx = context_for_effects();
    let hp = ctx.pps.hp;
    EnemyEffectSystem::process_enemy_effect(&mut ctx, &EnemyEffect::Deal(Damage::Blockable(6))).unwrap();
    assert_eq!(ctx.pps.hp, hp);
}

#[test]
fn the_player_gains_block_draws_and_hits_the_target() {
    let mut ctx = context_for_effects();
    PlayerEffectSystem::process_player_effect(&mut ctx, &PlayerEffect::Gain(Resource::Block(5))).unwrap();
    assert_eq!(ctx.pcs.block, 5);
    PlayerEffectSystem::process_player_effect(&mut ctx, &PlayerEffect::Draw(2)).unwrap();
    assert_eq!(ctx.pcs.hand.len(), 2);
    assert_eq!(ctx.pcs.draw_pile.len(), 8);
    let i = living(&ctx)[0];
    ctx.maybe_enemy_index = Some(i);
    let hp = ctx.enemy_party.0[i].as_ref().unwrap().hp;
    PlayerEffectSystem::process_player_effect(&mut ctx, &PlayerEffect::ToSingleTarget(TargetEffect::Deal(Damage::Blockable(3)))).unwrap();
    assert_eq!(ctx.enemy_party.0[i].as_ref().unwrap().hp, hp - 3);
    PlayerEffectSystem::process_player_effect(&mut ctx, &PlayerEffect::ToSingleTarget(TargetEffect::Inflict(EnemyCondition::Weak(1)))).unwrap();
    assert!(ctx.enemy_party.0[i].as_ref().unwrap().conditions.contains(&EnemyCondition::Weak(1)));
    PlayerEffectSystem::process_player_effect(&mut ctx, &PlayerEffect::Apply(PlayerCondition::Weak(1))).unwrap();
    PlayerEffectSystem::process_player_effect(&mut ctx, &PlayerEffect::ToSingleTarget(TargetEffect::Deal(Damage::Blockable(4)))).unwrap();
    assert_eq!(ctx.enemy_party.0[i].as_ref().unwrap().hp, hp - 6);
}

#[test]
fn a_random_target_is_a_living_enemy() {
    let mut ctx = context_for_effects();
    let first = living(&ctx)[0];
    ctx.enemy_party.0[first] = None;
    let only = living(&ctx)[0];
    let hp = ctx.enemy_party.0[only].as_ref().unwrap().hp;
    PlayerEffectSystem::process_player_effect(&mut ctx, &PlayerEffect::ToRandomEnemy(TargetEffect::Deal(Damage::Blockable(1)))).unwrap();
    assert_eq!(ctx.maybe_enemy_index, Some(only));
    assert_eq!(ctx.enemy_party.0[only].as_ref().unwrap().hp, hp - 1);
}

#[test]
fn a_killed_enemy_leaves_its_slot() {
    let mut ctx = context_for_effects();
    let i = living(&ctx)[0];
    ctx.maybe_enemy_index = Some(i);
    ctx.enemy_party.0[i].as_mut().unwrap().hp = 3;
    let effect = Effect::PlayerState(PlayerEffect::ToSingleTarget(TargetEffect::Deal(Damage::Blockable(10))));
    EffectSystem::process_effect(&mut ctx, effect).unwrap();
    assert!(ctx.enemy_party.0[i].is_none());
    assert_eq!(living(&ctx).len(), 1);
}

#[test]
fn an_effect_on_every_enemy_hits_each_living_one() {
    let mut ctx = context_for_effects();
    let slots = living(&ctx);
    let before: Vec<u32> = slots.iter().map(|i| ctx.enemy_party.0[*i].as_ref().unwrap().hp).collect();
    PlayerEffectSystem::process_player_effect(&mut ctx, &PlayerEffect::ToAllEnemies(TargetEffect::Deal(Damage::Blockable(3)))).unwrap();
    for (k, i) in slots.iter().enumerate() {
        assert_eq!(ctx.enemy_party.0[*i].as_ref().unwrap().hp, before[k] - 3);
    }
    assert_eq!(ctx.maybe_enemy_index, Some(*slots.last().unwrap()));
}

#[test]
fn the_effect_queue_is_resolved_in_order() {
    let mut ctx = context_for_effects();
    ctx.effect_queue.push_back(Effect::PlayerState(PlayerEffect::Gain(Resource::Block(5))));
    ctx.effect_queue.push_back(Effect::PlayerState(PlayerEffect::ToAllEnemies(TargetEffect::Inflict(EnemyCondition::Weak(1)))));
    ctx.effect_queue.push_back(Effect::PlayerState(PlayerEffect::Draw(1)));
    EffectSystem::process_effect_queue(&mut ctx).unwrap();
    assert_eq!(ctx.effect_queue.len(), 0);
    assert_eq!(ctx.pcs.block, 5);
    assert_eq!(ctx.pcs.hand.len(), 1);
    for i in living(&ctx) {
        assert!(ctx.enemy_party.0[i].as_ref().unwrap().conditions.contains(&EnemyCondition::Weak(1)));
    }
}

#[test]
fn the_effect_queue_stops_when_the_combat_is_over() {
    let mut ctx = context_for_effects();
    let slots = living(&ctx);
    ctx.enemy_party.0[slots[0]] = None;
    ctx.enemy_party.0[slots[1]].as_mut().unwrap().hp = 2;
    ctx.maybe_enemy_index = Some(slots[1]);
    ctx.effect_queue.push_back(Effect::PlayerState(PlayerEffect::ToSingleTarget(TargetEffect::Deal(Damage::Blockable(5)))));
    ctx.effect_queue.push_back(Effect::PlayerState(PlayerEffect::Gain(Resource::Block(5))));
    EffectSystem::process_effect_queue(&mut ctx).unwrap();
    assert!(ctx.combat_should_end());
    assert_eq!(ctx.pcs.block, 0);
    assert_eq!(ctx.effect_queue.len(), 1);
}
