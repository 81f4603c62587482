use std::sync::mpsc::channel;

use sts_sim::components::{CardInCombat, Effect, PlayerEffect, PlayerPersistentState};
use sts_sim::data::{Card, Encounter, EnergyCost, PlayerCondition, IRONCLAD};
use sts_sim::player::comms::Comms;
use sts_sim::rng::seed::Seed;
use sts_sim::rng::sts::StsRandom;
use sts_sim::systems::base::combat_context::CombatContext;
use sts_sim::systems::combat::enemy_combat_system::EnemyCombatSystem;
use sts_sim::systems::combat::draw_system::DrawSystem;
use sts_sim::systems::combat::block_system::BlockSystem;
use sts_sim::systems::combat::damage_calculator::CalculatedDamage;
use sts_sim::systems::combat::discard_system::DiscardSystem;
use sts_sim::systems::combat::energy_system::EnergySystem;
use sts_sim::systems::combat::player_combat_system::PlayerCombatSystem;
use sts_sim::systems::combat::player_condition_system::PlayerConditionSystem;

fn context() -> CombatContext {
    let (_to_server, from_client) = channel();
    let (to_client, from_server) = channel();
    std::mem::forget(from_server);
    std::mem::forget(_to_server);
    let comms = Comms::new(from_client, to_client);
    CombatContext::new(
        comms,
        Seed::from(3),
        Encounter::SmallSlimes,
        PlayerPersistentState::new(IRONCLAD),
        StsRandom::from_seed(3),
    )
}

#[test]
fn a_combat_starts_with_the_deck_and_two_slimes() {
    let mut ctx = context();
    assert_eq!(ctx.pcs.draw_pile.len(), 10);
    assert_eq!(ctx.pcs.energy, 3);
    assert_eq!(ctx.enemy_party.0.iter().filter(|e| e.is_some()).count(), 2);
    assert!(!ctx.combat_should_end());
    ctx.pps.hp = 0;
    assert!(ctx.combat_should_end());
}

#[test]
fn combat_ends_when_no_enemy_is_left() {
    let mut ctx = context();
    for slot in ctx.enemy_party.0.iter_mut() {
        *slot = None;
    }
    assert!(ctx.combat_should_end());
}

#[test]
fn energy_costs_drop_with_hit_point_losses() {
    let mut ctx = context();
    ctx.pcs.energy = 1;
    ctx.pcs.hp_loss_count = 2;
    assert!(EnergySystem::can_afford(&ctx.pcs, EnergyCost::ThreeMinusHpLossCount));
    assert!(!EnergySystem::can_afford(&ctx.pcs, EnergyCost::FourMinusHpLossCount));
    assert!(!EnergySystem::can_afford(&ctx.pcs, EnergyCost::Two));
    assert!(EnergySystem::can_afford(&ctx.pcs, EnergyCost::X));
    EnergySystem::spend(&mut ctx, EnergyCost::ThreeMinusHpLossCount).unwrap();
    assert_eq!(ctx.pcs.energy, 0);
    EnergySystem::on_player_turn_started(&mut ctx).unwrap();
    assert_eq!(ctx.pcs.energy, 3);
    EnergySystem::spend(&mut ctx, EnergyCost::Two).unwrap();
    assert_eq!(ctx.pcs.energy, 1);
    EnergySystem::spend(&mut ctx, EnergyCost::Five).unwrap();
    assert_eq!(ctx.pcs.energy, 0);
    EnergySystem::on_player_turn_started(&mut ctx).unwrap();
    EnergySystem::spend(&mut ctx, EnergyCost::X).unwrap();
    assert_eq!(ctx.pcs.energy, 0);
}

#[test]
fn enemies_turn_resets_block_and_clears_the_dead() {
    let mut ctx = context();
    let living: Vec<usize> = (0..ctx.enemy_party.0.len()).filter(|i| ctx.enemy_party.0[*i].is_some()).collect();
    ctx.enemy_party.0[living[0]].as_mut().unwrap().block = 7;
    ctx.enemy_party.0[living[1]].as_mut().unwrap().hp = 0;
    EnemyCombatSystem::on_enemies_turn_started(&mut ctx);
    assert_eq!(ctx.enemy_party.0[living[0]].as_ref().unwrap().block, 0);
    assert!(ctx.enemy_party.0[living[1]].is_none());
    EnemyCombatSystem::on_enemies_turn_finished(&mut ctx);
    assert!(ctx.enemy_party.0[living[0]].is_some());
}

#[test]
fn draws_come_from_the_shuffled_deck() {
    let mut ctx = context();
    DrawSystem::on_combat_started(&mut ctx);
    assert_eq!(ctx.pcs.draw_pile.len(), 10);
    assert_eq!(ctx.effect_queue.len(), 0);
    DrawSystem::on_player_turn_started(&mut ctx);
    assert_eq!(ctx.effect_queue.len(), 1);
    let top = *ctx.pcs.draw_pile.last().unwrap();
    DrawSystem::draw_one_card(&mut ctx).unwrap();
    assert_eq!(ctx.pcs.hand, vec![top]);
    assert_eq!(ctx.pcs.draw_pile.len(), 9);
}

#[test]
fn no_draw_and_full_hands_stop_drawing() {
    let mut ctx = context();
    ctx.pcs.conditions.push(PlayerCondition::NoDraw);
    DrawSystem::draw_one_card(&mut ctx).unwrap();
    assert!(ctx.pcs.hand.is_empty());
    ctx.pcs.conditions.clear();
    for _ in 0..10 {
        DrawSystem::draw_one_card(&mut ctx).unwrap();
    }
    assert_eq!(ctx.pcs.hand.len(), 10);
    DrawSystem::draw_one_card(&mut ctx).unwrap();
    assert_eq!(ctx.pcs.hand.len(), 10);
}

#[test]
fn an_empty_draw_pile_takes_the_discard_pile() {
    let mut ctx = context();
    let mut pile = vec![];
    std::mem::swap(&mut pile, &mut ctx.pcs.draw_pile);
    ctx.pcs.discard_pile = pile;
    DrawSystem::draw_one_card(&mut ctx).unwrap();
    assert_eq!(ctx.pcs.hand.len(), 1);
    assert_eq!(ctx.pcs.draw_pile.len(), 9);
    assert!(ctx.pcs.discard_pile.is_empty());
}

#[test]
fn confusion_rerolls_costs_and_evolve_draws_for_statuses() {
    let mut ctx = context();
    ctx.pcs.conditions = vec![PlayerCondition::Confused, PlayerCondition::Evolve(2)];
    ctx.pcs.draw_pile.push(CardInCombat::new(None, Card::Wound));
    DrawSystem::draw_one_card(&mut ctx).unwrap();
    let drawn = ctx.pcs.hand[0];
    assert_eq!(drawn.card, Card::Wound);
    assert!(drawn.cost_this_combat <= 3);
    assert_eq!(drawn.cost_this_combat, drawn.cost_this_turn);
    assert_eq!(ctx.effect_queue.len(), 1);
    assert_eq!(ctx.effect_queue.pop_front(), Some(Effect::PlayerState(PlayerEffect::Draw(2))));
}

#[test]
fn player_block_is_gained_and_reset() {
    let mut ctx = context();
    BlockSystem::gain_block(&mut ctx, 5).unwrap();
    assert_eq!(ctx.pcs.block, 5);
    BlockSystem::gain_block(&mut ctx, u32::MAX).unwrap();
    assert_eq!(ctx.pcs.block, u32::MAX);
    BlockSystem::on_player_turn_started(&mut ctx).unwrap();
    assert_eq!(ctx.pcs.block, 0);
}

#[test]
fn enemy_block_absorbs_damage_then_resets() {
    let mut ctx = context();
    let index = (0..ctx.enemy_party.0.len()).find(|i| ctx.enemy_party.0[*i].is_some()).unwrap();
    let mut enemy = ctx.enemy_party.0[index].take().unwrap();
    enemy.block = 4;
    enemy.conditions.clear();
    let hp = enemy.hp;
    BlockSystem::damage_enemy(&mut enemy, CalculatedDamage::Blockable(6), &mut ctx.effect_queue);
    assert_eq!(enemy.block, 0);
    assert_eq!(enemy.hp, hp - 2);
    BlockSystem::damage_enemy(&mut enemy, CalculatedDamage::HpLoss(1), &mut ctx.effect_queue);
    assert_eq!(enemy.hp, hp - 3);
    enemy.block = 9;
    ctx.enemy_party.0[index] = Some(enemy);
    BlockSystem::on_enemies_turn_started(&mut ctx);
    assert_eq!(ctx.enemy_party.0[index].as_ref().unwrap().block, 0);
}

#[test]
fn conditions_and_discards_in_combat() {
    let mut ctx = context();
    PlayerConditionSystem::apply_to_player(&mut ctx, &PlayerCondition::Weak(2)).unwrap();
    PlayerConditionSystem::apply_to_player(&mut ctx, &PlayerCondition::Weak(1)).unwrap();
    assert_eq!(ctx.pcs.conditions, vec![PlayerCondition::Weak(3)]);
    PlayerConditionSystem::on_player_turn_finished(&mut ctx).unwrap();
    assert_eq!(ctx.pcs.conditions, vec![PlayerCondition::Weak(2)]);
    let card = CardInCombat { deck_index: None, card: Card::Strike, cost_this_combat: 1, cost_this_turn: 1 };
    DiscardSystem::push(&mut ctx, 0, card).unwrap();
    assert_eq!(ctx.pcs.discard_pile, vec![card]);
}

#[test]
fn player_turn_starts_with_energy_no_block_and_a_draw_queued() {
    let mut ctx = context();
    ctx.pcs.block = 4;
    ctx.pcs.energy = 0;
    PlayerCombatSystem::on_player_turn_started(&mut ctx).unwrap();
    assert_eq!(ctx.pcs.block, 0);
    assert_eq!(ctx.pcs.energy, 3);
    assert_eq!(ctx.effect_queue.len(), 1);
    assert_eq!(ctx.effect_queue.pop_front(), Some(Effect::PlayerState(PlayerEffect::Draw(5))));
}

#[test]
fn burning_blood_heals_after_combat() {
    let (_to_server, from_client) = channel();
    let (to_client, _from_server) = channel();
    let mut comms = Comms::new(from_client, to_client);
    let mut pps = PlayerPersistentState::new(IRONCLAD);
    pps.hp = 70;
    PlayerCombatSystem::on_combat_finished(&mut comms, &mut pps).unwrap();
    assert_eq!(pps.hp, 76);
    pps.hp = 79;
    PlayerCombatSystem::on_combat_finished(&mut comms, &mut pps).unwrap();
    assert_eq!(pps.hp, 80);
}
