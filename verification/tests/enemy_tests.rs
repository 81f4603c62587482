use sts_sim::data::EnemyType;
use sts_sim::rng::seed::Seed;
use sts_sim::rng::StsRandom;
use sts_sim::sim::enemy::{Enemy, EnemyMoveId};
use sts_sim::components::{AttackerStatus, Damage, DefenderStatus};
use sts_sim::systems::combat::damage_calculator::{CalculatedDamage, DamageCalculator};

#[test]
fn enemy_test_acid_slime() {
    let seed: Seed = 3u64.into();
    let mut hp_rng = StsRandom::from(seed.with_offset(1));
    let mut ai_rng = StsRandom::from(seed.with_offset(1));
    let mut enemy = Enemy::new(EnemyType::AcidSlimeS, &mut hp_rng, &mut ai_rng);
    let status = enemy.status();
    assert_eq!(status.enemy_type, EnemyType::AcidSlimeS);
    assert_eq!(status.hp, 12);
    assert_eq!(status.hp_max, 12);
    assert_eq!(status.debuffs, Vec::new());
    assert_eq!(enemy.next_move(&mut ai_rng), EnemyMoveId::AcidSlimeSLick);
    assert_eq!(enemy.next_move(&mut ai_rng), EnemyMoveId::AcidSlimeSTackle);
    assert_eq!(enemy.next_move(&mut ai_rng), EnemyMoveId::AcidSlimeSLick);
    assert_eq!(enemy.next_move(&mut ai_rng), EnemyMoveId::AcidSlimeSTackle);
    assert_eq!(enemy.next_move(&mut ai_rng), EnemyMoveId::AcidSlimeSLick);
    assert_eq!(enemy.next_move(&mut ai_rng), EnemyMoveId::AcidSlimeSTackle);
    assert_eq!(enemy.next_move(&mut ai_rng), EnemyMoveId::AcidSlimeSLick);
    assert_eq!(enemy.next_move(&mut ai_rng), EnemyMoveId::AcidSlimeSTackle);

    let mut hp_rng = StsRandom::from(seed.with_offset(1));
    let mut ai_rng = StsRandom::from(seed.with_offset(1));
    let mut enemy = Enemy::new(EnemyType::AcidSlimeM, &mut hp_rng, &mut ai_rng);
    let status = enemy.status();
    assert_eq!(status.enemy_type, EnemyType::AcidSlimeM);
    assert_eq!(status.hp, 32);
    assert_eq!(status.hp_max, 32);
    assert_eq!(enemy.next_move(&mut ai_rng), EnemyMoveId::AcidSlimeMCorrosiveSpit);
    assert_eq!(enemy.next_move(&mut ai_rng), EnemyMoveId::AcidSlimeMTackle);
    assert_eq!(enemy.next_move(&mut ai_rng), EnemyMoveId::AcidSlimeMLick);
    assert_eq!(enemy.next_move(&mut ai_rng), EnemyMoveId::AcidSlimeMCorrosiveSpit);
    assert_eq!(enemy.next_move(&mut ai_rng), EnemyMoveId::AcidSlimeMTackle);
    assert_eq!(enemy.next_move(&mut ai_rng), EnemyMoveId::AcidSlimeMCorrosiveSpit);
    assert_eq!(enemy.next_move(&mut ai_rng), EnemyMoveId::AcidSlimeMTackle);
    assert_eq!(enemy.next_move(&mut ai_rng), EnemyMoveId::AcidSlimeMLick);
}

#[test]
fn enemy_test_spike_slime() {
    let seed: Seed = 8u64.into();
    let mut hp_rng = StsRandom::from(seed.with_offset(1));
    let mut ai_rng = StsRandom::from(seed.with_offset(1));
    let mut enemy = Enemy::new(EnemyType::SpikeSlimeS, &mut hp_rng, &mut ai_rng);
    let status = enemy.status();
    assert_eq!(status.enemy_type, EnemyType::SpikeSlimeS);
    assert_eq!(status.hp, 13);
    assert_eq!(status.hp_max, 13);
    assert_eq!(enemy.next_move(&mut ai_rng), EnemyMoveId::SpikeSlimeSTackle);
    assert_eq!(enemy.next_move(&mut ai_rng), EnemyMoveId::SpikeSlimeSTackle);
    assert_eq!(enemy.next_move(&mut ai_rng), EnemyMoveId::SpikeSlimeSTackle);

    let mut hp_rng = StsRandom::from(seed.with_offset(1));
    let mut ai_rng = StsRandom::from(seed.with_offset(1));
    let mut enemy = Enemy::new(EnemyType::SpikeSlimeM, &mut hp_rng, &mut ai_rng);
    let status = enemy.status();
    assert_eq!(status.enemy_type, EnemyType::SpikeSlimeM);
    assert_eq!(status.hp, 31);
    assert_eq!(enemy.next_move(&mut ai_rng), EnemyMoveId::SpikeSlimeMLick);
    assert_eq!(enemy.next_move(&mut ai_rng), EnemyMoveId::SpikeSlimeMLick);
    assert_eq!(enemy.next_move(&mut ai_rng), EnemyMoveId::SpikeSlimeMFlameTackle);
    assert_eq!(enemy.next_move(&mut ai_rng), EnemyMoveId::SpikeSlimeMLick);
    assert_eq!(enemy.next_move(&mut ai_rng), EnemyMoveId::SpikeSlimeMLick);
    assert_eq!(enemy.next_move(&mut ai_rng), EnemyMoveId::SpikeSlimeMFlameTackle);
    assert_eq!(enemy.next_move(&mut ai_rng), EnemyMoveId::SpikeSlimeMLick);
    assert_eq!(enemy.next_move(&mut ai_rng), EnemyMoveId::SpikeSlimeMLick);
    assert_eq!(enemy.next_move(&mut ai_rng), EnemyMoveId::SpikeSlimeMFlameTackle);
    assert_eq!(enemy.next_move(&mut ai_rng), EnemyMoveId::SpikeSlimeMLick);
    assert_eq!(enemy.next_move(&mut ai_rng), EnemyMoveId::SpikeSlimeMFlameTackle);
}

#[test]
fn enemy_move_details_match_intents() {
    let spit = EnemyMoveId::AcidSlimeMCorrosiveSpit.details();
    assert_eq!(spit.effects.len(), 2);
    assert_eq!(spit.intent, sts_sim::data::Intent::AggressiveDebuff(7, 1));
    let tackle = EnemyMoveId::SpikeSlimeSTackle.details();
    assert_eq!(tackle.effects, vec![sts_sim::sim::Effect::DealDamage(5)]);
}

#[test]
fn enemy_vulnerable_takes_half_again() {
    let seed: Seed = 3u64.into();
    let mut hp_rng = StsRandom::from(seed.with_offset(1));
    let mut ai_rng = StsRandom::from(seed.with_offset(1));
    let mut enemy = Enemy::new(EnemyType::AcidSlimeS, &mut hp_rng, &mut ai_rng);
    assert!(enemy.apply_effect(sts_sim::sim::Effect::DealDamage(3)));
    assert_eq!(enemy.status().hp, 9);
    assert!(enemy.apply_effect(sts_sim::sim::Effect::Inflict(sts_sim::data::Debuff::Vulnerable, 2)));
    assert!(enemy.apply_effect(sts_sim::sim::Effect::DealDamage(5)));
    assert_eq!(enemy.status().hp, 2);
    assert!(enemy.start_turn());
    assert_eq!(enemy.status().debuffs, vec![(sts_sim::data::Debuff::Vulnerable, 1)]);
    assert!(enemy.start_turn());
    assert_eq!(enemy.status().debuffs, vec![]);
    assert!(!enemy.apply_effect(sts_sim::sim::Effect::DealDamage(5)));
}

#[test]
fn weakened_and_vulnerable_damage_round_as_single_floats() {
    let weak = AttackerStatus {
        block: 0,
        draw_pile_size: 0,
        hand_size: 0,
        is_weak: true,
        number_of_strike_cards_owned: 0,
        strength: 0,
    };
    let steady = AttackerStatus { is_weak: false, ..weak };
    let plain = DefenderStatus { dexterity: 0, is_frail: false, is_vulnerable: false };
    let vulnerable = DefenderStatus { is_vulnerable: true, ..plain };
    assert_eq!(
        CalculatedDamage::Blockable(12582915),
        DamageCalculator::calculate_damage_inflicted(&weak, Some(&plain), &Damage::Blockable(16777219))
    );
    assert_eq!(
        CalculatedDamage::Blockable(25165824),
        DamageCalculator::calculate_damage_inflicted(&steady, Some(&vulnerable), &Damage::Blockable(16777217))
    );
    assert_eq!(
        CalculatedDamage::Blockable(7),
        DamageCalculator::calculate_damage_inflicted(&weak, Some(&plain), &Damage::Blockable(10))
    );
}
