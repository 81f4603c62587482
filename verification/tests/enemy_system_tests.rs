use sts_sim::data::{EnemyAction, EnemyType, Encounter};
use sts_sim::rng::seed::Seed;
use sts_sim::rng::StsRandom;
use sts_sim::systems::enemy::enemy_characteristics::gen_characteristics;
use sts_sim::systems::enemy::enemy_party::EnemyParty;
use sts_sim::systems::enemy::enemy_state::EnemyState;
use sts_sim::systems::enemy::enemy_system::EnemySystem;

#[test]
fn enemy_system_test_acid_slime() {
    let seed: Seed = 3u64.into();
    let seed_for_floor = seed.with_offset(1);
    let mut system = EnemySystem::new(seed_for_floor);
    let mut hp_rng = StsRandom::from(seed.with_offset(1));
    let mut enemy = EnemyState::new(
        EnemyType::AcidSlimeS,
        gen_characteristics(EnemyType::AcidSlimeS, &mut hp_rng),
        &mut system.ai_rng,
    );
    let status = enemy.status();
    assert_eq!(status.enemy_type, EnemyType::AcidSlimeS);
    assert_eq!(status.hp, 12);
    assert_eq!(status.hp_max, 12);
    assert_eq!(status.conditions, Vec::new());
    assert_eq!(enemy.next_action, EnemyAction::AcidSlimeSLick);
    system.advance_action(&mut enemy);
    assert_eq!(enemy.next_action, EnemyAction::AcidSlimeSTackle);
    system.advance_action(&mut enemy);
    assert_eq!(enemy.next_action, EnemyAction::AcidSlimeSLick);
    system.advance_action(&mut enemy);
    assert_eq!(enemy.next_action, EnemyAction::AcidSlimeSTackle);
    system.advance_action(&mut enemy);
    assert_eq!(enemy.next_action, EnemyAction::AcidSlimeSLick);
    system.advance_action(&mut enemy);
    assert_eq!(enemy.next_action, EnemyAction::AcidSlimeSTackle);

    let mut system = EnemySystem::new(seed_for_floor);
    let mut hp_rng = StsRandom::from(seed.with_offset(1));
    let mut enemy = EnemyState::new(
        EnemyType::AcidSlimeM,
        gen_characteristics(EnemyType::AcidSlimeM, &mut hp_rng),
        &mut system.ai_rng,
    );

    let status = enemy.status();
    assert_eq!(status.enemy_type, EnemyType::AcidSlimeM);
    assert_eq!(status.hp, 32);
    assert_eq!(status.hp_max, 32);
    assert_eq!(enemy.next_action, EnemyAction::AcidSlimeMCorrosiveSpit);
    system.advance_action(&mut enemy);
    assert_eq!(enemy.next_action, EnemyAction::AcidSlimeMTackle);
    system.advance_action(&mut enemy);
    assert_eq!(enemy.next_action, EnemyAction::AcidSlimeMLick);
    system.advance_action(&mut enemy);
    assert_eq!(enemy.next_action, EnemyAction::AcidSlimeMCorrosiveSpit);
    system.advance_action(&mut enemy);
    assert_eq!(enemy.next_action, EnemyAction::AcidSlimeMTackle);
    system.advance_action(&mut enemy);
    assert_eq!(enemy.next_action, EnemyAction::AcidSlimeMCorrosiveSpit);
    system.advance_action(&mut enemy);
    assert_eq!(enemy.next_action, EnemyAction::AcidSlimeMTackle);
    system.advance_action(&mut enemy);
    assert_eq!(enemy.next_action, EnemyAction::AcidSlimeMLick);
}

#[test]
fn enemy_system_test_spike_slime() {
    let seed: Seed = 8u64.into();
    let mut hp_rng = StsRandom::from(seed.with_offset(1));
    let mut system = EnemySystem::new(seed.with_offset(1));
    let mut enemy = EnemyState::new(
        EnemyType::SpikeSlimeS,
        gen_characteristics(EnemyType::SpikeSlimeS, &mut hp_rng),
        &mut system.ai_rng,
    );

    let status = enemy.status();
    assert_eq!(status.enemy_type, EnemyType::SpikeSlimeS);
    assert_eq!(status.hp, 13);
    assert_eq!(status.hp_max, 13);
    assert_eq!(enemy.next_action, EnemyAction::SpikeSlimeSTackle);
    system.advance_action(&mut enemy);
    assert_eq!(enemy.next_action, EnemyAction::SpikeSlimeSTackle);
    system.advance_action(&mut enemy);
    assert_eq!(enemy.next_action, EnemyAction::SpikeSlimeSTackle);
    system.advance_action(&mut enemy);
    assert_eq!(enemy.next_action, EnemyAction::SpikeSlimeSTackle);

    let mut hp_rng = StsRandom::from(seed.with_offset(1));
    let mut system = EnemySystem::new(seed.with_offset(1));
    let mut enemy = EnemyState::new(
        EnemyType::SpikeSlimeM,
        gen_characteristics(EnemyType::SpikeSlimeM, &mut hp_rng),
        &mut system.ai_rng,
    );

    let status = enemy.status();
    assert_eq!(status.enemy_type, EnemyType::SpikeSlimeM);
    assert_eq!(status.hp, 31);
    assert_eq!(enemy.next_action, EnemyAction::SpikeSlimeMLick);
    system.advance_action(&mut enemy);
    assert_eq!(enemy.next_action, EnemyAction::SpikeSlimeMLick);
    system.advance_action(&mut enemy);
    assert_eq!(enemy.next_action, EnemyAction::SpikeSlimeMFlameTackle);
    system.advance_action(&mut enemy);
    assert_eq!(enemy.next_action, EnemyAction::SpikeSlimeMLick);
    system.advance_action(&mut enemy);
    assert_eq!(enemy.next_action, EnemyAction::SpikeSlimeMLick);
    system.advance_action(&mut enemy);
    assert_eq!(enemy.next_action, EnemyAction::SpikeSlimeMFlameTackle);
    system.advance_action(&mut enemy);
    assert_eq!(enemy.next_action, EnemyAction::SpikeSlimeMLick);
    system.advance_action(&mut enemy);
    assert_eq!(enemy.next_action, EnemyAction::SpikeSlimeMLick);
    system.advance_action(&mut enemy);
    assert_eq!(enemy.next_action, EnemyAction::SpikeSlimeMFlameTackle);
    system.advance_action(&mut enemy);
    assert_eq!(enemy.next_action, EnemyAction::SpikeSlimeMLick);
    system.advance_action(&mut enemy);
    assert_eq!(enemy.next_action, EnemyAction::SpikeSlimeMFlameTackle);
}

#[test]
fn single_enemy_encounters_fill_the_first_slot() {
    let seed: Seed = 5u64.into();
    let mut system = EnemySystem::new(seed);
    let mut misc_rng = StsRandom::from(seed);
    let party = system.create_enemy_party(Encounter::Cultist, &mut misc_rng);
    assert_eq!(party.0.len(), 5);
    let cultist = party.0[0].as_ref().unwrap();
    assert_eq!(cultist.enemy, EnemyType::Cultist);
    assert!(cultist.hp >= 48 && cultist.hp <= 54);
    assert_eq!(cultist.next_action, EnemyAction::CultistIncantation);
    assert!(party.0[1..].iter().all(|slot| slot.is_none()));
}

#[test]
fn small_slimes_make_a_pair() {
    let seed: Seed = 7u64.into();
    let mut misc_rng = StsRandom::from(seed);
    let mut ai_rng = StsRandom::from(seed);
    let mut party = EnemyParty::generate(seed, Encounter::SmallSlimes, &mut ai_rng, &mut misc_rng);
    let kinds: Vec<EnemyType> = party.0.iter().flatten().map(|e| e.enemy).collect();
    assert!(kinds == vec![EnemyType::SpikeSlimeS, EnemyType::AcidSlimeM] || kinds == vec![EnemyType::AcidSlimeS, EnemyType::SpikeSlimeM]);
    let mut system = EnemySystem::new(seed);
    if let Some(e) = party.0[0].as_mut() {
        e.block = 7;
    }
    system.start_turn(&mut party);
    assert_eq!(party.0[0].as_ref().unwrap().block, 0);
}

#[test]
fn an_acid_slime_m_never_tackles_twice_or_repeats_thrice() {
    let mut hp_rng = StsRandom::from(Seed::from(5u64));
    let slime = gen_characteristics(EnemyType::AcidSlimeM, &mut hp_rng);
    for seed in 0..200u64 {
        let mut ai_rng = StsRandom::from(Seed::from(seed));
        assert_ne!(slime.next_action(&mut ai_rng, EnemyAction::AcidSlimeMTackle, 1), EnemyAction::AcidSlimeMTackle);
        let mut ai_rng = StsRandom::from(Seed::from(seed));
        assert_ne!(slime.next_action(&mut ai_rng, EnemyAction::AcidSlimeMLick, 2), EnemyAction::AcidSlimeMLick);
        let mut ai_rng = StsRandom::from(Seed::from(seed));
        assert_ne!(
            slime.next_action(&mut ai_rng, EnemyAction::AcidSlimeMCorrosiveSpit, 2),
            EnemyAction::AcidSlimeMCorrosiveSpit
        );
    }
}
