use sts_sim::data::{Card, NeowBlessing, NeowBonus, NeowPenalty, Relic, DEFECT, IRONCLAD, SILENT, WATCHER};
use sts_sim::rng::neow::NeowGenerator;
use sts_sim::rng::relic::RelicGenerator;
use sts_sim::rng::seed::Seed;
use sts_sim::rng::sts::StsRandom;

#[test]
fn test_blessing_choices() {
    let seed = Seed::from(3);
    let card_rng = StsRandom::from(seed);
    let generator = NeowGenerator::new(seed, IRONCLAD, card_rng);
    assert_eq!(
        generator.blessing_choices().to_vec(),
        vec![
            NeowBlessing::ChooseCard,
            NeowBlessing::GainOneHundredGold,
            NeowBlessing::Composite(NeowBonus::GainTwoHundredFiftyGold, NeowPenalty::TakeDamage,),
            NeowBlessing::ReplaceStarterRelic
        ]
    );

    let seed = Seed::from(15);
    let card_rng = StsRandom::from(seed);
    let generator = NeowGenerator::new(seed, IRONCLAD, card_rng);
    assert_eq!(
        generator.blessing_choices().to_vec(),
        vec![
            NeowBlessing::ChooseColorlessCard,
            NeowBlessing::IncreaseMaxHpByTenPercent,
            NeowBlessing::Composite(NeowBonus::TransformTwoCards, NeowPenalty::TakeDamage),
            NeowBlessing::ReplaceStarterRelic
        ]
    );
}

#[test]
fn test_one_curse() {
    let seed = Seed::from(2);
    let card_rng = StsRandom::from(seed);
    let mut generator = NeowGenerator::new(seed, IRONCLAD, card_rng);
    assert_eq!(generator.one_curse(), Card::Clumsy);
    let seed = Seed::from(11);
    let card_rng = StsRandom::from(seed);
    let mut generator = NeowGenerator::new(seed, IRONCLAD, card_rng);
    assert_eq!(generator.one_curse(), Card::Clumsy);
    let seed = Seed::from(12);
    let card_rng = StsRandom::from(seed);
    let mut generator = NeowGenerator::new(seed, IRONCLAD, card_rng);
    assert_eq!(generator.one_curse(), Card::Decay);
    let seed = Seed::from(13);
    let card_rng = StsRandom::from(seed);
    let mut generator = NeowGenerator::new(seed, IRONCLAD, card_rng);
    assert_eq!(generator.one_curse(), Card::Parasite);
}

#[test]
fn neow_cards_are_different_and_from_the_character_pools() {
    for seed in [3u64, 40, 41, 99] {
        let seed = Seed::from(seed);
        let mut generator = NeowGenerator::new(seed, IRONCLAD, StsRandom::from(seed));
        let cards = generator.three_card_choices();
        assert_eq!(cards.len(), 3);
        assert!(cards[0] != cards[1] && cards[0] != cards[2] && cards[1] != cards[2]);
        let common = IRONCLAD.common_card_pool();
        let uncommon = IRONCLAD.uncommon_card_pool();
        for card in cards.iter() {
            assert!(common.contains(card) || uncommon.contains(card));
        }
        let rare = generator.one_random_rare_card();
        assert!(IRONCLAD.rare_card_pool().contains(&rare));
        let colorless = generator.three_colorless_card_choices();
        assert_eq!(colorless.len(), 3);
        assert!(colorless[0] != colorless[1] && colorless[0] != colorless[2] && colorless[1] != colorless[2]);
    }
}

#[test]
fn neow_cards_do_not_touch_the_card_generator() {
    let seed = Seed::from(8);
    let mut generator = NeowGenerator::new(seed, IRONCLAD, StsRandom::from(seed));
    let before = generator.card_rng.get_counter();
    generator.three_card_choices();
    generator.one_random_rare_card();
    assert_eq!(generator.card_rng.get_counter(), before);
    generator.one_curse();
    assert_eq!(generator.card_rng.get_counter(), before + 1);
}

#[test]
fn first_common_relic_of_seed_twelve() {
    let mut generator = RelicGenerator::new(Seed::from(12), IRONCLAD);
    assert_eq!(generator.common_relic(), Relic::RedSkull);
}

#[test]
fn relics_come_out_once_then_fall_back() {
    let mut generator = RelicGenerator::new(Seed::from(5), IRONCLAD);
    let commons = IRONCLAD.common_relic_pool();
    let uncommons = IRONCLAD.uncommon_relic_pool();
    let rares = IRONCLAD.rare_relic_pool();
    let mut seen: Vec<Relic> = Vec::new();
    for _ in 0..commons.len() {
        let relic = generator.common_relic();
        assert!(commons.contains(&relic));
        assert!(!seen.contains(&relic));
        seen.push(relic);
    }
    for _ in 0..uncommons.len() {
        let relic = generator.common_relic();
        assert!(uncommons.contains(&relic));
        assert!(!seen.contains(&relic));
        seen.push(relic);
    }
    for _ in 0..rares.len() {
        let relic = generator.uncommon_relic();
        assert!(rares.contains(&relic));
        assert!(!seen.contains(&relic));
        seen.push(relic);
    }
    assert_eq!(generator.rare_relic(), Relic::Circlet);
    assert_eq!(generator.common_relic(), Relic::Circlet);
    let boss = generator._boss_relic();
    assert!(IRONCLAD.boss_relic_pool().contains(&boss));
    let shop = generator._shop_relic();
    assert!(IRONCLAD.shop_relic_pool().contains(&shop));
}

#[test]
fn test_one_random_rare_card() {
    let seed = Seed::from(2);
    let card_rng = StsRandom::from(seed);
    let mut generator = NeowGenerator::new(seed, IRONCLAD, card_rng);
    assert_eq!(generator.one_random_rare_card(), Card::DemonForm);
    let seed = Seed::from(13);
    let card_rng = StsRandom::from(seed);
    let mut generator = NeowGenerator::new(seed, IRONCLAD, card_rng);
    assert_eq!(generator.one_random_rare_card(), Card::Reaper);
}

#[test]
fn test_relic_generator() {
    let mut generator = RelicGenerator::new(Seed::from(12), IRONCLAD);
    assert_eq!(generator.common_relic(), Relic::RedSkull);
    let mut generator = RelicGenerator::new(Seed::from(1), IRONCLAD);
    assert_eq!(generator._boss_relic(), Relic::SneckoEye);
    let mut generator = RelicGenerator::new(Seed::from(2), IRONCLAD);
    assert_eq!(generator._boss_relic(), Relic::RunicDome);
}

#[test]
fn test_three_cards() {
    let seed = Seed::from(3);
    let card_rng = StsRandom::from(seed);
    let mut generator = NeowGenerator::new(seed, IRONCLAD, card_rng);
    assert_eq!(generator.three_card_choices(), vec![Card::SeeingRed, Card::Clothesline, Card::BloodForBlood]);
    let seed = Seed::from(40);
    let card_rng = StsRandom::from(seed);
    let mut generator = NeowGenerator::new(seed, IRONCLAD, card_rng);
    assert_eq!(generator.three_card_choices(), vec![Card::IronWave, Card::Cleave, Card::Headbutt]);
    let seed = Seed::from(3);
    let card_rng = StsRandom::from(seed);
    let mut generator = NeowGenerator::new(seed, SILENT, card_rng);
    assert_eq!(generator.three_card_choices(), vec![Card::Dash, Card::Backflip, Card::Choke]);
    let card_rng = StsRandom::from(seed);
    let mut generator = NeowGenerator::new(seed, DEFECT, card_rng);
    assert_eq!(generator.three_card_choices(), vec![Card::Equilibrium, Card::CompileDriver, Card::Aggregate]);
    let card_rng = StsRandom::from(seed);
    let mut generator = NeowGenerator::new(seed, WATCHER, card_rng);
    assert_eq!(generator.three_card_choices(), vec![Card::Worship, Card::CutThroughFate, Card::WheelKick]);
    let seed = Seed::from(40);
    let card_rng = StsRandom::from(seed);
    let mut generator = NeowGenerator::new(seed, WATCHER, card_rng);
    assert_eq!(generator.three_card_choices(), vec![Card::FlyingSleeves, Card::Tranquility, Card::Evaluate]);
}

#[test]
fn characters_start_with_their_own_relic_and_deck() {
    assert_eq!(SILENT.starting_hp(), 70);
    assert_eq!(DEFECT.starting_relic(), Relic::CrackedCore);
    assert_eq!(WATCHER.starting_deck().len(), 10);
    assert_eq!(SILENT.starting_deck().len(), 12);
    let mut generator = RelicGenerator::new(Seed::from(4), WATCHER);
    assert!(WATCHER.boss_relic_pool().contains(&generator._boss_relic()));
    assert!(WATCHER.boss_relic_pool().contains(&Relic::VioletLotus));
    assert!(!WATCHER.boss_relic_pool().contains(&Relic::BlackBlood));
}
