use sts_sim::data::{Act, Card, IRONCLAD};
use sts_sim::rng::card::CardGenerator;
use sts_sim::rng::seed::Seed;
use sts_sim::rng::sts::StsRandom;

#[test]
fn combat_rewards_lean_away_from_commons() {
    let mut generator = CardGenerator::new(Seed::from(3), IRONCLAD, Act::get(1));
    assert_eq!(generator.upgrade_probability, 0);
    assert_eq!(generator.combat_rewards(), vec![Card::Thunderclap, Card::HeavyBlade, Card::Armaments]);
    assert_eq!(generator.rarity_bias, 2);
    assert_eq!(generator.combat_rewards(), vec![Card::Anger, Card::HeavyBlade, Card::Armaments]);
    assert_eq!(generator.rarity_bias, -1);
}

#[test]
fn upgrade_chance_grows_with_the_act() {
    assert_eq!(CardGenerator::new(Seed::from(3), IRONCLAD, Act::get(2)).upgrade_probability, 0x4000_0000);
    assert_eq!(CardGenerator::new(Seed::from(3), IRONCLAD, Act::get(3)).upgrade_probability, 0x8000_0000);
}

#[test]
fn colorless_choices_and_curse() {
    let mut generator = CardGenerator::new(Seed::from(3), IRONCLAD, Act::get(1));
    assert_eq!(
        generator.three_colorless_card_choices(),
        vec![Card::Panacea, Card::Forethought, Card::DramaticEntrance]
    );
    assert_eq!(generator.one_curse(), Card::Pain);
}

#[test]
fn samples_have_no_repeats() {
    let mut rng = StsRandom::from_seed(11);
    let cards = [Card::Strike, Card::Defend, Card::Bash];
    let sample = rng.sample_without_replacement(&cards, 3);
    assert_eq!(sample.len(), 3);
    for card in cards {
        assert!(sample.contains(&card));
    }
}
