use std::sync::mpsc::channel;

use sts_sim::data::{Card, PlayerCondition, IRONCLAD};
use sts_sim::player::message::{StsError, StsMessage};
use sts_sim::rng::seed::Seed;
use sts_sim::sim::player::Player;
use sts_sim::systems::player::player_in_combat::PlayerInCombat;

#[test]
fn test_blood_for_blood() {
    let (to_server, from_client) = channel();
    let (to_client, from_server) = channel();

    let mut player = Player::new(IRONCLAD, from_client, to_client);
    player.replace_deck(vec![Card::BloodForBlood]);
    let mut player_in_combat = PlayerInCombat::new(player, Seed::from(3));

    assert_eq!(
        4,
        player_in_combat
            .state
            .draw_pile
            .iter()
            .find(|card| matches!(card.card, Card::BloodForBlood))
            .unwrap()
            .cost_this_combat
    );
    player_in_combat.take_blockable_damage(5).unwrap();
    assert_eq!(
        3,
        player_in_combat
            .state
            .draw_pile
            .iter()
            .find(|card| matches!(card.card, Card::BloodForBlood))
            .unwrap()
            .cost_this_combat
    );
    player_in_combat.take_blockable_damage(5).unwrap();
    player_in_combat.take_blockable_damage(5).unwrap();
    player_in_combat.take_blockable_damage(5).unwrap();
    player_in_combat.take_blockable_damage(5).unwrap();
    player_in_combat.take_blockable_damage(5).unwrap();
    assert_eq!(
        0,
        player_in_combat
            .state
            .draw_pile
            .iter()
            .find(|card| matches!(card.card, Card::BloodForBlood))
            .unwrap()
            .cost_this_combat
    );

    drop(to_server);
    drop(from_server);
}

#[test]
fn block_absorbs_damage_before_hit_points() {
    let (_to_server, from_client) = channel();
    let (to_client, _from_server) = channel();
    let player = Player::new(IRONCLAD, from_client, to_client);
    let mut player_in_combat = PlayerInCombat::new(player, Seed::from(5));
    player_in_combat.gain_block(7).unwrap();
    assert_eq!(player_in_combat.state.block, 7);
    player_in_combat.take_blockable_damage(10).unwrap();
    assert_eq!(player_in_combat.state.block, 0);
    assert_eq!(player_in_combat.player.hp(), 77);
    assert_eq!(player_in_combat.state.hp_loss_count, 1);
}

#[test]
fn confused_draws_reroll_costs() {
    let (_to_server, from_client) = channel();
    let (to_client, _from_server) = channel();
    let player = Player::new(IRONCLAD, from_client, to_client);
    let mut player_in_combat = PlayerInCombat::new(player, Seed::from(7));
    player_in_combat.apply_condition(&PlayerCondition::Confused).unwrap();
    let before = player_in_combat.card_randomizer_rng.get_counter();
    player_in_combat.start_turn().unwrap();
    assert_eq!(player_in_combat.state.hand.len(), 5);
    assert_eq!(player_in_combat.card_randomizer_rng.get_counter(), before + 5);
    for card in player_in_combat.state.hand.iter() {
        assert!(card.cost_this_combat <= 3);
        assert_eq!(card.cost_this_turn, card.cost_this_combat);
    }
}

#[test]
fn evolve_draws_one_more_for_a_status_card() {
    let (_to_server, from_client) = channel();
    let (to_client, _from_server) = channel();
    let mut player = Player::new(IRONCLAD, from_client, to_client);
    player.replace_deck(vec![Card::Slimed, Card::Strike, Card::Strike, Card::Strike, Card::Strike, Card::Strike, Card::Strike, Card::Strike]);
    let mut player_in_combat = PlayerInCombat::new(player, Seed::from(11));
    player_in_combat.apply_condition(&PlayerCondition::Evolve(1)).unwrap();
    player_in_combat.start_turn().unwrap();
    let slimed_drawn = player_in_combat.state.hand.iter().any(|card| card.card == Card::Slimed);
    let expected = if slimed_drawn { 6 } else { 5 };
    assert_eq!(player_in_combat.state.hand.len(), expected);
    assert_eq!(player_in_combat.state.hand.len() + player_in_combat.state.draw_pile.len(), 8);
}

#[test]
fn blockable_damage_tells_the_client_in_order() {
    let (_to_server, from_client) = channel();
    let (to_client, from_server) = channel();
    let mut player = Player::new(IRONCLAD, from_client, to_client);
    player.replace_deck(vec![Card::Strike]);
    let mut player_in_combat = PlayerInCombat::new(player, Seed::from(3));
    player_in_combat.gain_block(3).unwrap();
    player_in_combat.take_blockable_damage(5).unwrap();
    let sent: Vec<StsMessage> = from_server.try_iter().collect();
    assert_eq!(7, sent.len());
    assert!(matches!(sent[0], StsMessage::BlockGained(3)));
    assert!(matches!(sent[1], StsMessage::Block(3)));
    assert!(matches!(sent[2], StsMessage::DamageBlocked(3)));
    assert!(matches!(sent[3], StsMessage::BlockLost(3)));
    assert!(matches!(sent[4], StsMessage::Block(0)));
    assert!(matches!(sent[5], StsMessage::DamageTaken(2)));
    assert!(matches!(sent[6], StsMessage::Health((78, 80))));
}

#[test]
fn a_departed_client_stops_the_first_send() {
    let (_to_server, from_client) = channel();
    let (to_client, from_server) = channel();
    let mut player = Player::new(IRONCLAD, from_client, to_client);
    player.replace_deck(vec![Card::Strike]);
    let mut player_in_combat = PlayerInCombat::new(player, Seed::from(3));
    drop(from_server);
    assert_eq!(Err(StsError::Disconnected), player_in_combat.gain_block(3));
    assert_eq!(0, player_in_combat.state.block);
    assert_eq!(Err(StsError::Disconnected), player_in_combat.take_unblockable_damage(4));
    assert_eq!(80, player_in_combat.player.hp());
}
