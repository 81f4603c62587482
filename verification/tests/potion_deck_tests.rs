use std::sync::mpsc::channel;

use sts_sim::components::{PlayerCombatState, PlayerPersistentState};
use sts_sim::data::{Card, Potion, IRONCLAD};
use sts_sim::player::comms::Comms;
use sts_sim::player::message::{Choice, PotionAction, Prompt, StsError, StsMessage};
use sts_sim::systems::base::deck_system::DeckSystem;
use sts_sim::systems::base::potion_system::PotionSystem;
use sts_sim::systems::player::main_screen_system::MainScreenSystem;

#[test]
fn blood_potion_heals_a_fifth_of_the_maximum() {
    let (_to_server, from_client) = channel();
    let (to_client, from_server) = channel();
    let mut comms = Comms::new(from_client, to_client);
    let mut pps = PlayerPersistentState::new(IRONCLAD);
    pps.hp = 50;
    pps.potions = vec![None, Some(Potion::BloodPotion), None];
    PotionSystem::expend_potion_out_of_combat(&mut comms, &mut pps, &PotionAction::Drink(1, Potion::BloodPotion))
        .unwrap();
    assert_eq!(pps.hp, 66);
    assert_eq!(pps.potions, vec![None, None, None]);
    assert!(matches!(from_server.recv().unwrap(), StsMessage::Health((66, 80))));
    match from_server.recv().unwrap() {
        StsMessage::Potions(potions) => assert_eq!(potions, vec![None, None, None]),
        other => panic!("unexpected message {:?}", other),
    }
}

#[test]
fn fruit_juice_raises_the_maximum_and_dexterity_potion_dexterity() {
    let (_to_server, from_client) = channel();
    let (to_client, _from_server) = channel();
    let mut comms = Comms::new(from_client, to_client);
    let mut pps = PlayerPersistentState::new(IRONCLAD);
    let mut pcs = PlayerCombatState::new(&pps.deck);
    pps.potions = vec![Some(Potion::FruitJuice), Some(Potion::DexterityPotion), Some(Potion::FirePotion)];
    PotionSystem::expend_potion_in_combat(&mut comms, &mut pps, &mut pcs, &PotionAction::Drink(0, Potion::FruitJuice))
        .unwrap();
    assert_eq!((pps.hp, pps.hp_max), (85, 85));
    PotionSystem::expend_potion_in_combat(&mut comms, &mut pps, &mut pcs, &PotionAction::Drink(1, Potion::DexterityPotion))
        .unwrap();
    assert_eq!(pcs.dexterity, 2);
    PotionSystem::expend_potion_in_combat(&mut comms, &mut pps, &mut pcs, &PotionAction::Discard(2, Potion::FirePotion))
        .unwrap();
    assert_eq!(pps.potions, vec![None, None, None]);
}

#[test]
fn potion_actions_are_offered_per_slot() {
    let mut pps = PlayerPersistentState::new(IRONCLAD);
    pps.potions = vec![Some(Potion::FirePotion), None, Some(Potion::FruitJuice)];
    let mut choices = vec![];
    assert!(PotionSystem::extend_with_potion_actions(&pps, false, &mut choices));
    assert_eq!(
        choices,
        vec![
            Choice::PotionAction(PotionAction::Discard(0, Potion::FirePotion)),
            Choice::PotionAction(PotionAction::Discard(2, Potion::FruitJuice)),
            Choice::PotionAction(PotionAction::Drink(2, Potion::FruitJuice)),
        ]
    );
    assert!(PotionSystem::has_potion_slot_available(&pps));
    pps.potions = vec![None, None];
    let mut choices = vec![];
    assert!(!PotionSystem::extend_with_potion_actions(&pps, true, &mut choices));
    assert!(choices.is_empty());
}

#[test]
fn potions_taken_fill_the_first_empty_slots() {
    let (to_server, from_client) = channel();
    let (to_client, from_server) = channel();
    let mut comms = Comms::new(from_client, to_client);
    let mut pps = PlayerPersistentState::new(IRONCLAD);
    to_server.send(1).unwrap();
    to_server.send(0).unwrap();
    PotionSystem::choose_potions_to_obtain(&mut comms, &mut pps, &[Potion::BloodPotion, Potion::FirePotion], 2).unwrap();
    assert_eq!(pps.potions, vec![Some(Potion::FirePotion), Some(Potion::BloodPotion), None]);
    match from_server.recv().unwrap() {
        StsMessage::Choices(prompt, choices) => {
            assert_eq!(prompt, Prompt::ChooseNext);
            assert_eq!(
                choices,
                vec![Choice::ObtainPotion(Potion::BloodPotion), Choice::ObtainPotion(Potion::FirePotion), Choice::Skip]
            );
        },
        other => panic!("unexpected message {:?}", other),
    }
    from_server.recv().unwrap();
    match from_server.recv().unwrap() {
        StsMessage::Choices(prompt, choices) => {
            assert_eq!(prompt, Prompt::ChooseOne);
            assert_eq!(
                choices,
                vec![
                    Choice::ObtainPotion(Potion::BloodPotion),
                    Choice::PotionAction(PotionAction::Discard(0, Potion::FirePotion)),
                    Choice::Skip
                ]
            );
        },
        other => panic!("unexpected message {:?}", other),
    }
}

#[test]
fn an_answer_out_of_range_is_refused() {
    let (to_server, from_client) = channel();
    let (to_client, _from_server) = channel();
    let mut comms = Comms::new(from_client, to_client);
    let mut pps = PlayerPersistentState::new(IRONCLAD);
    to_server.send(7).unwrap();
    assert_eq!(
        DeckSystem::choose_card_to_obtain(&mut comms, &mut pps, &[Card::Anger]),
        Err(StsError::InvalidChoice)
    );
}

#[test]
fn deck_gains_and_loses_the_cards_chosen() {
    let (to_server, from_client) = channel();
    let (to_client, _from_server) = channel();
    let mut comms = Comms::new(from_client, to_client);
    let mut pps = PlayerPersistentState::new(IRONCLAD);
    to_server.send(1).unwrap();
    DeckSystem::choose_card_to_obtain(&mut comms, &mut pps, &[Card::Anger, Card::Cleave]).unwrap();
    assert_eq!(pps.deck.len(), 11);
    assert_eq!(pps.deck[10], Card::Cleave);
    to_server.send(9).unwrap();
    DeckSystem::choose_card_to_remove(&mut comms, &mut pps).unwrap();
    assert_eq!(pps.deck.len(), 10);
    assert_eq!(pps.deck[9], Card::Cleave);
    to_server.send(2).unwrap();
    DeckSystem::choose_card_to_obtain(&mut comms, &mut pps, &[Card::Anger, Card::Cleave]).unwrap();
    assert_eq!(pps.deck.len(), 10);
}

#[test]
fn combat_rewards_are_taken_one_by_one() {
    let (to_server, from_client) = channel();
    let (to_client, from_server) = channel();
    let mut comms = Comms::new(from_client, to_client);
    let mut pps = PlayerPersistentState::new(IRONCLAD);
    to_server.send(3).unwrap();
    to_server.send(0).unwrap();
    to_server.send(0).unwrap();
    MainScreenSystem::choose_combat_rewards(
        &mut comms,
        &mut pps,
        15,
        Some(Potion::FirePotion),
        &[Card::Anger, Card::Cleave],
    )
    .unwrap();
    assert_eq!(pps.deck.len(), 11);
    assert_eq!(pps.deck[10], Card::Cleave);
    assert_eq!(pps.gold, 114);
    assert_eq!(pps.potions, vec![Some(Potion::FirePotion), None, None]);
    match from_server.recv().unwrap() {
        StsMessage::Choices(prompt, choices) => {
            assert_eq!(prompt, Prompt::ChooseNext);
            assert_eq!(
                choices,
                vec![
                    Choice::ObtainGold(15),
                    Choice::ObtainPotion(Potion::FirePotion),
                    Choice::ObtainCard(Card::Anger),
                    Choice::ObtainCard(Card::Cleave),
                    Choice::Skip
                ]
            );
        },
        other => panic!("unexpected message {:?}", other),
    }
}

#[test]
fn skipping_leaves_the_rewards() {
    let (to_server, from_client) = channel();
    let (to_client, _from_server) = channel();
    let mut comms = Comms::new(from_client, to_client);
    let mut pps = PlayerPersistentState::new(IRONCLAD);
    to_server.send(3).unwrap();
    MainScreenSystem::choose_combat_rewards(&mut comms, &mut pps, 15, None, &[Card::Anger, Card::Cleave]).unwrap();
    assert_eq!(pps.deck.len(), 10);
    assert_eq!(pps.gold, 99);
}
