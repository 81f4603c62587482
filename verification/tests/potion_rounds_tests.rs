use std::sync::mpsc::channel;

use sts_sim::data::{Potion, IRONCLAD};
use sts_sim::player::controller::PlayerController;
use sts_sim::player::message::{Choice, Prompt, StsError, StsMessage};
use sts_sim::sim::player::Player;

#[test]
fn a_taken_potion_leaves_the_offer_by_its_first_copy() {
    let (to_server, from_client) = channel();
    let (to_client, from_server) = channel();
    let mut controller = PlayerController::new(IRONCLAD, from_client, to_client);
    to_server.send(2).unwrap();
    to_server.send(0).unwrap();
    controller
        .choose_potions_to_obtain(&[Potion::FirePotion, Potion::BlockPotion, Potion::FirePotion], 2)
        .unwrap();
    let messages: Vec<StsMessage> = from_server.try_iter().collect();
    let prompts: Vec<(Prompt, Vec<Choice>)> = messages
        .iter()
        .filter_map(|m| match m {
            StsMessage::Choices(p, c) => Some((*p, c.clone())),
            _ => None,
        })
        .collect();
    assert_eq!(prompts.len(), 2);
    assert_eq!(
        prompts[1],
        (
            Prompt::ChooseOne,
            vec![Choice::ObtainPotion(Potion::BlockPotion), Choice::ObtainPotion(Potion::FirePotion), Choice::Skip]
        )
    );
    let last_slots = messages
        .iter()
        .rev()
        .find_map(|m| match m {
            StsMessage::Potions(v) => Some(v.clone()),
            _ => None,
        })
        .unwrap();
    assert_eq!(last_slots, vec![Some(Potion::FirePotion), Some(Potion::BlockPotion), None]);
}

#[test]
fn an_answer_naming_no_option_ends_the_potion_rounds() {
    let (to_server, from_client) = channel();
    let (to_client, from_server) = channel();
    let mut player = Player::new(IRONCLAD, from_client, to_client);
    to_server.send(1).unwrap();
    to_server.send(5).unwrap();
    let r = player.choose_potions_to_obtain(vec![Potion::FirePotion, Potion::BlockPotion]);
    assert_eq!(r, Err(StsError::InvalidChoice));
    assert_eq!(player.state.potions(), &[Some(Potion::BlockPotion), None, None]);
    let messages: Vec<StsMessage> = from_server.try_iter().collect();
    let last_prompt = messages
        .iter()
        .rev()
        .find_map(|m| match m {
            StsMessage::Choices(p, c) => Some((*p, c.clone())),
            _ => None,
        })
        .unwrap();
    assert_eq!(last_prompt, (Prompt::ChooseNext, vec![Choice::ObtainPotion(Potion::FirePotion), Choice::Skip]));
}

#[test]
fn no_more_potions_are_taken_than_the_count() {
    let (to_server, from_client) = channel();
    let (to_client, from_server) = channel();
    let mut controller = PlayerController::new(IRONCLAD, from_client, to_client);
    to_server.send(0).unwrap();
    to_server.send(0).unwrap();
    controller.choose_potions_to_obtain(&[Potion::FirePotion, Potion::BlockPotion], 1).unwrap();
    let messages: Vec<StsMessage> = from_server.try_iter().collect();
    let prompts = messages.iter().filter(|m| matches!(m, StsMessage::Choices(_, _))).count();
    assert_eq!(prompts, 1);
    let last_slots = messages
        .iter()
        .rev()
        .find_map(|m| match m {
            StsMessage::Potions(v) => Some(v.clone()),
            _ => None,
        })
        .unwrap();
    assert_eq!(last_slots, vec![Some(Potion::FirePotion), None, None]);
}
