use sts_sim::data::{Potion, Relic, IRONCLAD};
use sts_sim::player::state::PlayerState;

#[test]
fn test_increase_hp() {
    let mut state = PlayerState::new(IRONCLAD);
    state.set_hp(65);
    state.increase_hp(10);
    assert_eq!(state.hp(), 75);
    state.increase_hp(10);
    assert_eq!(state.hp(), 80);
}

#[test]
fn test_decrease_hp() {
    let mut state = PlayerState::new(IRONCLAD);
    state.set_hp(15);
    state.decrease_hp(10);
    assert_eq!(state.hp(), 5);
    state.decrease_hp(10);
    assert_eq!(state.hp(), 0);
}

#[test]
fn test_increase_hp_max() {
    let mut state = PlayerState::new(IRONCLAD);
    state.increase_hp_max(10);
    assert_eq!(state.hp_max(), 90);
    assert_eq!(state.hp(), 90);
}

#[test]
fn test_decrease_hp_max() {
    let mut state = PlayerState::new(IRONCLAD);
    state.decrease_hp_max(10);
    assert_eq!(state.hp_max(), 70);
    assert_eq!(state.hp(), 70);
}

#[test]
fn test_increase_gold() {
    let mut state = PlayerState::new(IRONCLAD);
    state.increase_gold(10);
    assert_eq!(state.gold(), 109);
    state.increase_gold(10);
    assert_eq!(state.gold(), 119);
}

#[test]
fn test_decrease_gold() {
    let mut state = PlayerState::new(IRONCLAD);
    state.decrease_gold(10);
    assert_eq!(state.gold(), 89);
    state.decrease_gold(100);
    assert_eq!(state.gold(), 0);
}

#[test]
fn test_obtain_relic() {
    let mut state = PlayerState::new(IRONCLAD);
    state.obtain_relic(Relic::CaptainsWheel);
    assert_eq!(state.relics(), &[Relic::BurningBlood, Relic::CaptainsWheel]);
    state.obtain_relic(Relic::Calipers);
    assert_eq!(
        state.relics(),
        &[Relic::BurningBlood, Relic::CaptainsWheel, Relic::Calipers]
    );
}

#[test]
fn test_obtain_potion() {
    let mut state = PlayerState::new(IRONCLAD);
    assert!(state.has_potion_slot_available());
    state.obtain_potion(Potion::BlockPotion);
    assert!(state.has_potion_slot_available());
    assert_eq!(state.potions(), &[Some(Potion::BlockPotion), None, None]);
    state.obtain_potion(Potion::BlessingOfTheForge);
    assert!(state.has_potion_slot_available());
    assert_eq!(
        state.potions(),
        &[
            Some(Potion::BlockPotion),
            Some(Potion::BlessingOfTheForge),
            None
        ]
    );
    state.obtain_potion(Potion::CultistPotion);
    assert!(!state.has_potion_slot_available());
    assert_eq!(
        state.potions(),
        &[
            Some(Potion::BlockPotion),
            Some(Potion::BlessingOfTheForge),
            Some(Potion::CultistPotion)
        ]
    );

    let mut state = PlayerState::new(IRONCLAD);
    state.set_potions(vec![None, Some(Potion::Ambrosia), None]);
    assert!(state.has_potion_slot_available());
    state.obtain_potion(Potion::BlockPotion);
    assert!(state.has_potion_slot_available());
    assert_eq!(
        state.potions(),
        &[Some(Potion::BlockPotion), Some(Potion::Ambrosia), None]
    );
    state.obtain_potion(Potion::BlessingOfTheForge);
    assert!(!state.has_potion_slot_available());
    assert_eq!(
        state.potions(),
        &[
            Some(Potion::BlockPotion),
            Some(Potion::Ambrosia),
            Some(Potion::BlessingOfTheForge),
        ]
    );
    assert!(!state.has_potion_slot_available());
    state.obtain_potion(Potion::CultistPotion);
    assert_eq!(
        state.potions(),
        &[
            Some(Potion::BlockPotion),
            Some(Potion::Ambrosia),
            Some(Potion::BlessingOfTheForge),
        ]
    );
}
