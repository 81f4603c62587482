use sts_sim::components::PlayerPersistentState;
use sts_sim::data::{Relic, IRONCLAD};
use sts_sim::systems::base::relic_system::RelicSystem;
use sts_sim::systems::damage::damage_system::DamageTaken;

#[test]
fn test_process_damage_taken_by_player() {
    let mut pps = PlayerPersistentState::new(IRONCLAD);
    pps.relics = vec![];
    let mut damage_taken = DamageTaken {
        blocked: 5,
        hp_lost: 5,
        provokes_thorns: false,
    };
    RelicSystem::modify_damage_taken_by_player(&pps, &mut damage_taken);
    assert_eq!(damage_taken.hp_lost, 5);

    pps.relics = vec![Relic::TungstenRod];
    let mut damage_taken = DamageTaken {
        blocked: 5,
        hp_lost: 5,
        provokes_thorns: false,
    };
    RelicSystem::modify_damage_taken_by_player(&pps, &mut damage_taken);
    assert_eq!(damage_taken.hp_lost, 4);

    pps.relics = vec![Relic::Torii];
    let mut damage_taken = DamageTaken {
        blocked: 5,
        hp_lost: 5,
        provokes_thorns: false,
    };
    RelicSystem::modify_damage_taken_by_player(&pps, &mut damage_taken);
    assert_eq!(damage_taken.hp_lost, 1);

    pps.relics = vec![Relic::Torii, Relic::TungstenRod];
    let mut damage_taken = DamageTaken {
        blocked: 5,
        hp_lost: 5,
        provokes_thorns: false,
    };
    RelicSystem::modify_damage_taken_by_player(&pps, &mut damage_taken);
    assert_eq!(damage_taken.hp_lost, 0);
}

#[test]
fn torii_leaves_larger_losses_alone() {
    let mut pps = PlayerPersistentState::new(IRONCLAD);
    pps.relics = vec![Relic::Torii];
    let mut damage_taken = DamageTaken { blocked: 0, hp_lost: 6, provokes_thorns: true };
    RelicSystem::modify_damage_taken_by_player(&pps, &mut damage_taken);
    assert_eq!(damage_taken.hp_lost, 6);
    assert_eq!(RelicSystem::extra_cards_to_draw_at_start_of_player_turn(&pps), 0);
    pps.relics = vec![Relic::SneckoEye];
    assert_eq!(RelicSystem::extra_cards_to_draw_at_start_of_player_turn(&pps), 2);
}
