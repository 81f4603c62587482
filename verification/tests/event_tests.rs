use sts_sim::data::{Event, Relic, Room, IRONCLAD};
use sts_sim::rng::event::EventGenerator;
use sts_sim::rng::seed::Seed;

#[test]
fn test_event_generator() {
    let seed = Seed::from(3);
    let deck = IRONCLAD.starting_deck();
    let relics = [Relic::BurningBlood];
    let mut event_generator = EventGenerator::new(seed);
    let (room, event) = event_generator.next_event(3, &deck, 99, (80, 80), &relics);
    assert_eq!(room, Room::Event);
    assert_eq!(event, Some(Event::UpgradeShrine));
    let (room, _) = event_generator.next_event(4, &deck, 99, (80, 80), &relics);
    assert_eq!(room, Room::Shop);
    let (room, _) = event_generator.next_event(7, &deck, 99, (80, 80), &relics);
    assert_eq!(room, Room::Monster);
    let (room, event) = event_generator.next_event(8, &deck, 99, (80, 80), &relics);
    assert_eq!(room, Room::Event);
    assert_eq!(event, Some(Event::DeadAdventurer));
}

#[test]
fn test_event_generator_test_vector() {
    let seed = Seed::from(3);
    let mut event_generator = EventGenerator::new(seed);
    let deck = IRONCLAD.starting_deck();
    let relics = [Relic::BurningBlood];
    let mut test_vector = vec![];
    for i in 3..15 {
        let (room, event) = event_generator.next_event(i, &deck, 99, (80, 80), &relics);
        test_vector.push((room, event));
    }
    event_generator.advance_act();
    for i in 18..30 {
        let (room, event) = event_generator.next_event(i, &deck, 99, (80, 80), &relics);
        test_vector.push((room, event));
    }
    event_generator.advance_act();
    for i in 33..45 {
        let (room, event) = event_generator.next_event(i, &deck, 99, (80, 80), &relics);
        test_vector.push((room, event));
    }
    assert_eq!(
        test_vector,
        vec![
            // Act 1
            (Room::Event, Some(Event::UpgradeShrine)),
            (Room::Shop, None),
            (Room::Monster, None),
            (Room::Event, Some(Event::GoldenIdol)),
            (Room::Event, Some(Event::FaceTrader)),
            (Room::Monster, None),
            (Room::Shop, None),
            (Room::Event, Some(Event::HypnotizingColoredMushrooms)),
            (Room::Treasure, None),
            (Room::Monster, None),
            (Room::Event, Some(Event::WorldOfGoop)),
            (Room::Event, Some(Event::WingStatue)),
            // Act 2
            (Room::Event, Some(Event::TheJoust)),
            (Room::Monster, None),
            (Room::Shop, None),
            (Room::Event, Some(Event::Transmogrifier)),
            (Room::Monster, None),
            (Room::Event, Some(Event::OminousForge)),
            (Room::Monster, None),
            (Room::Shop, None),
            (Room::Monster, None),
            (Room::Event, Some(Event::UpgradeShrine)),
            (Room::Shop, None),
            (Room::Event, Some(Event::Augmenter)),
            // Act 3
            (Room::Event, Some(Event::TombOfLordRedMask)),
            (Room::Event, Some(Event::SensoryStone)),
            (Room::Event, Some(Event::Transmogrifier)),
            (Room::Monster, None),
            (Room::Shop, None),
            (Room::Event, Some(Event::MysteriousSphere)),
            (Room::Monster, None),
            (Room::Event, Some(Event::Falling)),
            (Room::Event, Some(Event::WindingHalls)),
            (Room::Treasure, None),
            (Room::Monster, None),
            (Room::Shop, None),
        ]
    );
}

#[test]
fn events_seen_once_leave_every_pool() {
    let mut event_generator = EventGenerator::new(Seed::from(3));
    let deck = IRONCLAD.starting_deck();
    let relics = [Relic::BurningBlood];
    let (_, event) = event_generator.next_event(3, &deck, 99, (80, 80), &relics);
    let event = event.unwrap();
    assert!(!event_generator.event_pool.contains(&event));
    assert!(!event_generator.shrine_pool.contains(&event));
    assert!(!event_generator.one_time_event_pool.contains(&event));
    assert_eq!(event_generator.shrine_pool.len(), 5);
}

#[test]
fn room_probabilities_rise_and_reset() {
    let mut event_generator = EventGenerator::new(Seed::from(3));
    let deck = IRONCLAD.starting_deck();
    let relics = [Relic::BurningBlood];
    // The first room is an event: every probability rises by its step.
    event_generator.next_event(3, &deck, 99, (80, 80), &relics);
    assert_eq!(event_generator.monster_room_probability, 858993472);
    assert_eq!(event_generator.shop_probability, 257698032);
    assert_eq!(event_generator.treasure_room_probability, 171798688);
    // The second is a shop: its probability starts over.
    event_generator.next_event(4, &deck, 99, (80, 80), &relics);
    assert_eq!(event_generator.shop_probability, 128849016);
}
