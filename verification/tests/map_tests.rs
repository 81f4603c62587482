use sts_sim::components::map::{ActMap, CellHighlighter, ExitBits, Node};
use sts_sim::data::Room;
use sts_sim::systems::map::node_builder_grid::NodeBuilderGrid;

fn map_0slaythespire() -> ActMap {
    ActMap::new(vec![
            vec![
                Some(Node::new(Room::Monster, ExitBits::up())),
                None,
                Some(Node::new(Room::Monster, ExitBits::up())),
                None,
                None,
                Some(Node::new(Room::Monster, ExitBits::up())),
                None,
            ],
            vec![
                Some(Node::new(Room::Monster, ExitBits::up().union(ExitBits::right()))),
                None,
                Some(Node::new(Room::Monster, ExitBits::up().union(ExitBits::right()))),
                None,
                None,
                Some(Node::new(Room::Monster, ExitBits::left().union(ExitBits::up()))),
                None,
            ],
            vec![
                Some(Node::new(Room::Event, ExitBits::up())),
                Some(Node::new(Room::Monster, ExitBits::right())),
                Some(Node::new(Room::Monster, ExitBits::up())),
                Some(Node::new(Room::Shop, ExitBits::up())),
                Some(Node::new(Room::Event, ExitBits::left())),
                Some(Node::new(Room::Monster, ExitBits::left())),
                None,
            ],
            vec![
                Some(Node::new(Room::Event, ExitBits::up())),
                None,
                Some(Node::new(Room::Monster, ExitBits::up().union(ExitBits::right()))),
                Some(Node::new(Room::Event, ExitBits::up())),
                Some(Node::new(Room::Monster, ExitBits::up())),
                None,
                None,
            ],
            vec![
                Some(Node::new(Room::Monster, ExitBits::up())),
                None,
                Some(Node::new(Room::Event, ExitBits::left())),
                Some(Node::new(Room::Monster, ExitBits::left().union(ExitBits::right()))),
                Some(Node::new(Room::Event, ExitBits::up())),
                None,
                None,
            ],
            vec![
                Some(Node::new(Room::RestSite, ExitBits::up())),
                Some(Node::new(Room::Elite, ExitBits::up())),
                Some(Node::new(Room::RestSite, ExitBits::left())),
                None,
                Some(Node::new(Room::Monster, ExitBits::left().union(ExitBits::right()))),
                None,
                None,
            ],
            vec![
                Some(Node::new(Room::Monster, ExitBits::up())),
                Some(Node::new(Room::Monster, ExitBits::up().union(ExitBits::right()))),
                None,
                Some(Node::new(Room::Event, ExitBits::left())),
                None,
                Some(Node::new(Room::Monster, ExitBits::right())),
                None,
            ],
            vec![
                Some(Node::new(Room::Monster, ExitBits::up())),
                Some(Node::new(Room::Shop, ExitBits::up())),
                Some(Node::new(Room::Monster, ExitBits::left().union(ExitBits::up()))),
                None,
                None,
                None,
                Some(Node::new(Room::Monster, ExitBits::left())),
            ],
            vec![
                Some(Node::new(Room::Treasure, ExitBits::up())),
                Some(Node::new(Room::Treasure, ExitBits::left().union(ExitBits::right()))),
                Some(Node::new(Room::Treasure, ExitBits::right())),
                None,
                None,
                Some(Node::new(Room::Treasure, ExitBits::left())),
                None,
            ],
            vec![
                Some(Node::new(Room::RestSite, ExitBits::up().union(ExitBits::right()))),
                None,
                Some(Node::new(Room::Monster, ExitBits::up().union(ExitBits::right()))),
                Some(Node::new(Room::Event, ExitBits::up())),
                Some(Node::new(Room::RestSite, ExitBits::up())),
                None,
                None,
            ],
            vec![
                Some(Node::new(Room::Event, ExitBits::up())),
                Some(Node::new(Room::Monster, ExitBits::up())),
                Some(Node::new(Room::RestSite, ExitBits::left())),
                Some(Node::new(Room::Event, ExitBits::left().union(ExitBits::right()))),
                Some(Node::new(Room::Monster, ExitBits::right())),
                None,
                None,
            ],
            vec![
                Some(Node::new(Room::BurningElite1, ExitBits::right())),
                Some(Node::new(Room::Monster, ExitBits::right())),
                Some(Node::new(Room::Event, ExitBits::up())),
                None,
                Some(Node::new(Room::Monster, ExitBits::left())),
                Some(Node::new(Room::Event, ExitBits::up())),
                None,
            ],
            vec![
                None,
                Some(Node::new(Room::Event, ExitBits::left())),
                Some(Node::new(Room::Elite, ExitBits::left().union(ExitBits::up()))),
                Some(Node::new(Room::RestSite, ExitBits::up())),
                None,
                Some(Node::new(Room::RestSite, ExitBits::right())),
                None,
            ],
            vec![
                Some(Node::new(Room::Elite, ExitBits::up())),
                Some(Node::new(Room::Monster, ExitBits::left())),
                Some(Node::new(Room::Shop, ExitBits::up())),
                Some(Node::new(Room::Monster, ExitBits::right())),
                None,
                None,
                Some(Node::new(Room::Elite, ExitBits::left())),
            ],
            vec![
                Some(Node::new(Room::RestSite, ExitBits::right())),
                None,
                Some(Node::new(Room::RestSite, ExitBits::right())),
                None,
                Some(Node::new(Room::RestSite, ExitBits::left())),
                Some(Node::new(Room::RestSite, ExitBits::left())),
                None,
            ],
        ])
}

fn map_1slaythespire() -> ActMap {
    ActMap::new(vec![
            vec![
                None,
                Some(Node::new(Room::Monster, ExitBits::right())),
                None,
                Some(Node::new(Room::Monster, ExitBits::right())),
                Some(Node::new(Room::Monster, ExitBits::right())),
                Some(Node::new(Room::Monster, ExitBits::right())),
                None,
            ],
            vec![
                None,
                None,
                Some(Node::new(Room::Monster, ExitBits::up())),
                None,
                Some(Node::new(Room::Event, ExitBits::left().union(ExitBits::right()))),
                Some(Node::new(Room::Shop, ExitBits::up())),
                Some(Node::new(Room::Shop, ExitBits::left().union(ExitBits::up()))),
            ],
            vec![
                None,
                None,
                Some(Node::new(Room::Event, ExitBits::left())),
                Some(Node::new(Room::Monster, ExitBits::up())),
                None,
                Some(Node::new(Room::Event, ExitBits::left().union(ExitBits::up()))),
                Some(Node::new(Room::Monster, ExitBits::up())),
            ],
            vec![
                None,
                Some(Node::new(Room::Event, ExitBits::up())),
                None,
                Some(Node::new(Room::Monster, ExitBits::up())),
                Some(Node::new(Room::Monster, ExitBits::left().union(ExitBits::up()))),
                Some(Node::new(Room::Event, ExitBits::left())),
                Some(Node::new(Room::Monster, ExitBits::left())),
            ],
            vec![
                None,
                Some(Node::new(Room::Monster, ExitBits::up())),
                None,
                Some(Node::new(Room::Monster, ExitBits::left().union(ExitBits::right()))),
                Some(Node::new(Room::Event, ExitBits::up())),
                Some(Node::new(Room::Monster, ExitBits::left())),
                None,
            ],
            vec![
                None,
                Some(Node::new(Room::RestSite, ExitBits::up())),
                Some(Node::new(Room::Elite, ExitBits::right())),
                None,
                Some(Node::new(
                    Room::RestSite,
                    ExitBits::left().union(ExitBits::up()).union(ExitBits::right()),
                )),
                None,
                None,
            ],
            vec![
                None,
                Some(Node::new(Room::Elite, ExitBits::right())),
                None,
                Some(Node::new(Room::Monster, ExitBits::left())),
                Some(Node::new(Room::Elite, ExitBits::left().union(ExitBits::up()))),
                Some(Node::new(Room::Event, ExitBits::up())),
                None,
            ],
            vec![
                None,
                None,
                Some(Node::new(Room::RestSite, ExitBits::up())),
                Some(Node::new(Room::Monster, ExitBits::left())),
                Some(Node::new(Room::RestSite, ExitBits::left())),
                Some(Node::new(Room::Monster, ExitBits::right())),
                None,
            ],
            vec![
                None,
                None,
                Some(Node::new(
                    Room::Treasure,
                    ExitBits::left().union(ExitBits::up()).union(ExitBits::right()),
                )),
                Some(Node::new(Room::Treasure, ExitBits::up())),
                None,
                None,
                Some(Node::new(Room::Treasure, ExitBits::up())),
            ],
            vec![
                None,
                Some(Node::new(Room::Monster, ExitBits::up())),
                Some(Node::new(Room::RestSite, ExitBits::up())),
                Some(Node::new(Room::Event, ExitBits::left().union(ExitBits::right()))),
                None,
                None,
                Some(Node::new(Room::Monster, ExitBits::left())),
            ],
            vec![
                None,
                Some(Node::new(Room::Monster, ExitBits::left().union(ExitBits::right()))),
                Some(Node::new(Room::Monster, ExitBits::right())),
                None,
                Some(Node::new(Room::Event, ExitBits::up())),
                Some(Node::new(Room::BurningElite4, ExitBits::up())),
                None,
            ],
            vec![
                Some(Node::new(Room::Monster, ExitBits::right())),
                None,
                Some(Node::new(Room::Event, ExitBits::right())),
                Some(Node::new(Room::Monster, ExitBits::up())),
                Some(Node::new(Room::Event, ExitBits::left())),
                Some(Node::new(Room::Monster, ExitBits::up())),
                None,
            ],
            vec![
                None,
                Some(Node::new(Room::Monster, ExitBits::up())),
                None,
                Some(Node::new(
                    Room::Monster,
                    ExitBits::left().union(ExitBits::up()).union(ExitBits::right()),
                )),
                None,
                Some(Node::new(Room::Monster, ExitBits::right())),
                None,
            ],
            vec![
                None,
                Some(Node::new(Room::Event, ExitBits::up())),
                Some(Node::new(Room::Shop, ExitBits::right())),
                Some(Node::new(Room::Monster, ExitBits::right())),
                Some(Node::new(Room::Monster, ExitBits::up().union(ExitBits::right()))),
                None,
                Some(Node::new(Room::Monster, ExitBits::left())),
            ],
            vec![
                None,
                Some(Node::new(Room::RestSite, ExitBits::right())),
                None,
                Some(Node::new(Room::RestSite, ExitBits::up())),
                Some(Node::new(Room::RestSite, ExitBits::left())),
                Some(Node::new(Room::RestSite, ExitBits::left())),
                None,
            ],
        ])
}

#[test]
fn test_map_display() {
    assert_eq!(
        map_0slaythespire().to_string(),
        [
            r"  /     /   \  \     ",
            r" R     R     R  R    ",
            r" | \   |   /      \  ",
            r" E  M  $  M        E ",
            r"   \  \|  |      /   ",
            r"    ?  E  R     R    ",
            r"  /  / |    \   |    ",
            r" 1  M  ?     M  ?    ",
            r" |  | \  \ /  /      ",
            r" ?  M  R  ?  M       ",
            r" |/    |/ |  |       ",
            r" R     M  ?  R       ",
            r" | \ /  /      \     ",
            r" T  T  T        T    ",
            r" |  | \|          \  ",
            r" M  $  M           M ",
            r" |  |/   \       /   ",
            r" M  M     ?     M    ",
            r" |  | \     \ /      ",
            r" R  E  R     M       ",
            r" |    \  \ / |       ",
            r" M     ?  M  ?       ",
            r" |     |/ |  |       ",
            r" ?     M  ?  M       ",
            r" |   / |  | \  \     ",
            r" ?  M  M  $  ?  M    ",
            r" |/    |/      \|    ",
            r" M     M        M    ",
            r" |     |        |    ",
            r" M     M        M    ",
        ]
        .join("\n")
    );

    assert_eq!(
        map_1slaythespire().to_string(),
        [
            r"     /    | \  \     ",
            r"    R     R  R  R    ",
            r"    |   /  / |/   \  ",
            r"    ?  $  M  M     M ",
            r"    |    \|/     /   ",
            r"    M     M     M    ",
            r"  /     / | \   |    ",
            r" M     ?  M  ?  M    ",
            r"   \ /  /    |  |    ",
            r"    M  M     ?  4    ",
            r"    |  | \ /      \  ",
            r"    M  R  ?        M ",
            r"      \|/ |        | ",
            r"       T  T        T ",
            r"       | \  \    /   ",
            r"       R  M  R  M    ",
            r"     /   \  \|  |    ",
            r"    E     M  E  ?    ",
            r"    |   /   \|/      ",
            r"    R  E     R       ",
            r"    |    \ / | \     ",
            r"    M     M  ?  M    ",
            r"    |     | \| \  \  ",
            r"    ?     M  M  ?  M ",
            r"      \   |    \|  | ",
            r"       ?  M     ?  M ",
            r"       |    \ / | \| ",
            r"       M     ?  $  $ ",
            r"     /     /  /  /   ",
            r"    M     M  M  M    ",
        ]
        .join("\n")
    );

    assert_eq!(
        map_0slaythespire().to_string_with_highlighter(CellHighlighter {
            row_index: 4,
            column_index: 3
        }),
        [
            r"  /     /   \  \     ",
            r" R     R     R  R    ",
            r" | \   |   /      \  ",
            r" E  M  $  M        E ",
            r"   \  \|  |      /   ",
            r"    ?  E  R     R    ",
            r"  /  / |    \   |    ",
            r" 1  M  ?     M  ?    ",
            r" |  | \  \ /  /      ",
            r" ?  M  R  ?  M       ",
            r" |/    |/ |  |       ",
            r" R     M  ?  R       ",
            r" | \ /  /      \     ",
            r" T  T  T        T    ",
            r" |  | \|          \  ",
            r" M  $  M           M ",
            r" |  |/   \       /   ",
            r" M  M     ?     M    ",
            r" |  | \     \ /      ",
            r" R  E  R     M       ",
            r" |    \  \ / |       ",
            r" M     ? [M] ?       ",
            r" |     |/ |  |       ",
            r" ?     M  ?  M       ",
            r" |   / |  | \  \     ",
            r" ?  M  M  $  ?  M    ",
            r" |/    |/      \|    ",
            r" M     M        M    ",
            r" |     |        |    ",
            r" M     M        M    ",
        ]
        .join("\n")
    );
}

#[test]
fn exit_bits_combine() {
    let both = ExitBits::left().union(ExitBits::right());
    assert!(both.contains(ExitBits::left()));
    assert!(!both.contains(ExitBits::up()));
    assert_eq!(both.bits(), 5);
}

#[test]
fn node_builder_grid_builds_a_map() {
    let mut grid = NodeBuilderGrid::new();
    grid.add_exit(0, 0, ExitBits::up());
    grid.add_exit(0, 2, ExitBits::left());
    grid.receord_parent_column(1, 0, 0);
    grid.receord_parent_column(1, 1, 2);
    grid.set_room(1, 1, Room::Shop);
    assert_eq!(grid.nonempty_columns_for_row(0), vec![0, 2]);
    assert_eq!(grid.unassigned_room_count(), 3);
    assert_eq!(grid.room_almost_total(), 4);
    assert!(grid.has_exit(0, 0, ExitBits::up()));
    assert!(!grid.has_exit(0, 1, ExitBits::up()));
    assert!(grid.has_parent_room_of(1, 1, Room::Monster) == false);
    grid.set_all_rooms_in_row(0, Room::Monster);
    assert!(grid.has_parent_room_of(1, 1, Room::Monster));
    assert_eq!(grid.recorded_parent_columns_iter(1, 1), vec![2]);
    assert_eq!(grid.unassigned_room_count(), 1);
    let map = grid.into_map();
    assert_eq!(map.node(1, 1), Some(Node::new(Room::Shop, ExitBits::empty())));
    assert_eq!(map.node(1, 0), Some(Node::new(Room::Monster, ExitBits::empty())));
    let text = map.to_string();
    assert_eq!(text.lines().count(), 30);
    assert_eq!(text.lines().last().unwrap(), " M     M             ");
}
