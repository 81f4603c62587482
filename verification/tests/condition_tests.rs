use sts_sim::data::{EnemyCondition, PlayerCondition};
use sts_sim::systems::combat::condition::{merge_or_push, Condition};

#[test]
fn player_conditions_of_a_kind_merge() {
    let mut c = PlayerCondition::Vulnerable(2);
    assert!(Condition::merge(&mut c, &PlayerCondition::Vulnerable(3)));
    assert_eq!(c, PlayerCondition::Vulnerable(5));
    assert!(!Condition::merge(&mut c, &PlayerCondition::Weak(1)));
    assert_eq!(c, PlayerCondition::Vulnerable(5));
    let mut p = PlayerCondition::Panache(3, 10);
    assert!(Condition::merge(&mut p, &PlayerCondition::Panache(5, 10)));
    assert_eq!(p, PlayerCondition::Panache(5, 20));
    let mut b = PlayerCondition::TheBomb(3, 40);
    assert!(!Condition::merge(&mut b, &PlayerCondition::TheBomb(3, 40)));
    let mut f = PlayerCondition::Barricade;
    assert!(Condition::merge(&mut f, &PlayerCondition::Barricade));
}

#[test]
fn player_conditions_end_turn() {
    let mut c = PlayerCondition::Frail(1);
    assert!(!Condition::end_turn(&mut c));
    assert_eq!(c, PlayerCondition::Frail(0));
    let mut p = PlayerCondition::Panache(2, 10);
    assert!(Condition::end_turn(&mut p));
    assert_eq!(p, PlayerCondition::Panache(5, 10));
    let mut r = PlayerCondition::Rage(3);
    assert!(!Condition::end_turn(&mut r));
    let mut fb = PlayerCondition::FlameBarrier(4);
    assert!(!Condition::start_turn(&mut fb));
    let mut m = PlayerCondition::Metallicize(4);
    assert!(Condition::start_turn(&mut m));
    assert!(Condition::end_turn(&mut m));
}

#[test]
fn enemy_conditions_merge_and_end_turn() {
    let mut c = EnemyCondition::Ritual(3, true);
    assert!(c.merge(&EnemyCondition::Ritual(2, false)));
    assert_eq!(c, EnemyCondition::Ritual(5, true));
    let mut strength = 1;
    assert!(c.end_turn(&mut strength));
    assert_eq!(strength, 1);
    assert_eq!(c, EnemyCondition::Ritual(5, false));
    assert!(c.end_turn(&mut strength));
    assert_eq!(strength, 6);
    let mut w = EnemyCondition::Weak(1);
    assert!(!w.end_turn(&mut strength));
    assert!(!w.merge(&EnemyCondition::Thorns(3)));
}

#[test]
fn enemy_conditions_stay_one_of_each_kind() {
    let mut conditions = vec![EnemyCondition::Thorns(3), EnemyCondition::Weak(2)];
    merge_or_push(&mut conditions, EnemyCondition::Weak(1));
    assert_eq!(conditions, vec![EnemyCondition::Thorns(3), EnemyCondition::Weak(3)]);
    merge_or_push(&mut conditions, EnemyCondition::Vulnerable(1));
    assert_eq!(conditions, vec![EnemyCondition::Thorns(3), EnemyCondition::Weak(3), EnemyCondition::Vulnerable(1)]);
}
