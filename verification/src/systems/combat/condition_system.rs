use vstd::prelude::*;

use crate::components::PlayerCombatState;
use crate::data::{EnemyCondition, PlayerCondition};
use crate::player::comms::{one_more, Comms, tallied};
use crate::player::message::{StsError, StsMessage};
use crate::systems::enemy::enemy_state::EnemyState;

use super::condition::{after_end, after_start, apply_fits, applied, merge_or_push, retain_ended, retain_started, Condition};

verus! {

/// The conditions of the player and of the enemies: applying them and ticking them down as
/// turns start and end.
pub struct ConditionSystem;

/// `after` is `before` with only the conditions changed, to `conditions`.
pub open spec fn conditions_changed(before: &PlayerCombatState, after: &PlayerCombatState, conditions: Seq<PlayerCondition>) -> bool {
    &&& after.conditions@ == conditions
    &&& after.draw_pile@ == before.draw_pile@
    &&& after.discard_pile@ == before.discard_pile@
    &&& after.hand@ == before.hand@
    &&& after.exhaust_pile@ == before.exhaust_pile@
    &&& after.energy == before.energy
    &&& after.block == before.block
    &&& after.strength == before.strength
    &&& after.dexterity == before.dexterity
    &&& after.hp_loss_count == before.hp_loss_count
}

/// The last message sent lists the conditions, and it is the only one added.
pub open spec fn told_conditions(before: Seq<StsMessage>, after: Seq<StsMessage>, conditions: Seq<PlayerCondition>) -> bool {
    one_more(before, after) && (after.last() matches StsMessage::Conditions(v) && v@ == conditions)
}

/// An enemy slot after its conditions were updated by `f`, emptied when the enemy is dead.
pub open spec fn slot_after(before: Option<EnemyState>, after: Option<EnemyState>, conditions: spec_fn(Seq<EnemyCondition>) -> Seq<EnemyCondition>) -> bool {
    match before {
        Some(b) => if b.hp == 0 {
            after is None
        } else {
            after matches Some(a) && a == (EnemyState { conditions: a.conditions, ..b }) && a.conditions@ == conditions(b.conditions@)
        },
        None => after is None,
    }
}

/// Updates every enemy of the slots with `update`, then empties the slots of dead enemies.
fn tick_enemies(enemy_party: &mut Vec<Option<EnemyState>>, at_start: bool)
    requires
        !at_start ==> forall|i: int| 0 <= i < old(enemy_party)@.len() ==> (#[trigger] old(enemy_party)@[i] matches Some(e)
            ==> forall|k: int| 0 <= k < e.conditions@.len() ==> (#[trigger] e.conditions@[k]).can_end_turn()),
    ensures
        final(enemy_party)@.len() == old(enemy_party)@.len(),
        forall|i: int| 0 <= i < old(enemy_party)@.len() ==> slot_after(#[trigger] old(enemy_party)@[i], final(enemy_party)@[i],
            if at_start { |s: Seq<EnemyCondition>| after_start(s) } else { |s: Seq<EnemyCondition>| after_end(s) }),
{
    let ghost f = if at_start { |s: Seq<EnemyCondition>| after_start(s) } else { |s: Seq<EnemyCondition>| after_end(s) };
    let n = enemy_party.len();
    let mut i: usize = 0;
    while i < n
        invariant
            n == old(enemy_party)@.len(),
            enemy_party@.len() == n,
            i <= n,
            f == (if at_start { |s: Seq<EnemyCondition>| after_start(s) } else { |s: Seq<EnemyCondition>| after_end(s) }),
            !at_start ==> forall|k: int| 0 <= k < n ==> (#[trigger] old(enemy_party)@[k] matches Some(e)
                ==> forall|j: int| 0 <= j < e.conditions@.len() ==> (#[trigger] e.conditions@[j]).can_end_turn()),
            forall|k: int| 0 <= k < i ==> slot_after(#[trigger] old(enemy_party)@[k], enemy_party@[k], f),
            forall|k: int| i <= k < n ==> #[trigger] enemy_party@[k] == old(enemy_party)@[k],
        decreases n - i,
    {
        let slot = enemy_party.remove(i);
        let updated = match slot {
            Some(mut enemy) => {
                let ghost b = enemy;
                assert(old(enemy_party)@[i as int] == Some(b));
                if at_start {
                    retain_started(&mut enemy.conditions);
                } else {
                    retain_ended(&mut enemy.conditions);
                }
                if enemy.is_dead() {
                    None
                } else {
                    Some(enemy)
                }
            },
            None => None,
        };
        enemy_party.insert(i, updated);
        i = i + 1;
    }
}

impl ConditionSystem {
    /// Tells the client the player's conditions.
    pub fn notify_player(comms: &mut Comms, pcs: &PlayerCombatState) -> (r: Result<(), StsError>)
        ensures
            told_conditions(old(comms).sent(), final(comms).sent(), pcs.conditions@),
            r matches Err(e) ==> e == StsError::Disconnected,
            tallied(*old(comms), *final(comms), r is Err),
    {
        comms.send_conditions(pcs.conditions.as_slice())
    }

    /// Starts the player's turn for their conditions (Flame Barrier ends) and tells the client.
    pub fn tick_down_at_start_of_player_turn(comms: &mut Comms, pcs: &mut PlayerCombatState) -> (r: Result<(), StsError>)
        ensures
            conditions_changed(old(pcs), final(pcs), after_start(old(pcs).conditions@)),
            told_conditions(old(comms).sent(), final(comms).sent(), final(pcs).conditions@),
            r matches Err(e) ==> e == StsError::Disconnected,
            tallied(*old(comms), *final(comms), r is Err),
    {
        retain_started(&mut pcs.conditions);
        Self::notify_player(comms, pcs)
    }

    /// Ends the player's turn for their conditions (counters tick down, conditions for this turn
    /// only end) and tells the client.
    pub fn tick_down_at_end_of_player_turn(comms: &mut Comms, pcs: &mut PlayerCombatState) -> (r: Result<(), StsError>)
        requires
            forall|i: int| 0 <= i < old(pcs).conditions@.len() ==> (#[trigger] old(pcs).conditions@[i]).can_end_turn(),
        ensures
            conditions_changed(old(pcs), final(pcs), after_end(old(pcs).conditions@)),
            told_conditions(old(comms).sent(), final(comms).sent(), final(pcs).conditions@),
            r matches Err(e) ==> e == StsError::Disconnected,
            tallied(*old(comms), *final(comms), r is Err),
    {
        retain_ended(&mut pcs.conditions);
        Self::notify_player(comms, pcs)
    }

    /// Applies a condition to the player (merging it into one of the same kind) and tells the
    /// client.
    pub fn apply_to_player(comms: &mut Comms, pcs: &mut PlayerCombatState, condition: &PlayerCondition) -> (r: Result<(), StsError>)
        requires
            apply_fits(old(pcs).conditions@, *condition),
        ensures
            conditions_changed(old(pcs), final(pcs), applied(old(pcs).conditions@, *condition)),
            told_conditions(old(comms).sent(), final(comms).sent(), final(pcs).conditions@),
            r matches Err(e) ==> e == StsError::Disconnected,
            tallied(*old(comms), *final(comms), r is Err),
    {
        merge_or_push(&mut pcs.conditions, *condition);
        Self::notify_player(comms, pcs)
    }

    /// Starts the enemies' turn for their conditions; dead enemies leave their slots.
    pub fn tick_down_at_start_of_enemies_turn(enemy_party: &mut Vec<Option<EnemyState>>)
        ensures
            final(enemy_party)@.len() == old(enemy_party)@.len(),
            forall|i: int| 0 <= i < old(enemy_party)@.len() ==> slot_after(#[trigger] old(enemy_party)@[i], final(enemy_party)@[i],
                |s: Seq<EnemyCondition>| after_start(s)),
    {
        tick_enemies(enemy_party, true);
    }

    /// Ends the enemies' turn for their conditions (Vulnerable and Weak tick down); dead enemies
    /// leave their slots.
    pub fn tick_down_at_end_of_enemies_turn(enemy_party: &mut Vec<Option<EnemyState>>)
        ensures
            final(enemy_party)@.len() == old(enemy_party)@.len(),
            forall|i: int| 0 <= i < old(enemy_party)@.len() ==> slot_after(#[trigger] old(enemy_party)@[i], final(enemy_party)@[i],
                |s: Seq<EnemyCondition>| after_end(s)),
    {
        tick_enemies(enemy_party, false);
    }

    /// Applies a condition to an enemy, merging it into one of the same kind.
    pub fn apply_to_enemy(enemy: &mut EnemyState, condition: &EnemyCondition)
        requires
            apply_fits(old(enemy).conditions@, *condition),
        ensures
            final(enemy).conditions@ == applied(old(enemy).conditions@, *condition),
            *final(enemy) == (EnemyState { conditions: final(enemy).conditions, ..*old(enemy) }),
    {
        merge_or_push(&mut enemy.conditions, *condition);
    }
}

} // verus!
