use vstd::prelude::*;

use crate::data::PlayerCondition;
use crate::player::comms::tallied;
use crate::player::message::StsError;
use crate::systems::base::combat_context::CombatContext;

use super::condition::{after_end, after_start, applied, apply_fits, Condition};
use super::condition_system::{conditions_changed, told_conditions, ConditionSystem};

verus! {

/// The player's conditions within a combat.
pub struct PlayerConditionSystem;

/// Everything of a combat but the player's combat state and the messages sent is as it was.
pub open spec fn only_player_combat_state_changed(before: &CombatContext, after: &CombatContext) -> bool {
    &&& after.pps == before.pps
    &&& after.enemy_party == before.enemy_party
    &&& after.maybe_enemy_index == before.maybe_enemy_index
    &&& after.effect_queue == before.effect_queue
    &&& after.misc_rng == before.misc_rng
    &&& after.enemy_rng == before.enemy_rng
    &&& after.shuffle_rng == before.shuffle_rng
    &&& after.card_randomizer_rng == before.card_randomizer_rng
}

impl PlayerConditionSystem {
    /// Tells the client the player's conditions.
    pub fn notify_player(ctx: &mut CombatContext) -> (r: Result<(), StsError>)
        ensures
            only_player_combat_state_changed(old(ctx), final(ctx)),
            final(ctx).pcs == old(ctx).pcs,
            told_conditions(old(ctx).comms.sent(), final(ctx).comms.sent(), old(ctx).pcs.conditions@),
            r matches Err(e) ==> e == StsError::Disconnected,
            tallied(old(ctx).comms, final(ctx).comms, r is Err),
    {
        ConditionSystem::notify_player(&mut ctx.comms, &ctx.pcs)
    }

    /// Starts the player's turn for their conditions and tells the client.
    pub fn on_player_turn_started(ctx: &mut CombatContext) -> (r: Result<(), StsError>)
        ensures
            only_player_combat_state_changed(old(ctx), final(ctx)),
            conditions_changed(&old(ctx).pcs, &final(ctx).pcs, after_start(old(ctx).pcs.conditions@)),
            told_conditions(old(ctx).comms.sent(), final(ctx).comms.sent(), final(ctx).pcs.conditions@),
            r matches Err(e) ==> e == StsError::Disconnected,
            tallied(old(ctx).comms, final(ctx).comms, r is Err),
    {
        ConditionSystem::tick_down_at_start_of_player_turn(&mut ctx.comms, &mut ctx.pcs)
    }

    /// Ends the player's turn for their conditions and tells the client.
    pub fn on_player_turn_finished(ctx: &mut CombatContext) -> (r: Result<(), StsError>)
        requires
            forall|i: int| 0 <= i < old(ctx).pcs.conditions@.len() ==> (#[trigger] old(ctx).pcs.conditions@[i]).can_end_turn(),
        ensures
            only_player_combat_state_changed(old(ctx), final(ctx)),
            conditions_changed(&old(ctx).pcs, &final(ctx).pcs, after_end(old(ctx).pcs.conditions@)),
            told_conditions(old(ctx).comms.sent(), final(ctx).comms.sent(), final(ctx).pcs.conditions@),
            r matches Err(e) ==> e == StsError::Disconnected,
            tallied(old(ctx).comms, final(ctx).comms, r is Err),
    {
        ConditionSystem::tick_down_at_end_of_player_turn(&mut ctx.comms, &mut ctx.pcs)
    }

    /// Applies a condition to the player (merged into one of the same kind) and tells the
    /// client.
    pub fn apply_to_player(ctx: &mut CombatContext, condition: &PlayerCondition) -> (r: Result<(), StsError>)
        requires
            apply_fits(old(ctx).pcs.conditions@, *condition),
        ensures
            only_player_combat_state_changed(old(ctx), final(ctx)),
            conditions_changed(&old(ctx).pcs, &final(ctx).pcs, applied(old(ctx).pcs.conditions@, *condition)),
            told_conditions(old(ctx).comms.sent(), final(ctx).comms.sent(), final(ctx).pcs.conditions@),
            r matches Err(e) ==> e == StsError::Disconnected,
            tallied(old(ctx).comms, final(ctx).comms, r is Err),
    {
        ConditionSystem::apply_to_player(&mut ctx.comms, &mut ctx.pcs, condition)
    }
}

} // verus!
