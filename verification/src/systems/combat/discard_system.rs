use vstd::prelude::*;
use crate::player::comms::tallied;

use crate::components::CardInCombat;
use crate::player::message::{StsError, StsMessage};
use crate::systems::base::combat_context::CombatContext;
use crate::types::HandIndex;

verus! {

/// The discard pile of a combat.
pub struct DiscardSystem;

impl DiscardSystem {
    /// Puts a card from the hand on the discard pile and tells the client.
    pub fn push(ctx: &mut CombatContext, hand_index: HandIndex, combat_card: CardInCombat) -> (r: Result<(), StsError>)
        ensures
            final(ctx).pcs == (crate::components::PlayerCombatState {
                discard_pile: final(ctx).pcs.discard_pile,
                ..old(ctx).pcs
            }),
            final(ctx).pcs.discard_pile@ == old(ctx).pcs.discard_pile@.push(combat_card),
            final(ctx).comms.sent() == old(ctx).comms.sent().push(StsMessage::CardDiscarded(hand_index, combat_card.card)),
            final(ctx).pps == old(ctx).pps,
            final(ctx).enemy_party == old(ctx).enemy_party,
            final(ctx).effect_queue == old(ctx).effect_queue,
            r matches Err(e) ==> e == StsError::Disconnected,
            tallied(old(ctx).comms, final(ctx).comms, r is Err),
    {
        ctx.pcs.discard_pile.push(combat_card);
        ctx.comms.send_card_discarded(hand_index, combat_card.card)
    }
}

} // verus!
