use vstd::prelude::*;

use crate::components::PlayerPersistentState;
use crate::data::Relic;
use crate::player::comms::{sent_after, Comms, tallied};
use crate::player::message::{StsError, StsMessage};
use crate::player::state::{spec_min, spec_saturating_add, spec_saturating_sub};
use crate::types::Gold;

use super::health_system::health_message;
use super::relic_system::RelicSystem;

verus! {

/// The player's gold; the client is told of every change.
pub struct GoldSystem;

impl GoldSystem {
    /// Tells the client the player's gold.
    pub fn notify_player(comms: &mut Comms, pps: &PlayerPersistentState) -> (r: Result<(), StsError>)
        ensures
            final(comms).sent() == old(comms).sent().push(StsMessage::Gold(pps.gold)),
            r matches Err(e) ==> e == StsError::Disconnected,
            tallied(*old(comms), *final(comms), r is Err),
    {
        comms.send_gold_changed(pps.gold)
    }

    /// Whether the player has at least `gold_cost` gold.
    pub fn can_afford(pps: &PlayerPersistentState, gold_cost: Gold) -> (r: bool)
        ensures
            r == (pps.gold >= gold_cost),
    {
        pps.gold >= gold_cost
    }

    /// Gains gold (saturating), unless the amount is zero or the player holds Ectoplasm; then
    /// Bloody Idol heals and the client is told the new gold.
    pub fn increase_gold(comms: &mut Comms, pps: &mut PlayerPersistentState, amount: Gold) -> (r: Result<(), StsError>)
        ensures
            amount == 0 || old(pps).relics@.contains(Relic::Ectoplasm) ==>
                r is Ok && final(comms).sent() == old(comms).sent() && final(pps).gold == old(pps).gold && final(pps).hp == old(pps).hp,
            !(amount == 0 || old(pps).relics@.contains(Relic::Ectoplasm)) && r is Ok ==> ({
                let hp = if old(pps).relics@.contains(Relic::BloodyIdol) {
                    spec_min(spec_saturating_add(old(pps).hp, 5), old(pps).hp_max)
                } else {
                    old(pps).hp
                };
                &&& final(pps).gold == spec_saturating_add(old(pps).gold, amount)
                &&& final(pps).hp == hp
                &&& final(comms).sent().last() == StsMessage::Gold(final(pps).gold)
            }),
            final(pps).gold >= old(pps).gold,
            final(pps).hp_max == old(pps).hp_max,
            final(pps).relics@ == old(pps).relics@,
            final(pps).deck@ == old(pps).deck@,
            final(pps).potions@ == old(pps).potions@,
            sent_after(old(comms).sent(), final(comms).sent()),
            r matches Err(e) ==> e == StsError::Disconnected,
            tallied(*old(comms), *final(comms), r is Err),
    {
        if amount == 0 || Self::holds_ectoplasm(pps) {
            assert(comms.sent().subrange(0, comms.sent().len() as int) =~= comms.sent());
            return Ok(());
        }
        pps.gold = pps.gold.saturating_add(amount);
        let ghost s0 = comms.sent();
        let healed = RelicSystem::on_gold_obtained(comms, pps);
        assert(comms.sent().subrange(0, s0.len() as int) =~= s0);
        if healed.is_err() {
            return healed;
        }
        let ghost s1 = comms.sent();
        let r = Self::notify_player(comms, pps);
        assert(comms.sent().subrange(0, s0.len() as int) =~= s1.subrange(0, s0.len() as int));
        r
    }

    /// Whether the player holds Ectoplasm.
    fn holds_ectoplasm(pps: &PlayerPersistentState) -> (r: bool)
        ensures
            r == pps.relics@.contains(Relic::Ectoplasm),
    {
        let mut i: usize = 0;
        while i < pps.relics.len()
            invariant
                i <= pps.relics@.len(),
                forall|k: int| 0 <= k < i ==> pps.relics@[k] != Relic::Ectoplasm,
            decreases pps.relics@.len() - i,
        {
            if pps.relics[i] == Relic::Ectoplasm {
                return true;
            }
            i = i + 1;
        }
        false
    }

    /// Loses gold (down to zero) and tells the client.
    pub fn decrease_gold(comms: &mut Comms, pps: &mut PlayerPersistentState, amount: Gold) -> (r: Result<(), StsError>)
        ensures
            final(pps).gold == spec_saturating_sub(old(pps).gold, amount),
            final(pps).hp == old(pps).hp,
            final(pps).hp_max == old(pps).hp_max,
            final(pps).relics@ == old(pps).relics@,
            final(pps).deck@ == old(pps).deck@,
            final(pps).potions@ == old(pps).potions@,
            final(comms).sent() == old(comms).sent().push(StsMessage::Gold(final(pps).gold)),
            r matches Err(e) ==> e == StsError::Disconnected,
            tallied(*old(comms), *final(comms), r is Err),
    {
        pps.gold = pps.gold.saturating_sub(amount);
        Self::notify_player(comms, pps)
    }
}

} // verus!
