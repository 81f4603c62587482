use vstd::prelude::*;

use crate::components::PlayerPersistentState;
use crate::player::comms::{tallied, Comms};
use crate::player::message::{StsError, StsMessage};
use crate::player::state::{spec_min, spec_saturating_add, spec_saturating_sub};
use crate::types::{Hp, HpMax};

verus! {

/// The player's hit points and maximum; the client is told of every change.
pub struct HealthSystem;

/// `after` is `before` with only the hit points and maximum changed, to `hp` and `hp_max`.
pub open spec fn health_changed(before: &PlayerPersistentState, after: &PlayerPersistentState, hp: Hp, hp_max: HpMax) -> bool {
    &&& after.hp == hp
    &&& after.hp_max == hp_max
    &&& after.gold == before.gold
    &&& after.relics@ == before.relics@
    &&& after.deck@ == before.deck@
    &&& after.potions@ == before.potions@
}

/// The health sent to the client for a state.
pub open spec fn health_message(pps: &PlayerPersistentState) -> StsMessage {
    StsMessage::Health((pps.hp, pps.hp_max))
}

impl HealthSystem {
    /// Tells the client the player's health.
    pub fn notify_player(comms: &mut Comms, pps: &PlayerPersistentState) -> (r: Result<(), StsError>)
        ensures
            final(comms).sent() == old(comms).sent().push(health_message(pps)),
            r matches Err(e) ==> e == StsError::Disconnected,
            tallied(*old(comms), *final(comms), r is Err),
    {
        comms.send_health_changed((pps.hp, pps.hp_max))
    }

    /// Heals by `amount`, up to the maximum, and tells the client.
    pub fn heal(comms: &mut Comms, pps: &mut PlayerPersistentState, amount: Hp) -> (r: Result<(), StsError>)
        ensures
            health_changed(old(pps), final(pps), spec_min(spec_saturating_add(old(pps).hp, amount), old(pps).hp_max), old(pps).hp_max),
            final(comms).sent() == old(comms).sent().push(health_message(final(pps))),
            r matches Err(e) ==> e == StsError::Disconnected,
            tallied(*old(comms), *final(comms), r is Err),
    {
        let healed = pps.hp.saturating_add(amount);
        pps.hp = if healed <= pps.hp_max { healed } else { pps.hp_max };
        Self::notify_player(comms, pps)
    }

    /// Heals by `amount`, up to the maximum, and tells the client.
    pub fn increase_hp(comms: &mut Comms, pps: &mut PlayerPersistentState, amount: Hp) -> (r: Result<(), StsError>)
        ensures
            health_changed(old(pps), final(pps), spec_min(spec_saturating_add(old(pps).hp, amount), old(pps).hp_max), old(pps).hp_max),
            final(comms).sent() == old(comms).sent().push(health_message(final(pps))),
            r matches Err(e) ==> e == StsError::Disconnected,
            tallied(*old(comms), *final(comms), r is Err),
    {
        Self::heal(comms, pps, amount)
    }

    /// Loses `amount` hit points (down to zero) and tells the client.
    pub fn decrease_hp(comms: &mut Comms, pps: &mut PlayerPersistentState, amount: Hp) -> (r: Result<(), StsError>)
        ensures
            health_changed(old(pps), final(pps), spec_saturating_sub(old(pps).hp, amount), old(pps).hp_max),
            final(comms).sent() == old(comms).sent().push(health_message(final(pps))),
            r matches Err(e) ==> e == StsError::Disconnected,
            tallied(*old(comms), *final(comms), r is Err),
    {
        pps.hp = pps.hp.saturating_sub(amount);
        Self::notify_player(comms, pps)
    }

    /// Raises the maximum by `amount`, and the hit points by as much, and tells the client.
    pub fn increase_hp_max(comms: &mut Comms, pps: &mut PlayerPersistentState, amount: HpMax) -> (r: Result<(), StsError>)
        ensures
            health_changed(old(pps), final(pps), spec_saturating_add(old(pps).hp, amount), spec_saturating_add(old(pps).hp_max, amount)),
            final(comms).sent() == old(comms).sent().push(health_message(final(pps))),
            r matches Err(e) ==> e == StsError::Disconnected,
            tallied(*old(comms), *final(comms), r is Err),
    {
        pps.hp_max = pps.hp_max.saturating_add(amount);
        pps.hp = pps.hp.saturating_add(amount);
        Self::notify_player(comms, pps)
    }

    /// Lowers the maximum by `amount`; hit points drop only to stay within it. Tells the client.
    pub fn decrease_hp_max(comms: &mut Comms, pps: &mut PlayerPersistentState, amount: HpMax) -> (r: Result<(), StsError>)
        ensures
            health_changed(old(pps), final(pps),
                spec_min(old(pps).hp, spec_saturating_sub(old(pps).hp_max, amount)), spec_saturating_sub(old(pps).hp_max, amount)),
            final(comms).sent() == old(comms).sent().push(health_message(final(pps))),
            r matches Err(e) ==> e == StsError::Disconnected,
            tallied(*old(comms), *final(comms), r is Err),
    {
        pps.hp_max = pps.hp_max.saturating_sub(amount);
        pps.hp = if pps.hp <= pps.hp_max { pps.hp } else { pps.hp_max };
        Self::notify_player(comms, pps)
    }
}

/// Healing and the maximum's changes keep hit points within the maximum.
pub proof fn law_health_stays_within_max(hp: Hp, hp_max: HpMax, amount: u32)
    requires
        hp <= hp_max,
    ensures
        spec_min(spec_saturating_add(hp, amount), hp_max) <= hp_max,
        spec_saturating_sub(hp, amount) <= hp_max,
        spec_saturating_add(hp, amount) <= spec_saturating_add(hp_max, amount),
        spec_min(hp, spec_saturating_sub(hp_max, amount)) <= spec_saturating_sub(hp_max, amount),
{
}

} // verus!
