use vstd::prelude::*;
use crate::player::comms::tallied;

use crate::components::PlayerCombatState;
use crate::data::EnergyCost;
use crate::player::message::{StsError, StsMessage};
use crate::player::state::spec_saturating_sub;
use crate::systems::base::combat_context::CombatContext;
use crate::types::Energy;

verus! {

/// The player's energy in combat; the client is told of every change.
pub struct EnergySystem;

/// Whether a cost can be paid with `energy`, the player having lost hit points
/// `hp_loss_count` times (counted as the game counts it, modulo 2^32).
pub open spec fn affordable(energy: Energy, hp_loss_count: usize, cost: EnergyCost) -> bool {
    match cost {
        EnergyCost::Zero | EnergyCost::X => true,
        EnergyCost::One => energy >= 1,
        EnergyCost::Two => energy >= 2,
        EnergyCost::Three => energy >= 3,
        EnergyCost::ThreeMinusHpLossCount => energy + (hp_loss_count as u32) >= 3,
        EnergyCost::Four => energy >= 4,
        EnergyCost::FourMinusHpLossCount => energy + (hp_loss_count as u32) >= 4,
        EnergyCost::Five => energy >= 5,
    }
}

/// The energy left after paying a cost (never below zero; X spends everything).
pub open spec fn energy_after_spending(energy: Energy, hp_loss_count: usize, cost: EnergyCost) -> Energy {
    match cost {
        EnergyCost::Zero => energy,
        EnergyCost::One => spec_saturating_sub(energy, 1),
        EnergyCost::Two => spec_saturating_sub(energy, 2),
        EnergyCost::Three => spec_saturating_sub(energy, 3),
        EnergyCost::ThreeMinusHpLossCount => spec_saturating_sub(energy, spec_saturating_sub(3, hp_loss_count as u32)),
        EnergyCost::Four => spec_saturating_sub(energy, 4),
        EnergyCost::FourMinusHpLossCount => spec_saturating_sub(energy, spec_saturating_sub(4, hp_loss_count as u32)),
        EnergyCost::Five => spec_saturating_sub(energy, 5),
        EnergyCost::X => 0,
    }
}

impl EnergySystem {
    /// Tells the client the player's energy.
    pub fn notify_player(ctx: &mut CombatContext) -> (r: Result<(), StsError>)
        ensures
            final(ctx).comms.sent() == old(ctx).comms.sent().push(StsMessage::Energy(old(ctx).pcs.energy)),
            r matches Err(e) ==> e == StsError::Disconnected,
            final(ctx).pcs == old(ctx).pcs,
            final(ctx).pps == old(ctx).pps,
            final(ctx).enemy_party == old(ctx).enemy_party,
            final(ctx).effect_queue == old(ctx).effect_queue,
            tallied(old(ctx).comms, final(ctx).comms, r is Err),
    {
        ctx.comms.send_energy(ctx.pcs.energy)
    }

    /// The player's turn starts with 3 energy.
    pub fn on_player_turn_started(ctx: &mut CombatContext) -> (r: Result<(), StsError>)
        ensures
            final(ctx).pcs == (PlayerCombatState { energy: 3, ..old(ctx).pcs }),
            final(ctx).comms.sent() == old(ctx).comms.sent().push(StsMessage::Energy(3)),
            r matches Err(e) ==> e == StsError::Disconnected,
            final(ctx).pps == old(ctx).pps,
            final(ctx).enemy_party == old(ctx).enemy_party,
            final(ctx).effect_queue == old(ctx).effect_queue,
            tallied(old(ctx).comms, final(ctx).comms, r is Err),
    {
        ctx.pcs.energy = 3;
        Self::notify_player(ctx)
    }

    /// Whether the player can pay `energy_cost`.
    pub fn can_afford(pcs: &PlayerCombatState, energy_cost: EnergyCost) -> (r: bool)
        requires
            energy_cost == EnergyCost::ThreeMinusHpLossCount || energy_cost == EnergyCost::FourMinusHpLossCount
                ==> pcs.energy + (pcs.hp_loss_count as u32) <= u32::MAX,
        ensures
            r == affordable(pcs.energy, pcs.hp_loss_count, energy_cost),
    {
        match energy_cost {
            EnergyCost::Zero | EnergyCost::X => true,
            EnergyCost::One => pcs.energy >= 1,
            EnergyCost::Two => pcs.energy >= 2,
            EnergyCost::Three => pcs.energy >= 3,
            EnergyCost::ThreeMinusHpLossCount => pcs.energy + (pcs.hp_loss_count as u32) >= 3,
            EnergyCost::Four => pcs.energy >= 4,
            EnergyCost::FourMinusHpLossCount => pcs.energy + (pcs.hp_loss_count as u32) >= 4,
            EnergyCost::Five => pcs.energy >= 5,
        }
    }

    /// Pays `energy_cost` (see `energy_after_spending`) and tells the client the energy.
    pub fn spend(ctx: &mut CombatContext, energy_cost: EnergyCost) -> (r: Result<(), StsError>)
        ensures
            final(ctx).pcs == (PlayerCombatState {
                energy: energy_after_spending(old(ctx).pcs.energy, old(ctx).pcs.hp_loss_count, energy_cost),
                ..old(ctx).pcs
            }),
            final(ctx).comms.sent() == old(ctx).comms.sent().push(StsMessage::Energy(final(ctx).pcs.energy)),
            final(ctx).pps == old(ctx).pps,
            r matches Err(e) ==> e == StsError::Disconnected,
            tallied(old(ctx).comms, final(ctx).comms, r is Err),
    {
        let energy = ctx.pcs.energy;
        ctx.pcs.energy = match energy_cost {
            EnergyCost::Zero => energy,
            EnergyCost::One => energy.saturating_sub(1),
            EnergyCost::Two => energy.saturating_sub(2),
            EnergyCost::Three => energy.saturating_sub(3),
            EnergyCost::ThreeMinusHpLossCount => energy.saturating_sub(3u32.saturating_sub(ctx.pcs.hp_loss_count as u32)),
            EnergyCost::Four => energy.saturating_sub(4),
            EnergyCost::FourMinusHpLossCount => energy.saturating_sub(4u32.saturating_sub(ctx.pcs.hp_loss_count as u32)),
            EnergyCost::Five => energy.saturating_sub(5),
            EnergyCost::X => 0,
        };
        Self::notify_player(ctx)
    }
}

} // verus!
