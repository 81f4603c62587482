use vstd::prelude::*;
use crate::player::comms::tallied;

use crate::components::{Effect, PlayerEffect, PlayerPersistentState};
use crate::data::Relic;
use crate::player::comms::{lemma_sent_part, lemma_sent_part_longer, sent_part, Comms};
use crate::player::message::{StsError, StsMessage};
use crate::player::state::{spec_min, spec_saturating_add};
use crate::systems::base::combat_context::CombatContext;
use crate::systems::base::health_system::health_changed;
use crate::systems::base::relic_system::{combat_end_messages, RelicSystem};

use super::block_system::BlockSystem;
use super::condition::after_start;
use super::condition_system::told_conditions;
use super::draw_system::{cards_per_turn, DrawSystem};
use super::energy_system::EnergySystem;
use super::player_condition_system::PlayerConditionSystem;

verus! {

/// The player's side of a combat's turns.
pub struct PlayerCombatSystem;

/// The hit points after a combat: Burning Blood heals 6, then Black Blood 12, neither above the
/// maximum.
pub open spec fn hp_after_combat(pps: &PlayerPersistentState) -> u32 {
    let hp1 = if pps.relics@.contains(Relic::BurningBlood) {
        spec_min(spec_saturating_add(pps.hp, 6), pps.hp_max)
    } else {
        pps.hp
    };
    if pps.relics@.contains(Relic::BlackBlood) {
        spec_min(spec_saturating_add(hp1, 12), pps.hp_max)
    } else {
        hp1
    }
}

impl PlayerCombatSystem {
    /// The player's turn starts: their conditions start the turn, the turn's draw is queued
    /// (5 cards, 7 with Snecko Eye), their block goes back to zero and their energy to 3. The
    /// client is told the conditions, the block when it changed, and the energy.
    pub fn on_player_turn_started(ctx: &mut CombatContext) -> (r: Result<(), StsError>)
        ensures
            final(ctx).pps == old(ctx).pps,
            final(ctx).enemy_party == old(ctx).enemy_party,
            final(ctx).pcs.conditions@ == after_start(old(ctx).pcs.conditions@),
            r is Ok ==> final(ctx).pcs.block == 0,
            r is Ok ==> final(ctx).pcs.energy == 3,
            r is Ok ==> final(ctx).pcs.hand@ == old(ctx).pcs.hand@,
            r is Ok ==> final(ctx).pcs.draw_pile@ == old(ctx).pcs.draw_pile@,
            r is Ok ==> final(ctx).pcs.discard_pile@ == old(ctx).pcs.discard_pile@,
            r is Ok ==> final(ctx).pcs.strength == old(ctx).pcs.strength,
            r is Ok ==> final(ctx).pcs.dexterity == old(ctx).pcs.dexterity,
            r is Ok ==> final(ctx).effect_queue@ == old(ctx).effect_queue@.push(
                Effect::PlayerState(PlayerEffect::Draw(cards_per_turn(old(ctx).pps.relics@))),
            ),
            ({
                let k = old(ctx).comms.sent().len() as int;
                let s = final(ctx).comms.sent();
                let rest = turn_start_messages(old(ctx).pcs.block);
                &&& s.len() > k && s.len() <= k + 1 + rest.len()
                &&& told_conditions(old(ctx).comms.sent(), s.subrange(0, k + 1), after_start(old(ctx).pcs.conditions@))
                &&& s.subrange(k + 1, s.len() as int) == rest.take(s.len() - k - 1)
                &&& r is Ok ==> s.len() == k + 1 + rest.len()
            }),
            r matches Err(e) ==> e == StsError::Disconnected,
            tallied(old(ctx).comms, final(ctx).comms, r is Err),
    {
        let ghost s0 = ctx.comms.sent();
        let ghost k = s0.len() as int;
        let ghost rest = turn_start_messages(ctx.pcs.block);
        let started = PlayerConditionSystem::on_player_turn_started(ctx);
        let ghost s1 = ctx.comms.sent();
        assert(s1.subrange(0, k + 1) =~= s1);
        assert(s1.subrange(k + 1, s1.len() as int) =~= rest.take(0));
        if started.is_err() {
            return started;
        }
        DrawSystem::on_player_turn_started(ctx);
        let blocked = BlockSystem::on_player_turn_started(ctx);
        let ghost s2 = ctx.comms.sent();
        proof {
            assert(s2.subrange(0, k + 1) =~= s1);
            if s2.len() > s1.len() {
                assert(s2.subrange(k + 1, s2.len() as int) =~= rest.take(1));
            } else {
                assert(s2.subrange(k + 1, s2.len() as int) =~= rest.take(0));
            }
        }
        if blocked.is_err() {
            return blocked;
        }
        let r = EnergySystem::on_player_turn_started(ctx);
        proof {
            let s3 = ctx.comms.sent();
            assert(s3.subrange(0, k + 1) =~= s1);
            assert(s3.subrange(k + 1, s3.len() as int) =~= rest.take(s3.len() - k - 1));
        }
        r
    }

    /// The combat is over: the relics that heal after a combat do so, and the client is told,
    /// then told that the combat ended.
    pub fn on_combat_finished(comms: &mut Comms, pps: &mut PlayerPersistentState) -> (r: Result<(), StsError>)
        ensures
            r is Ok ==> health_changed(old(pps), final(pps), hp_after_combat(old(pps)), old(pps).hp_max),
            r is Ok ==> final(comms).sent() == old(comms).sent() + combat_end_messages(old(pps)).push(StsMessage::EndingCombat),
            r matches Err(e) ==> e == StsError::Disconnected && sent_part(old(comms).sent(), final(comms).sent(),
                combat_end_messages(old(pps)).push(StsMessage::EndingCombat)),
            tallied(*old(comms), *final(comms), r is Err),
    {
        let ghost s0 = comms.sent();
        let ghost all = combat_end_messages(pps).push(StsMessage::EndingCombat);
        let healed = RelicSystem::on_end_combat(comms, pps);
        if healed.is_err() {
            proof {
                lemma_sent_part_longer(s0, comms.sent(), combat_end_messages(old(pps)), seq![StsMessage::EndingCombat]);
                assert(combat_end_messages(old(pps)) + seq![StsMessage::EndingCombat] =~= all);
            }
            return healed;
        }
        let r = comms.send_ending_combat();
        proof {
            assert(comms.sent() =~= s0 + all.take(all.len() as int));
            assert(all.take(all.len() as int) =~= all);
            lemma_sent_part(s0, all, all.len() as int);
        }
        r
    }
}

/// What the client is told after the conditions when the player's turn starts: the block
/// when there was some, then the energy.
pub open spec fn turn_start_messages(block: u32) -> Seq<StsMessage> {
    (if block > 0 { seq![StsMessage::Block(0)] } else { Seq::empty() }).push(StsMessage::Energy(3))
}

} // verus!
