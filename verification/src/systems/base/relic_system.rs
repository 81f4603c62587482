use vstd::prelude::*;

use crate::components::{Damage, Effect, EffectQueue, PlayerCombatState, PlayerEffect, PlayerPersistentState, TargetEffect};
use crate::data::{PlayerCondition, Relic};
use crate::systems::combat::condition::{apply_fits, applied};
use crate::systems::combat::condition_system::{conditions_changed, told_conditions, ConditionSystem};
use crate::player::comms::{lemma_sent_part, sent_part, Comms, tallied};
use crate::player::message::{StsError, StsMessage};
use crate::player::state::{spec_min, spec_saturating_add, spec_saturating_sub};
use crate::systems::damage::damage_system::DamageTaken;

use super::health_system::{health_changed, health_message, HealthSystem};

verus! {

/// The player's relics and what they do.
pub struct RelicSystem;

/// Confused merges into Confused with no counter, so applying it always fits.
proof fn lemma_confused_always_fits(s: Seq<PlayerCondition>)
    ensures
        apply_fits(s, PlayerCondition::Confused),
    decreases s.len(),
{
    if s.len() > 0 {
        lemma_confused_always_fits(s.drop_first());
    }
}

/// `after` is `before` with only the relics changed, to `relics`.
pub open spec fn relics_changed(before: &PlayerPersistentState, after: &PlayerPersistentState, relics: Seq<Relic>) -> bool {
    &&& after.relics@ == relics
    &&& after.hp == before.hp
    &&& after.hp_max == before.hp_max
    &&& after.gold == before.gold
    &&& after.deck@ == before.deck@
    &&& after.potions@ == before.potions@
}

/// Whether the player holds `relic`.
fn holds(relics: &Vec<Relic>, relic: Relic) -> (r: bool)
    ensures
        r == relics@.contains(relic),
{
    let mut i: usize = 0;
    while i < relics.len()
        invariant
            i <= relics@.len(),
            forall|k: int| 0 <= k < i ==> relics@[k] != relic,
        decreases relics@.len() - i,
    {
        if relics[i] == relic {
            return true;
        }
        i = i + 1;
    }
    false
}

/// The index of the first copy of `relic`, which must be held.
fn first_index_of(relics: &Vec<Relic>, relic: Relic) -> (r: usize)
    requires
        relics@.contains(relic),
    ensures
        r < relics@.len(),
        relics@[r as int] == relic,
        forall|k: int| 0 <= k < r ==> relics@[k] != relic,
{
    let mut i: usize = 0;
    while i < relics.len()
        invariant
            i <= relics@.len(),
            relics@.contains(relic),
            forall|k: int| 0 <= k < i ==> relics@[k] != relic,
        decreases relics@.len() - i,
    {
        if relics[i] == relic {
            return i;
        }
        i = i + 1;
    }
    proof {
        let k = choose|k: int| 0 <= k < relics@.len() && relics@[k] == relic;
    }
    0
}

/// The hit points lost after the relics: Torii turns a loss of 1 to 5 into 1, then Tungsten
/// Rod takes 1 off.
pub open spec fn modified_hp_lost(relics: Seq<Relic>, hp_lost: u32) -> u32 {
    let after_torii = if relics.contains(Relic::Torii) && 1 <= hp_lost <= 5 { 1 } else { hp_lost };
    if relics.contains(Relic::TungstenRod) { spec_saturating_sub(after_torii, 1) } else { after_torii }
}

/// The effect queued by Charon's Ashes when a card is exhausted: 3 damage to every enemy.
pub open spec fn charons_ashes_effect() -> Effect {
    Effect::PlayerState(PlayerEffect::ToAllEnemies(TargetEffect::Deal(Damage::BlockableNonAttack(3))))
}

/// The effects queued for each of the relics when a card is exhausted, in order.
pub open spec fn exhaust_effects(relics: Seq<Relic>) -> Seq<Effect>
    decreases relics.len(),
{
    if relics.len() == 0 {
        Seq::empty()
    } else {
        let before = exhaust_effects(relics.drop_last());
        if relics.last() == Relic::CharonsAshes { before.push(charons_ashes_effect()) } else { before }
    }
}

/// What the client is told of the healing at the end of a combat: the health after Burning
/// Blood heals 6, then after Black Blood heals 12, for each relic held.
pub open spec fn combat_end_messages(pps: &PlayerPersistentState) -> Seq<StsMessage> {
    let hp1 = if pps.relics@.contains(Relic::BurningBlood) {
        spec_min(spec_saturating_add(pps.hp, 6), pps.hp_max)
    } else {
        pps.hp
    };
    let hp2 = if pps.relics@.contains(Relic::BlackBlood) {
        spec_min(spec_saturating_add(hp1, 12), pps.hp_max)
    } else {
        hp1
    };
    (if pps.relics@.contains(Relic::BurningBlood) {
        seq![StsMessage::Health((hp1, pps.hp_max))]
    } else {
        Seq::empty()
    }) + (if pps.relics@.contains(Relic::BlackBlood) {
        seq![StsMessage::Health((hp2, pps.hp_max))]
    } else {
        Seq::empty()
    })
}

impl RelicSystem {
    /// Tells the client the player's relics.
    pub fn notify_player(comms: &mut Comms, pps: &PlayerPersistentState) -> (r: Result<(), StsError>)
        ensures
            final(comms).sent().len() == old(comms).sent().len() + 1,
            final(comms).sent().drop_last() == old(comms).sent(),
            final(comms).sent().last() matches StsMessage::Relics(v) && v@ == pps.relics@,
            r matches Err(e) ==> e == StsError::Disconnected,
            tallied(*old(comms), *final(comms), r is Err),
    {
        comms.send_relics(pps.relics.as_slice())
    }

    /// Adds a relic and tells the client the relics.
    pub fn obtain_relic(comms: &mut Comms, pps: &mut PlayerPersistentState, relic: Relic) -> (r: Result<(), StsError>)
        ensures
            relics_changed(old(pps), final(pps), old(pps).relics@.push(relic)),
            final(comms).sent().drop_last() == old(comms).sent(),
            final(comms).sent().last() matches StsMessage::Relics(v) && v@ == final(pps).relics@,
            r matches Err(e) ==> e == StsError::Disconnected,
            tallied(*old(comms), *final(comms), r is Err),
    {
        pps.relics.push(relic);
        Self::notify_player(comms, pps)
    }

    /// Replaces the first copy of `relic_to_replace` with `incoming_relic` and tells the
    /// client the relics.
    pub fn replace_relic(
        comms: &mut Comms,
        pps: &mut PlayerPersistentState,
        relic_to_replace: Relic,
        incoming_relic: Relic,
    ) -> (r: Result<(), StsError>)
        requires
            old(pps).relics@.contains(relic_to_replace),
        ensures
            exists|i: int| 0 <= i < old(pps).relics@.len() && old(pps).relics@[i] == relic_to_replace
                && (forall|k: int| 0 <= k < i ==> old(pps).relics@[k] != relic_to_replace)
                && relics_changed(old(pps), final(pps), old(pps).relics@.update(i, incoming_relic)),
            final(comms).sent().drop_last() == old(comms).sent(),
            final(comms).sent().last() matches StsMessage::Relics(v) && v@ == final(pps).relics@,
            r matches Err(e) ==> e == StsError::Disconnected,
            tallied(*old(comms), *final(comms), r is Err),
    {
        let i = first_index_of(&pps.relics, relic_to_replace);
        pps.relics.set(i, incoming_relic);
        assert(relics_changed(old(pps), pps, old(pps).relics@.update(i as int, incoming_relic)));
        Self::notify_player(comms, pps)
    }

    /// Extra cards drawn at the start of each turn: two with Snecko Eye.
    pub fn extra_cards_to_draw_at_start_of_player_turn(pps: &PlayerPersistentState) -> (r: usize)
        ensures
            r == (if pps.relics@.contains(Relic::SneckoEye) { 2usize } else { 0usize }),
    {
        if holds(&pps.relics, Relic::SneckoEye) {
            2
        } else {
            0
        }
    }

    /// At the start of a combat Snecko Eye confuses the player (the client is told the
    /// conditions).
    pub fn on_start_combat(comms: &mut Comms, pps: &PlayerPersistentState, pcs: &mut PlayerCombatState) -> (r: Result<(), StsError>)
        ensures
            pps.relics@.contains(Relic::SneckoEye) ==> conditions_changed(
                old(pcs),
                final(pcs),
                applied(old(pcs).conditions@, PlayerCondition::Confused),
            ),
            pps.relics@.contains(Relic::SneckoEye) ==> told_conditions(old(comms).sent(), final(comms).sent(), final(pcs).conditions@),
            !pps.relics@.contains(Relic::SneckoEye) ==> conditions_changed(old(pcs), final(pcs), old(pcs).conditions@)
                && final(comms).sent() == old(comms).sent() && r is Ok,
            r matches Err(e) ==> e == StsError::Disconnected,
            tallied(*old(comms), *final(comms), r is Err),
    {
        if holds(&pps.relics, Relic::SneckoEye) {
            proof {
                lemma_confused_always_fits(pcs.conditions@);
            }
            ConditionSystem::apply_to_player(comms, pcs, &PlayerCondition::Confused)
        } else {
            Ok(())
        }
    }

    /// At the end of a combat Burning Blood heals 6 and Black Blood 12 (the client is told of
    /// each healing).
    pub fn on_end_combat(comms: &mut Comms, pps: &mut PlayerPersistentState) -> (r: Result<(), StsError>)
        ensures
            ({
                let hp1 = if old(pps).relics@.contains(Relic::BurningBlood) {
                    spec_min(spec_saturating_add(old(pps).hp, 6), old(pps).hp_max)
                } else {
                    old(pps).hp
                };
                let hp2 = if old(pps).relics@.contains(Relic::BlackBlood) {
                    spec_min(spec_saturating_add(hp1, 12), old(pps).hp_max)
                } else {
                    hp1
                };
                let msgs = combat_end_messages(old(pps));
                &&& r is Ok ==> health_changed(old(pps), final(pps), hp2, old(pps).hp_max)
                    && final(comms).sent() == old(comms).sent() + msgs
                &&& r is Err ==> (health_changed(old(pps), final(pps), hp2, old(pps).hp_max)
                    || health_changed(old(pps), final(pps), hp1, old(pps).hp_max))
                    && sent_part(old(comms).sent(), final(comms).sent(), msgs)
            }),
            r matches Err(e) ==> e == StsError::Disconnected,
            tallied(*old(comms), *final(comms), r is Err),
    {
        let ghost s0 = comms.sent();
        let ghost hp0 = pps.hp;
        let has_burning_blood = holds(&pps.relics, Relic::BurningBlood);
        let has_black_blood = holds(&pps.relics, Relic::BlackBlood);
        let ghost first: Seq<StsMessage> = Seq::empty();
        if has_burning_blood {
            let healed = HealthSystem::heal(comms, pps, 6);
            proof {
                first = seq![StsMessage::Health((pps.hp, pps.hp_max))];
            }
            if healed.is_err() {
                proof {
                    let all = first + (if has_black_blood {
                        seq![StsMessage::Health((spec_min(spec_saturating_add(pps.hp, 12), pps.hp_max), pps.hp_max))]
                    } else {
                        Seq::empty()
                    });
                    assert(comms.sent() =~= s0 + all.take(1));
                    lemma_sent_part(s0, all, 1);
                }
                return healed;
            }
        }
        assert(comms.sent() =~= s0 + first);
        if has_black_blood {
            let healed = HealthSystem::heal(comms, pps, 12);
            proof {
                let all = first + seq![StsMessage::Health((pps.hp, pps.hp_max))];
                assert(comms.sent() =~= s0 + all.take(all.len() as int));
                assert(all.take(all.len() as int) =~= all);
                lemma_sent_part(s0, all, all.len() as int);
            }
            if healed.is_err() {
                return healed;
            }
        } else {
            assert(first + Seq::<StsMessage>::empty() =~= first);
        }
        Ok(())
    }

    /// Lessens the hit points lost to damage: Torii turns a loss of 1 to 5 into 1, then
    /// Tungsten Rod takes 1 off.
    pub fn modify_damage_taken_by_player(pps: &PlayerPersistentState, damage_taken: &mut DamageTaken)
        ensures
            final(damage_taken).hp_lost == modified_hp_lost(pps.relics@, old(damage_taken).hp_lost),
            final(damage_taken).blocked == old(damage_taken).blocked,
            final(damage_taken).provokes_thorns == old(damage_taken).provokes_thorns,
    {
        let has_torii = holds(&pps.relics, Relic::Torii);
        let has_tungsten_rod = holds(&pps.relics, Relic::TungstenRod);
        if has_torii && 1 <= damage_taken.hp_lost && damage_taken.hp_lost <= 5 {
            damage_taken.hp_lost = 1;
        }
        if has_tungsten_rod {
            damage_taken.hp_lost = damage_taken.hp_lost.saturating_sub(1);
        }
    }

    /// Queues the effects of the relics when a card is exhausted: Charon's Ashes deals 3
    /// damage to every enemy. Dead Branch is not simulated.
    pub fn on_card_exhausted(pps: &PlayerPersistentState, effect_queue: &mut EffectQueue)
        requires
            !pps.relics@.contains(Relic::DeadBranch),
        ensures
            final(effect_queue)@ == old(effect_queue)@ + exhaust_effects(pps.relics@),
    {
        let mut i: usize = 0;
        while i < pps.relics.len()
            invariant
                i <= pps.relics@.len(),
                effect_queue@ == old(effect_queue)@ + exhaust_effects(pps.relics@.subrange(0, i as int)),
            decreases pps.relics@.len() - i,
        {
            proof {
                assert(pps.relics@.subrange(0, i as int + 1).drop_last() == pps.relics@.subrange(0, i as int));
            }
            if pps.relics[i] == Relic::CharonsAshes {
                effect_queue.push_back(Effect::PlayerState(PlayerEffect::ToAllEnemies(TargetEffect::Deal(Damage::BlockableNonAttack(3)))));
            }
            i = i + 1;
        }
        assert(pps.relics@.subrange(0, pps.relics@.len() as int) == pps.relics@);
    }

    /// Bloody Idol heals 5 whenever gold is obtained.
    pub fn on_gold_obtained(comms: &mut Comms, pps: &mut PlayerPersistentState) -> (r: Result<(), StsError>)
        ensures
            old(pps).relics@.contains(Relic::BloodyIdol) ==>
                health_changed(old(pps), final(pps), spec_min(spec_saturating_add(old(pps).hp, 5), old(pps).hp_max), old(pps).hp_max)
                && final(comms).sent() == old(comms).sent().push(health_message(final(pps))),
            !old(pps).relics@.contains(Relic::BloodyIdol) ==>
                health_changed(old(pps), final(pps), old(pps).hp, old(pps).hp_max) && final(comms).sent() == old(comms).sent() && r is Ok,
            r matches Err(e) ==> e == StsError::Disconnected,
            tallied(*old(comms), *final(comms), r is Err),
    {
        if holds(&pps.relics, Relic::BloodyIdol) {
            HealthSystem::heal(comms, pps, 5)?;
        }
        Ok(())
    }
}

} // verus!
