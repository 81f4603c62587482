use vstd::prelude::*;
use crate::player::comms::tallied;

use crate::components::EffectQueue;
use crate::player::comms::{lemma_sent_part, sent_part, Comms};
use crate::player::message::{StsError, StsMessage};
use crate::player::state::{spec_saturating_add, spec_saturating_sub};
use crate::systems::combat::damage_calculator::CalculatedDamage;
use crate::types::{Block, Health};

use super::damage_system::{calculate_damage_taken, damage_taken};

verus! {

/// The player's block: it is reset at the start of each turn, gained from cards, and spent
/// absorbing damage; the client is told of every change.
pub struct BlockSystem;

impl BlockSystem {
    pub fn new() -> (r: BlockSystem) {
        BlockSystem
    }

    /// Tells the client the player's block.
    pub fn notify_player(&self, comms: &mut Comms, player_block: &Block) -> (r: Result<(), StsError>)
        ensures
            final(comms).sent() == old(comms).sent().push(StsMessage::Block(*player_block)),
            r matches Err(e) ==> e == StsError::Disconnected,
            tallied(*old(comms), *final(comms), r is Err),
    {
        comms.send_block(*player_block)
    }

    /// At the start of the player's turn their block goes back to zero (the client is told
    /// when it changed).
    pub fn reset_at_start_of_player_turn(&self, comms: &mut Comms, player_block: &mut Block) -> (r: Result<(), StsError>)
        ensures
            *final(player_block) == 0,
            *old(player_block) == 0 ==> final(comms).sent() == old(comms).sent() && r is Ok,
            *old(player_block) > 0 ==> final(comms).sent() == old(comms).sent().push(StsMessage::Block(0)),
            r matches Err(e) ==> e == StsError::Disconnected,
            tallied(*old(comms), *final(comms), r is Err),
    {
        if *player_block > 0 {
            *player_block = 0;
            self.notify_player(comms, player_block)?;
        }
        Ok(())
    }

    /// Adds block (saturating) and tells the client the new amount.
    pub fn gain_block(&self, comms: &mut Comms, player_block: &mut Block, amount: Block) -> (r: Result<(), StsError>)
        ensures
            *final(player_block) == spec_saturating_add(*old(player_block), amount),
            final(comms).sent() == old(comms).sent().push(StsMessage::Block(*final(player_block))),
            r matches Err(e) ==> e == StsError::Disconnected,
            tallied(*old(comms), *final(comms), r is Err),
    {
        *player_block = player_block.saturating_add(amount);
        self.notify_player(comms, player_block)
    }

    /// Damages the player: block absorbs what it can (the client is told how much and the new
    /// block), hit points take the rest (the client is told the damage and the new hit points).
    pub fn damage_player(
        &self,
        comms: &mut Comms,
        player_block: &mut Block,
        player_health: &mut Health,
        damage: CalculatedDamage,
        effect_queue: &mut EffectQueue,
    ) -> (r: Result<(), StsError>)
        ensures
            *final(effect_queue) == *old(effect_queue),
            ({
                let t = damage_taken(*old(player_block), damage);
                &&& *final(player_block) == (*old(player_block) - t.blocked) as u32
                &&& final(player_health).0 == spec_saturating_sub(old(player_health).0, t.hp_lost)
                &&& final(player_health).1 == old(player_health).1
                &&& r is Ok ==> final(comms).sent() == old(comms).sent()
                        + (if t.blocked > 0 { seq![StsMessage::DamageBlocked(t.blocked), StsMessage::Block(*final(player_block))] } else { Seq::empty() })
                        + (if t.hp_lost > 0 { seq![StsMessage::DamageTaken(t.hp_lost), StsMessage::Hp(final(player_health).0)] } else { Seq::empty() })
                &&& r is Err ==> sent_part(old(comms).sent(), final(comms).sent(),
                        (if t.blocked > 0 { seq![StsMessage::DamageBlocked(t.blocked), StsMessage::Block(*final(player_block))] } else { Seq::empty() })
                        + (if t.hp_lost > 0 { seq![StsMessage::DamageTaken(t.hp_lost), StsMessage::Hp(final(player_health).0)] } else { Seq::empty() }))
            }),
            r matches Err(e) ==> e == StsError::Disconnected,
            tallied(*old(comms), *final(comms), r is Err),
    {
        let taken = calculate_damage_taken(*player_block, damage);
        let ghost s0 = comms.sent();
        *player_block = *player_block - taken.blocked;
        player_health.0 = player_health.0.saturating_sub(taken.hp_lost);
        let ghost msgs = (if taken.blocked > 0 { seq![StsMessage::DamageBlocked(taken.blocked), StsMessage::Block(*player_block)] } else { Seq::empty() })
            + (if taken.hp_lost > 0 { seq![StsMessage::DamageTaken(taken.hp_lost), StsMessage::Hp(player_health.0)] } else { Seq::empty() });
        if taken.blocked > 0 {
            let r1 = comms.send_damage_blocked(taken.blocked);
            if r1.is_err() {
                proof { assert(comms.sent() =~= s0 + msgs.take(1)); lemma_sent_part(s0, msgs, 1); }
                return r1;
            }
            let r2 = comms.send_block(*player_block);
            if r2.is_err() {
                proof { assert(comms.sent() =~= s0 + msgs.take(2)); lemma_sent_part(s0, msgs, 2); }
                return r2;
            }
        }
        let ghost s1 = comms.sent();
        assert(s1 == s0 + (if taken.blocked > 0 { seq![StsMessage::DamageBlocked(taken.blocked), StsMessage::Block(*player_block)] } else { Seq::empty() }));
        if taken.hp_lost == 0 {
            assert(s1 + Seq::<StsMessage>::empty() == s1);
            return Ok(());
        }
        let r3 = comms.send_damage_taken(taken.hp_lost);
        if r3.is_err() {
            proof {
                let k = s1.len() - s0.len() + 1;
                assert(comms.sent() =~= s0 + msgs.take(k));
                lemma_sent_part(s0, msgs, k);
            }
            return r3;
        }
        let r = comms.send_hp(player_health.0);
        proof {
            assert(comms.sent() =~= s0 + msgs.take(msgs.len() as int));
            assert(msgs.take(msgs.len() as int) =~= msgs);
            lemma_sent_part(s0, msgs, msgs.len() as int);
        }
        assert(comms.sent() == s1 + seq![StsMessage::DamageTaken(taken.hp_lost), StsMessage::Hp(player_health.0)]);
        r
    }

    /// Damage to an enemy is not dealt through this system: nothing changes.
    pub fn damage_enemy(
        &self,
        enemy_block: &mut Block,
        enemy_health: &mut Health,
        damage: CalculatedDamage,
        effect_queue: &mut EffectQueue,
    ) -> (r: Result<(), StsError>)
        ensures
            r is Ok,
            *final(enemy_block) == *old(enemy_block),
            *final(enemy_health) == *old(enemy_health),
            *final(effect_queue) == *old(effect_queue),
    {
        Ok(())
    }
}

} // verus!
