use vstd::prelude::*;

use crate::components::{EffectQueue, PlayerCombatState};
use crate::player::comms::tallied;
use crate::player::message::{StsError, StsMessage};
use crate::systems::base::health_system::{health_changed, HealthSystem};
use crate::systems::base::relic_system::{modified_hp_lost, RelicSystem};
use crate::player::state::{spec_saturating_add, spec_saturating_sub};
use crate::systems::base::combat_context::CombatContext;
use crate::systems::damage::damage_system::{calculate_damage_taken, damage_taken, DamageTaken};
use crate::systems::enemy::enemy_state::EnemyState;
use crate::types::Block;

use super::damage_calculator::CalculatedDamage;
use super::enemy_condition_system::{damage_reactions, EnemyConditionSystem};
use super::player_condition_system::PlayerConditionSystem;

verus! {

/// Block in a combat: the player's, and the enemies'.
pub struct BlockSystem;

/// Everything of a combat but the player's block and the messages sent is as it was.
pub open spec fn only_player_block_changed(before: &CombatContext, after: &CombatContext) -> bool {
    &&& after.pps == before.pps
    &&& after.pcs == (crate::components::PlayerCombatState { block: after.pcs.block, ..before.pcs })
    &&& after.enemy_party == before.enemy_party
    &&& after.maybe_enemy_index == before.maybe_enemy_index
    &&& after.effect_queue == before.effect_queue
    &&& after.misc_rng == before.misc_rng
    &&& after.enemy_rng == before.enemy_rng
    &&& after.shuffle_rng == before.shuffle_rng
    &&& after.card_randomizer_rng == before.card_randomizer_rng
}

/// What the client is told of the damage that the player's block took: how much was blocked and
/// the block left, when anything was blocked.
pub open spec fn blocked_messages(block: Block, t: DamageTaken) -> Seq<StsMessage> {
    if t.blocked > 0 {
        seq![StsMessage::DamageBlocked(t.blocked), StsMessage::Block((block - t.blocked) as u32)]
    } else {
        Seq::empty()
    }
}

/// `after` is `before` once the player took `damage` (see `BlockSystem::damage_player`);
/// `failed` tells whether a message could not be sent, which stops the rest.
pub open spec fn player_damaged(before: CombatContext, after: CombatContext, damage: CalculatedDamage, failed: bool) -> bool {
    let t = damage_taken(before.pcs.block, damage);
    let lost = modified_hp_lost(before.pps.relics@, t.hp_lost);
    let block = (before.pcs.block - t.blocked) as u32;
    let hp = spec_saturating_sub(before.pps.hp, lost);
    let first = before.comms.sent() + blocked_messages(before.pcs.block, t);
    let sent = after.comms.sent();
    &&& after.pcs == (PlayerCombatState { block, ..before.pcs })
    &&& health_changed(&before.pps, &after.pps, after.pps.hp, before.pps.hp_max)
    &&& (after.pps.hp == before.pps.hp || after.pps.hp == hp)
    &&& (!failed && t.hp_lost == 0) ==> sent == first && after.pps.hp == before.pps.hp
    &&& (!failed && t.hp_lost > 0) ==> {
        &&& after.pps.hp == hp
        &&& sent.len() == first.len() + 4
        &&& sent.subrange(0, first.len() as int) == first
        &&& sent[first.len() as int] matches StsMessage::Conditions(v) && v@ == before.pcs.conditions@
        &&& sent.subrange((first.len() + 1) as int, (first.len() + 4) as int) == seq![
            StsMessage::DamageTaken(lost),
            StsMessage::Health((hp, before.pps.hp_max)),
            StsMessage::Block(block),
        ]
    }
    &&& before.comms.sent().is_prefix_of(sent)
    &&& after.enemy_party == before.enemy_party
    &&& after.maybe_enemy_index == before.maybe_enemy_index
    &&& after.effect_queue == before.effect_queue
    &&& after.misc_rng == before.misc_rng
    &&& after.enemy_rng == before.enemy_rng
    &&& after.shuffle_rng == before.shuffle_rng
    &&& after.card_randomizer_rng == before.card_randomizer_rng
    &&& tallied(before.comms, after.comms, failed)
}

/// An enemy slot at the start of the enemies' turn, as far as block goes: an enemy's block
/// goes back to zero.
pub open spec fn block_reset(before: Option<EnemyState>, after: Option<EnemyState>) -> bool {
    match before {
        Some(b) => after == Some(EnemyState { block: 0, ..b }),
        None => after is None,
    }
}

impl BlockSystem {
    /// Tells the client the player's block.
    pub fn notify_player(ctx: &mut CombatContext) -> (r: Result<(), StsError>)
        ensures
            only_player_block_changed(old(ctx), final(ctx)),
            final(ctx).pcs.block == old(ctx).pcs.block,
            final(ctx).comms.sent() == old(ctx).comms.sent().push(StsMessage::Block(old(ctx).pcs.block)),
            r matches Err(e) ==> e == StsError::Disconnected,
            tallied(old(ctx).comms, final(ctx).comms, r is Err),
    {
        let block = ctx.pcs.block;
        ctx.comms.send_block(block)
    }

    /// The player's block goes back to zero as their turn starts; the client is told when it
    /// changed.
    pub fn on_player_turn_started(ctx: &mut CombatContext) -> (r: Result<(), StsError>)
        ensures
            only_player_block_changed(old(ctx), final(ctx)),
            final(ctx).pcs.block == 0,
            final(ctx).comms.sent() == if old(ctx).pcs.block > 0 {
                old(ctx).comms.sent().push(StsMessage::Block(0))
            } else {
                old(ctx).comms.sent()
            },
            r matches Err(e) ==> e == StsError::Disconnected,
            tallied(old(ctx).comms, final(ctx).comms, r is Err),
    {
        if ctx.pcs.block > 0 {
            ctx.pcs.block = 0;
            Self::notify_player(ctx)
        } else {
            Ok(())
        }
    }

    /// Every enemy's block goes back to zero as the enemies' turn starts.
    pub fn on_enemies_turn_started(ctx: &mut CombatContext)
        ensures
            final(ctx).enemy_party.0@.len() == old(ctx).enemy_party.0@.len(),
            forall|i: int| 0 <= i < old(ctx).enemy_party.0@.len()
                ==> block_reset(#[trigger] old(ctx).enemy_party.0@[i], final(ctx).enemy_party.0@[i]),
            final(ctx).pps == old(ctx).pps,
            final(ctx).pcs == old(ctx).pcs,
            final(ctx).comms == old(ctx).comms,
            final(ctx).effect_queue == old(ctx).effect_queue,
    {
        let n = ctx.enemy_party.0.len();
        let mut i: usize = 0;
        while i < n
            invariant
                i <= n,
                n == old(ctx).enemy_party.0@.len(),
                ctx.enemy_party.0@.len() == n,
                forall|k: int| 0 <= k < i ==> block_reset(#[trigger] old(ctx).enemy_party.0@[k], ctx.enemy_party.0@[k]),
                forall|k: int| i <= k < n ==> #[trigger] ctx.enemy_party.0@[k] == old(ctx).enemy_party.0@[k],
                ctx.pps == old(ctx).pps,
                ctx.pcs == old(ctx).pcs,
                ctx.comms == old(ctx).comms,
                ctx.effect_queue == old(ctx).effect_queue,
            decreases n - i,
        {
            let slot = ctx.enemy_party.0.remove(i);
            let updated = match slot {
                Some(enemy) => Some(EnemyState { block: 0, ..enemy }),
                None => None,
            };
            ctx.enemy_party.0.insert(i, updated);
            i = i + 1;
        }
    }

    /// The player gains block (up to `u32::MAX`); the client is told the block gained and the
    /// new block.
    pub fn gain_block(ctx: &mut CombatContext, amount: Block) -> (r: Result<(), StsError>)
        ensures
            only_player_block_changed(old(ctx), final(ctx)),
            final(ctx).pcs.block == spec_saturating_add(old(ctx).pcs.block, amount),
            r is Ok ==> final(ctx).comms.sent() == old(ctx).comms.sent().push(StsMessage::BlockGained(amount)).push(
                StsMessage::Block(final(ctx).pcs.block)),
            r is Err ==> final(ctx).comms.sent() == old(ctx).comms.sent().push(StsMessage::BlockGained(amount))
                || final(ctx).comms.sent() == old(ctx).comms.sent().push(StsMessage::BlockGained(amount)).push(
                    StsMessage::Block(final(ctx).pcs.block)),
            r matches Err(e) ==> e == StsError::Disconnected,
            tallied(old(ctx).comms, final(ctx).comms, r is Err),
    {
        ctx.pcs.block = ctx.pcs.block.saturating_add(amount);
        ctx.comms.send_block_gained(amount)?;
        Self::notify_player(ctx)
    }

    /// Damages an enemy: its conditions react to how the damage lands (see
    /// `damage_reactions`), then its block and hit points lose what was blocked and what got
    /// through.
    pub fn damage_enemy(enemy_state: &mut EnemyState, damage: CalculatedDamage, effect_queue: &mut EffectQueue)
        ensures
            ({
                let t = damage_taken(old(enemy_state).block, damage);
                let (kept, block, queue) = damage_reactions(old(enemy_state).conditions@, old(enemy_state).block, old(effect_queue)@, t);
                &&& final(enemy_state).conditions@ == kept
                &&& final(effect_queue)@ == queue
                &&& *final(enemy_state) == (EnemyState {
                    conditions: final(enemy_state).conditions,
                    block: spec_saturating_sub(block, t.blocked),
                    hp: spec_saturating_sub(old(enemy_state).hp, t.hp_lost),
                    ..*old(enemy_state)
                })
            }),
    {
        let taken = calculate_damage_taken(enemy_state.block, damage);
        EnemyConditionSystem::on_damage_taken(enemy_state, &taken, effect_queue);
        if taken.blocked > 0 {
            enemy_state.block = enemy_state.block.saturating_sub(taken.blocked);
        }
        if taken.hp_lost > 0 {
            enemy_state.hp = enemy_state.hp.saturating_sub(taken.hp_lost);
        }
    }

    /// Damages the player. Block absorbs what it can; when any was blocked the client is told
    /// how much and the block left. When hit points are to be lost, the relics lessen the loss
    /// (see `modified_hp_lost`), the client is told the player's conditions (they hold no
    /// reaction to damage here), then the loss, and the hit points go down by it (the client is
    /// told the new health), and the client is told the block once more.
    pub fn damage_player(ctx: &mut CombatContext, damage: CalculatedDamage) -> (r: Result<(), StsError>)
        ensures
            player_damaged(*old(ctx), *final(ctx), damage, r is Err),
            r matches Err(e) ==> e == StsError::Disconnected,
            tallied(old(ctx).comms, final(ctx).comms, r is Err),
    {
        let mut taken = calculate_damage_taken(ctx.pcs.block, damage);
        let ghost s0 = ctx.comms.sent();
        let ghost c0 = ctx.comms;
        if taken.blocked > 0 {
            ctx.pcs.block = ctx.pcs.block - taken.blocked;
            let sent = ctx.comms.send_damage_blocked(taken.blocked);
            if sent.is_err() {
                return sent;
            }
            let told = Self::notify_player(ctx);
            if told.is_err() {
                return told;
            }
        }
        let ghost s1 = ctx.comms.sent();
        assert(s1 == s0 + blocked_messages(old(ctx).pcs.block, taken));
        if taken.hp_lost == 0 {
            return Ok(());
        }
        RelicSystem::modify_damage_taken_by_player(&ctx.pps, &mut taken);
        let told = PlayerConditionSystem::notify_player(ctx);
        let ghost s2 = ctx.comms.sent();
        assert(s2 =~= s1.push(s2.last()));
        assert(s2.subrange(0, s0.len() as int) =~= s0);
        if told.is_err() {
            return told;
        }
        let sent = ctx.comms.send_damage_taken(taken.hp_lost);
        if sent.is_err() {
            assert(ctx.comms.sent().subrange(0, s0.len() as int) =~= s0);
            return sent;
        }
        let lowered = HealthSystem::decrease_hp(&mut ctx.comms, &mut ctx.pps, taken.hp_lost);
        if lowered.is_err() {
            assert(ctx.comms.sent().subrange(0, s0.len() as int) =~= s0);
            return lowered;
        }
        let r = Self::notify_player(ctx);
        assert(ctx.comms.sent().subrange(0, s1.len() as int) =~= s1);
        assert(ctx.comms.sent().subrange((s1.len() + 1) as int, (s1.len() + 4) as int) =~= seq![
            StsMessage::DamageTaken(taken.hp_lost),
            StsMessage::Health((ctx.pps.hp, ctx.pps.hp_max)),
            StsMessage::Block(ctx.pcs.block),
        ]);
        r
    }
}

} // verus!
