use vstd::prelude::*;
use crate::player::comms::tallied;

use crate::components::{player_as_defender, AttackerStatus, PlayerCombatState, PlayerEffect, PlayerPersistentState, Resource, TargetEffect};
use crate::data::{Card, PlayerCondition};
use crate::player::message::{StsError, StsMessage};
use crate::player::state::{spec_saturating_add, spec_saturating_sub};
use crate::rng::sts::range_draw;
use crate::systems::base::combat_context::CombatContext;
use crate::systems::damage::damage_system::damage_taken;
use crate::systems::enemy::enemy_state::EnemyState;

use super::block_system::{only_player_block_changed, BlockSystem};
use super::condition::{applied, apply_fits};
use super::condition_system::{conditions_changed, told_conditions};
use super::damage_calculator::{block_gained, damage_in_range, damage_inflicted, DamageCalculator};
use super::draw_system::{drew_one, DrawSystem};
use super::enemy_condition_system::{damage_reactions, EnemyConditionSystem};
use super::effect_system::{all_enemies_done, all_enemies_safe, EffectSystem, EFFECT_BUDGET};
use super::enemy_effect_system::enemy_as_defender;
use super::player_condition_system::{only_player_combat_state_changed, PlayerConditionSystem};

verus! {

/// The effects that the player brings about.
pub struct PlayerEffectSystem;

/// The cards whose name holds "Strike".
pub open spec fn is_strike(card: Card) -> bool {
    match card {
        Card::MeteorStrike | Card::PerfectedStrike | Card::PommelStrike | Card::SneakyStrike | Card::Strike
        | Card::StrikeB | Card::StrikeG | Card::StrikeP | Card::SwiftStrike | Card::ThunderStrike
        | Card::TwinStrike | Card::WildStrike | Card::WindmillStrike => true,
        _ => false,
    }
}

/// The number of Strike cards in a deck.
pub open spec fn strike_count(deck: Seq<Card>) -> nat
    decreases deck.len(),
{
    if deck.len() == 0 {
        0
    } else {
        strike_count(deck.drop_last()) + if is_strike(deck.last()) { 1nat } else { 0nat }
    }
}

/// The player is weak.
pub open spec fn player_is_weak(conditions: Seq<PlayerCondition>) -> bool {
    exists|i: int| 0 <= i < conditions.len() && conditions[i] is Weak
}

/// The player as an attacker: their block, the sizes of the draw pile and the hand, whether
/// they are weak, the Strike cards of their deck, and their strength.
pub open spec fn player_as_attacker(pcs: PlayerCombatState, pps: PlayerPersistentState) -> AttackerStatus {
    AttackerStatus {
        block: pcs.block,
        draw_pile_size: pcs.draw_pile@.len() as usize,
        hand_size: pcs.hand@.len() as usize,
        is_weak: player_is_weak(pcs.conditions@),
        number_of_strike_cards_owned: strike_count(pps.deck@) as usize,
        strength: pcs.strength,
    }
}

/// The slots that hold an enemy, in order.
pub open spec fn living_enemies(party: Seq<Option<EnemyState>>) -> Seq<usize>
    decreases party.len(),
{
    if party.len() == 0 {
        Seq::empty()
    } else {
        let rest = living_enemies(party.drop_last());
        if party.last() is Some { rest.push((party.len() - 1) as usize) } else { rest }
    }
}

/// Every slot named by `living_enemies` holds an enemy.
pub proof fn lemma_living_enemies(party: Seq<Option<EnemyState>>)
    requires
        party.len() <= usize::MAX,
    ensures
        forall|k: int| 0 <= k < living_enemies(party).len()
            ==> #[trigger] living_enemies(party)[k] < party.len() && party[living_enemies(party)[k] as int] is Some,
    decreases party.len(),
{
    if party.len() > 0 {
        lemma_living_enemies(party.drop_last());
    }
}

/// The enemy in slot `i`, if there is one.
pub open spec fn enemy_at(ctx: CombatContext, i: usize) -> Option<EnemyState> {
    if i < ctx.enemy_party.0@.len() { ctx.enemy_party.0@[i as int] } else { None }
}

/// What an effect on the enemy in slot `i` needs: damage within range, or a condition that
/// merges within range.
pub open spec fn target_effect_fits(ctx: CombatContext, i: usize, effect: TargetEffect) -> bool {
    match enemy_at(ctx, i) {
        None => true,
        Some(e) => match effect {
            TargetEffect::Deal(d) => damage_in_range(player_as_attacker(ctx.pcs, ctx.pps), d),
            TargetEffect::Inflict(c) => apply_fits(e.conditions@, c),
        },
    }
}

/// `after` is `before` once `effect` hit the enemy in slot `i` (nothing happens when the slot
/// is empty): damage is worked out from the player as attacker and lands on the enemy (its
/// conditions react, see `damage_reactions`), or a condition is applied to it. Nothing but
/// that enemy and the effect queue changes, the acting slot and the misc generator aside.
pub open spec fn target_effect_done(before: CombatContext, after: CombatContext, i: usize, effect: TargetEffect) -> bool {
    &&& after.comms == before.comms
    &&& after.pps == before.pps
    &&& after.pcs == before.pcs
    &&& after.enemy_rng == before.enemy_rng
    &&& after.shuffle_rng == before.shuffle_rng
    &&& after.card_randomizer_rng == before.card_randomizer_rng
    &&& after.enemy_party.0@.len() == before.enemy_party.0@.len()
    &&& forall|j: int| 0 <= j < before.enemy_party.0@.len() && j != i ==> after.enemy_party.0@[j] == #[trigger] before.enemy_party.0@[j]
    &&& match enemy_at(before, i) {
        None => after.enemy_party == before.enemy_party && after.effect_queue == before.effect_queue,
        Some(e) => {
            let a = enemy_at(after, i)->0;
            &&& enemy_at(after, i) is Some
            &&& match effect {
                TargetEffect::Deal(d) => {
                    let t = damage_taken(e.block, damage_inflicted(player_as_attacker(before.pcs, before.pps), Some(enemy_as_defender(e)), d));
                    let (kept, block, queue) = damage_reactions(e.conditions@, e.block, before.effect_queue@, t);
                    &&& a.conditions@ == kept
                    &&& a == (EnemyState {
                        conditions: a.conditions,
                        block: spec_saturating_sub(block, t.blocked),
                        hp: spec_saturating_sub(e.hp, t.hp_lost),
                        ..e
                    })
                    &&& after.effect_queue@ == queue
                },
                TargetEffect::Inflict(c) => {
                    &&& a == (EnemyState { conditions: a.conditions, ..e })
                    &&& a.conditions@ == applied(e.conditions@, c)
                    &&& after.effect_queue == before.effect_queue
                },
            }
        },
    }
}

/// `after` is `before` once `n` cards were drawn, one by one (see `drew_one`).
pub open spec fn drew(before: CombatContext, after: CombatContext, n: nat) -> bool
    decreases n,
{
    if n == 0 {
        after == before
    } else {
        exists|mid: CombatContext| drew(before, mid, (n - 1) as nat) && #[trigger] drew_one(mid, after, false)
    }
}

/// One more card drawn after `n` makes `n + 1`.
pub proof fn lemma_drew_one_more(before: CombatContext, mid: CombatContext, after: CombatContext, n: nat)
    requires
        drew(before, mid, n),
        drew_one(mid, after, false),
    ensures
        drew(before, after, n + 1),
{
    assert(drew_one(mid, after, false));
}

/// What a player effect needs: a condition that merges within range; a discard pile that a
/// shuffle can take; block is the one resource gained here; a living enemy to pick at random
/// and what the effect does to each fitting; a target for a single-target effect and what the
/// effect does to it fitting. Effects on every enemy are resolved by `EffectSystem` (see
/// `all_enemies_safe`), not here.
pub open spec fn player_effect_fits(ctx: CombatContext, effect: PlayerEffect) -> bool {
    match effect {
        PlayerEffect::Apply(c) => apply_fits(ctx.pcs.conditions@, c),
        PlayerEffect::Draw(_) => ctx.pcs.discard_pile@.len() <= 0x8000_0000,
        PlayerEffect::Gain(r) => r is Block,
        PlayerEffect::ToAllEnemies(_) => false,
        PlayerEffect::ToRandomEnemy(t) => {
            &&& living_enemies(ctx.enemy_party.0@).len() > 0
            &&& forall|i: usize| i < ctx.enemy_party.0@.len() ==> #[trigger] target_effect_fits(ctx, i, t)
        },
        PlayerEffect::ToSingleTarget(t) => ctx.maybe_enemy_index is Some && target_effect_fits(ctx, ctx.maybe_enemy_index->0, t),
    }
}

/// `after` is `before` once the player brought about `effect`; `failed` tells whether a
/// message could not be sent, which stops the rest.
pub open spec fn player_effect_done(before: CombatContext, after: CombatContext, effect: PlayerEffect, failed: bool) -> bool {
    match effect {
        PlayerEffect::Apply(c) => {
            &&& only_player_combat_state_changed(&before, &after)
            &&& conditions_changed(&before.pcs, &after.pcs, applied(before.pcs.conditions@, c))
            &&& told_conditions(before.comms.sent(), after.comms.sent(), after.pcs.conditions@)
            &&& tallied(before.comms, after.comms, failed)
        },
        PlayerEffect::Draw(n) => {
            &&& !failed ==> drew(before, after, n as nat)
            &&& failed ==> exists|k: nat, mid: CombatContext| k < n && #[trigger] drew(before, mid, k) && drew_one(mid, after, true)
        },
        PlayerEffect::Gain(r) => {
            let amount = block_gained(player_as_defender(before.pcs), r->Block_0);
            let told = before.comms.sent().push(StsMessage::BlockGained(amount));
            &&& only_player_block_changed(&before, &after)
            &&& after.pcs.block == spec_saturating_add(before.pcs.block, amount)
            &&& !failed ==> after.comms.sent() == told.push(StsMessage::Block(after.pcs.block))
            &&& failed ==> after.comms.sent() == told || after.comms.sent() == told.push(StsMessage::Block(after.pcs.block))
            &&& tallied(before.comms, after.comms, failed)
        },
        PlayerEffect::ToAllEnemies(_) => false,
        PlayerEffect::ToRandomEnemy(t) => {
            let living = living_enemies(before.enemy_party.0@);
            let (misc, k) = range_draw(before.misc_rng@, 0, living.len() as u64);
            let i = living[k as int];
            &&& after.maybe_enemy_index == Some(i)
            &&& after.misc_rng@ == misc
            &&& target_effect_done(before, after, i, t)
            &&& !failed
        },
        PlayerEffect::ToSingleTarget(t) => {
            &&& after.maybe_enemy_index == before.maybe_enemy_index
            &&& after.misc_rng == before.misc_rng
            &&& target_effect_done(before, after, before.maybe_enemy_index->0, t)
            &&& !failed
        },
    }
}

impl PlayerEffectSystem {
    /// The player brings about `effect`: a condition applied to themselves, cards drawn one
    /// by one, block gained (with dexterity and frailty), an effect on a random living enemy
    /// (picked with the misc generator) or on the enemy targeted, or an effect on every enemy,
    /// with the effect queue resolved after each (see `EffectSystem::to_all_enemies`).
    pub fn process_player_effect(ctx: &mut CombatContext, effect: &PlayerEffect) -> (r: Result<(), StsError>)
        requires
            match *effect {
                PlayerEffect::ToAllEnemies(t) => all_enemies_safe(*old(ctx), t, 0, old(ctx).enemy_party.0@.len(), EFFECT_BUDGET as nat),
                _ => player_effect_fits(*old(ctx), *effect),
            },
        ensures
            match *effect {
                PlayerEffect::ToAllEnemies(t) => all_enemies_done(*old(ctx), *final(ctx), t, 0, old(ctx).enemy_party.0@.len(),
                    r is Err, EFFECT_BUDGET as nat),
                _ => player_effect_done(*old(ctx), *final(ctx), *effect, r is Err),
            },
            r matches Err(e) ==> e == StsError::Disconnected,
            tallied(old(ctx).comms, final(ctx).comms, r is Err),
    {
        match *effect {
            PlayerEffect::ToAllEnemies(t) => EffectSystem::to_all_enemies(ctx, &t, EFFECT_BUDGET),
            _ => Self::apply_player_effect(ctx, effect),
        }
    }

    /// Brings about a player effect other than one on every enemy (see `player_effect_done`).
    pub(crate) fn apply_player_effect(ctx: &mut CombatContext, effect: &PlayerEffect) -> (r: Result<(), StsError>)
        requires
            player_effect_fits(*old(ctx), *effect),
        ensures
            player_effect_done(*old(ctx), *final(ctx), *effect, r is Err),
            r matches Err(e) ==> e == StsError::Disconnected,
            tallied(old(ctx).comms, final(ctx).comms, r is Err),
    {
        match *effect {
            PlayerEffect::Apply(c) => PlayerConditionSystem::apply_to_player(ctx, &c),
            PlayerEffect::Draw(n) => {
                let mut k: u32 = 0;
                while k < n
                    invariant
                        k <= n,
                        *effect == PlayerEffect::Draw(n),
                        drew(*old(ctx), *ctx, k as nat),
                        tallied(old(ctx).comms, ctx.comms, false),
                        ctx.pcs.discard_pile@.len() <= 0x8000_0000,
                    decreases n - k,
                {
                    let ghost prev = *ctx;
                    assert(drew(*old(ctx), prev, k as nat));
                    let drawn = DrawSystem::draw_one_card(ctx);
                    if drawn.is_err() {
                        proof {
                            assert(drew(*old(ctx), prev, k as nat) && drew_one(prev, *ctx, true));
                        }
                        return drawn;
                    }
                    k = k + 1;
                    proof {
                        lemma_drew_one_more(*old(ctx), prev, *ctx, (k - 1) as nat);
                    }
                }
                Ok(())
            },
            PlayerEffect::Gain(resource) => {
                let defender = ctx.pcs.defender_status();
                let amount = match resource {
                    Resource::Block(b) => DamageCalculator::calculate_block_gained(&defender, b),
                    _ => 0,
                };
                BlockSystem::gain_block(ctx, amount)
            },
            PlayerEffect::ToAllEnemies(_) => Ok(()),
            PlayerEffect::ToRandomEnemy(t) => {
                let ghost start = *ctx;
                let i = Self::pick_random_enemy(ctx);
                proof {
                    assert(target_effect_fits(start, i, t));
                }
                ctx.maybe_enemy_index = Some(i);
                Self::to_target_effect(ctx, i, &t);
                Ok(())
            },
            PlayerEffect::ToSingleTarget(t) => {
                let i = match ctx.maybe_enemy_index {
                    Some(i) => i,
                    None => return Ok(()),
                };
                Self::to_target_effect(ctx, i, &t);
                Ok(())
            },
        }
    }

    /// Picks one of the living enemies with the misc generator.
    fn pick_random_enemy(ctx: &mut CombatContext) -> (r: usize)
        requires
            living_enemies(old(ctx).enemy_party.0@).len() > 0,
        ensures
            ({
                let living = living_enemies(old(ctx).enemy_party.0@);
                let (misc, k) = range_draw(old(ctx).misc_rng@, 0, living.len() as u64);
                &&& r == living[k as int]
                &&& final(ctx).misc_rng@ == misc
            }),
            r < old(ctx).enemy_party.0@.len(),
            old(ctx).enemy_party.0@[r as int] is Some,
            *final(ctx) == (CombatContext { misc_rng: final(ctx).misc_rng, ..*old(ctx) }),
    {
        let mut living: Vec<usize> = Vec::new();
        let mut i: usize = 0;
        while i < ctx.enemy_party.0.len()
            invariant
                i <= ctx.enemy_party.0@.len(),
                living@ == living_enemies(ctx.enemy_party.0@.subrange(0, i as int)),
            decreases ctx.enemy_party.0@.len() - i,
        {
            proof {
                let pre = ctx.enemy_party.0@.subrange(0, i as int + 1);
                assert(pre.drop_last() == ctx.enemy_party.0@.subrange(0, i as int));
            }
            if ctx.enemy_party.0[i].is_some() {
                living.push(i);
            }
            i = i + 1;
        }
        proof {
            assert(ctx.enemy_party.0@.subrange(0, ctx.enemy_party.0@.len() as int) == ctx.enemy_party.0@);
            lemma_living_enemies(ctx.enemy_party.0@);
        }
        let k = ctx.misc_rng.gen_range(0, living.len() as u64);
        let r = living[k as usize];
        proof {
            assert(living@[k as int] == r);
        }
        r
    }

    /// The player as an attacker (see `player_as_attacker`).
    fn attacker_status(ctx: &CombatContext) -> (r: AttackerStatus)
        ensures
            r == player_as_attacker(ctx.pcs, ctx.pps),
    {
        let mut is_weak = false;
        let mut i: usize = 0;
        while i < ctx.pcs.conditions.len()
            invariant
                i <= ctx.pcs.conditions@.len(),
                is_weak == exists|k: int| 0 <= k < i && ctx.pcs.conditions@[k] is Weak,
            decreases ctx.pcs.conditions@.len() - i,
        {
            if let PlayerCondition::Weak(_) = ctx.pcs.conditions[i] {
                is_weak = true;
            }
            i = i + 1;
        }
        let mut strikes: usize = 0;
        let mut j: usize = 0;
        while j < ctx.pps.deck.len()
            invariant
                j <= ctx.pps.deck@.len(),
                strikes == strike_count(ctx.pps.deck@.subrange(0, j as int)),
                strikes <= j,
            decreases ctx.pps.deck@.len() - j,
        {
            proof {
                let pre = ctx.pps.deck@.subrange(0, j as int + 1);
                assert(pre.drop_last() == ctx.pps.deck@.subrange(0, j as int));
            }
            let strike = match ctx.pps.deck[j] {
                Card::MeteorStrike | Card::PerfectedStrike | Card::PommelStrike | Card::SneakyStrike | Card::Strike
                | Card::StrikeB | Card::StrikeG | Card::StrikeP | Card::SwiftStrike | Card::ThunderStrike
                | Card::TwinStrike | Card::WildStrike | Card::WindmillStrike => true,
                _ => false,
            };
            if strike {
                strikes = strikes + 1;
            }
            j = j + 1;
        }
        proof {
            assert(ctx.pps.deck@.subrange(0, ctx.pps.deck@.len() as int) == ctx.pps.deck@);
        }
        AttackerStatus {
            block: ctx.pcs.block,
            draw_pile_size: ctx.pcs.draw_pile.len(),
            hand_size: ctx.pcs.hand.len(),
            is_weak,
            number_of_strike_cards_owned: strikes,
            strength: ctx.pcs.strength,
        }
    }

    /// Brings about `effect` on the enemy in slot `i`, if there is one there.
    pub(crate) fn to_target_effect(ctx: &mut CombatContext, i: usize, effect: &TargetEffect)
        requires
            target_effect_fits(*old(ctx), i, *effect),
        ensures
            target_effect_done(*old(ctx), *final(ctx), i, *effect),
            final(ctx).maybe_enemy_index == old(ctx).maybe_enemy_index,
            final(ctx).misc_rng == old(ctx).misc_rng,
    {
        if i >= ctx.enemy_party.0.len() || ctx.enemy_party.0[i].is_none() {
            return;
        }
        let attacker = Self::attacker_status(ctx);
        let slot = ctx.enemy_party.0.remove(i);
        let mut enemy = slot.unwrap();
        match *effect {
            TargetEffect::Deal(d) => {
                let defender = enemy.defender_status();
                let damage = DamageCalculator::calculate_damage_inflicted(&attacker, Some(&defender), &d);
                BlockSystem::damage_enemy(&mut enemy, damage, &mut ctx.effect_queue);
            },
            TargetEffect::Inflict(c) => EnemyConditionSystem::apply_to_enemy(&mut enemy, &c),
        }
        ctx.enemy_party.0.insert(i, Some(enemy));
        proof {
            assert(ctx.enemy_party.0@ =~= old(ctx).enemy_party.0@.update(i as int, ctx.enemy_party.0@[i as int]));
        }
    }
}

} // verus!
