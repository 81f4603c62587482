use vstd::prelude::*;

use crate::components::{Effect, PlayerEffect, TargetEffect};
use crate::player::comms::tallied;
use crate::player::message::{StsError, StsMessage};
use crate::systems::base::combat_context::{all_enemies_gone, CombatContext};

use super::enemy_condition_system::{death_reactions, EnemyConditionSystem};
use super::enemy_effect_system::{enemy_effect_done, enemy_effect_fits, EnemyEffectSystem};
use super::player_effect_system::{
    enemy_at, player_effect_done, player_effect_fits, target_effect_done, target_effect_fits, PlayerEffectSystem,
};

verus! {

/// Resolving effects, whoever brings them about, and the effect queue.
///
/// Resolving an effect may queue more (drawing under Evolve queues drawing, Fire Breathing
/// queues damage to every enemy, dying enemies queue their reactions), and nothing bounds how
/// often that happens; so resolution runs on a budget of `EFFECT_BUDGET` effects per queue (a
/// queue resolved from within an effect gets one less), and stops when it is spent.
pub struct EffectSystem;

/// How many effects one resolution of the queue takes at most.
pub const EFFECT_BUDGET: u64 = 0xffff_ffff_ffff_ffff;

/// What an effect other than one on every enemy needs (see `enemy_effect_fits` and
/// `player_effect_fits`), with the acting slot, if any, naming a slot of the party.
pub open spec fn effect_fits(ctx: CombatContext, effect: Effect) -> bool {
    &&& ctx.maybe_enemy_index matches Some(i) ==> i < ctx.enemy_party.0@.len()
    &&& match effect {
        Effect::EnemyState(e) => enemy_effect_fits(ctx, e),
        Effect::PlayerState(p) => player_effect_fits(ctx, p),
    }
}

/// Whether the combat is over: the player has no hit points left, or no enemy is left.
pub open spec fn combat_over(ctx: CombatContext) -> bool {
    ctx.pps.hp == 0 || all_enemies_gone(ctx.enemy_party.0@)
}

/// Ties the intermediate states of a step together (always true); it names them for the
/// quantifiers of the relations below.
pub open spec fn between(a: CombatContext, b: CombatContext, f: bool) -> bool {
    true
}

/// `after` is `before` with the first effect taken off the queue.
pub open spec fn popped(before: CombatContext, after: CombatContext) -> bool {
    &&& after.effect_queue@ == before.effect_queue@.drop_first()
    &&& after.comms == before.comms
    &&& after.pps == before.pps
    &&& after.pcs == before.pcs
    &&& after.enemy_party == before.enemy_party
    &&& after.maybe_enemy_index == before.maybe_enemy_index
    &&& after.misc_rng == before.misc_rng
    &&& after.enemy_rng == before.enemy_rng
    &&& after.shuffle_rng == before.shuffle_rng
    &&& after.card_randomizer_rng == before.card_randomizer_rng
}

/// The first part of an effect on every enemy, at slot `i`: a living enemy there becomes the
/// one acted on and takes the effect (see `target_effect_done`); an empty slot changes nothing.
pub open spec fn enemy_slot_hit(before: CombatContext, after: CombatContext, t: TargetEffect, i: nat) -> bool {
    if enemy_at(before, i as usize) is Some {
        &&& after.maybe_enemy_index == Some(i as usize)
        &&& after.misc_rng == before.misc_rng
        &&& target_effect_done(before, after, i as usize, t)
    } else {
        after == before
    }
}

/// `after` is `before` once the queue was resolved with `fuel` for the queues resolved within
/// and at most `left` effects: while effects wait and the budget lasts, the first is taken off
/// and resolved (see `effect_resolved`); resolution stops at a failed message or when the
/// combat is over.
pub open spec fn queue_run(before: CombatContext, after: CombatContext, fuel: nat, left: nat, failed: bool) -> bool
    decreases fuel, left + 4, 0nat,
{
    if left == 0 || fuel == 0 || before.effect_queue@.len() == 0 {
        after == before && !failed
    } else {
        exists|m0: CombatContext, m1: CombatContext, f1: bool|
            #[trigger] between(m0, m1, f1)
            && effect_resolved(m0, m1, before.effect_queue@[0], f1, (fuel - 1) as nat)
            && popped(before, m0)
            && (f1 ==> after == m1 && failed)
            && (!f1 ==> if combat_over(m1) { after == m1 && !failed } else { queue_run(m1, after, fuel, (left - 1) as nat, failed) })
    }
}

/// `after` is `before` once `effect` was resolved: brought about (see `effect_step`), then,
/// when that went through, the enemy acted on removed if it died (see `death_checked`).
pub open spec fn effect_resolved(before: CombatContext, after: CombatContext, effect: Effect, failed: bool, fuel: nat) -> bool
    decreases fuel + 1, 3nat, 0nat,
{
    ||| failed && effect_step(before, after, effect, true, fuel)
    ||| exists|mid: CombatContext| effect_step(before, mid, effect, false, fuel) && #[trigger] death_checked(mid, after, failed)
}

/// `after` is `before` once `effect` was brought about (see `enemy_effect_done`,
/// `player_effect_done` and `all_enemies_done`).
pub open spec fn effect_step(before: CombatContext, after: CombatContext, effect: Effect, failed: bool, fuel: nat) -> bool
    decreases fuel + 1, 2nat, 0nat,
{
    match effect {
        Effect::EnemyState(e) => enemy_effect_done(before, after, e, failed),
        Effect::PlayerState(PlayerEffect::ToAllEnemies(t)) => all_enemies_done(before, after, t, 0, before.enemy_party.0@.len(), failed, fuel),
        Effect::PlayerState(p) => player_effect_done(before, after, p, failed),
    }
}

/// `after` is `before` once an effect on every enemy went through the slots from `i` to `n`:
/// at each, the enemy there takes it (see `enemy_slot_hit`), then the queue is resolved (see
/// `queue_run`); a failed message stops it.
pub open spec fn all_enemies_done(before: CombatContext, after: CombatContext, t: TargetEffect, i: nat, n: nat, failed: bool, fuel: nat) -> bool
    decreases fuel + 1, 1nat, n - i,
{
    if i >= n {
        after == before && !failed
    } else {
        exists|m1: CombatContext, m2: CombatContext, f2: bool|
            #[trigger] between(m1, m2, f2)
            && queue_run(m1, m2, fuel, fuel, f2)
            && enemy_slot_hit(before, m1, t, i)
            && (f2 ==> after == m2 && failed)
            && (!f2 ==> all_enemies_done(m2, after, t, i + 1, n, failed, fuel))
    }
}

/// What resolving the queue needs: every effect met along the way, whatever the client does,
/// fits (see `effect_safe`).
pub open spec fn queue_safe(ctx: CombatContext, fuel: nat, left: nat) -> bool
    decreases fuel, left + 4, 0nat,
{
    if left == 0 || fuel == 0 || ctx.effect_queue@.len() == 0 {
        true
    } else {
        forall|m0: CombatContext| #[trigger] popped(ctx, m0) ==> {
            &&& effect_safe(m0, ctx.effect_queue@[0], (fuel - 1) as nat)
            &&& forall|m1: CombatContext| #[trigger] effect_resolved(m0, m1, ctx.effect_queue@[0], false, (fuel - 1) as nat)
                && !combat_over(m1) ==> queue_safe(m1, fuel, (left - 1) as nat)
        }
    }
}

/// What resolving `effect` needs: it fits (see `effect_fits`), or, for an effect on every
/// enemy, the acting slot names a slot of the party and each step fits (see
/// `all_enemies_safe`).
pub open spec fn effect_safe(ctx: CombatContext, effect: Effect, fuel: nat) -> bool
    decreases fuel + 1, 2nat, 0nat,
{
    match effect {
        Effect::PlayerState(PlayerEffect::ToAllEnemies(t)) => {
            &&& ctx.maybe_enemy_index matches Some(i) ==> i < ctx.enemy_party.0@.len()
            &&& all_enemies_safe(ctx, t, 0, ctx.enemy_party.0@.len(), fuel)
        },
        _ => effect_fits(ctx, effect),
    }
}

/// What an effect on every enemy needs from slot `i` on: the effect fits the enemy there, and
/// the queues resolved after each enemy, whatever the client does, are safe.
pub open spec fn all_enemies_safe(ctx: CombatContext, t: TargetEffect, i: nat, n: nat, fuel: nat) -> bool
    decreases fuel + 1, 1nat, n - i,
{
    i >= n || {
        &&& target_effect_fits(ctx, i as usize, t)
        &&& i < ctx.enemy_party.0@.len()
        &&& forall|m1: CombatContext| #[trigger] enemy_slot_hit(ctx, m1, t, i) ==> {
            &&& queue_safe(m1, fuel, fuel)
            &&& forall|m2: CombatContext| #[trigger] queue_run(m1, m2, fuel, fuel, false) ==> all_enemies_safe(m2, t, i + 1, n, fuel)
        }
    }
}

/// `after` is `before` once the enemy acted on was looked at: a dead one has its conditions
/// react to its death (see `death_reactions`), the client is told, and its slot is emptied;
/// otherwise nothing happens. `failed` tells whether the message could not be sent, which
/// leaves the enemy in its slot.
pub open spec fn death_checked(before: CombatContext, after: CombatContext, failed: bool) -> bool {
    match before.maybe_enemy_index {
        Some(i) => match enemy_at(before, i) {
            Some(e) => if e.hp == 0 {
                &&& after.effect_queue@ == death_reactions(e.conditions@, before.effect_queue@)
                &&& after.comms.sent() == before.comms.sent().push(StsMessage::EnemyDied(i, e.enemy))
                &&& tallied(before.comms, after.comms, failed)
                &&& !failed ==> after.enemy_party.0@ == before.enemy_party.0@.update(i as int, None)
                &&& failed ==> after.enemy_party.0@ == before.enemy_party.0@
                &&& after.pps == before.pps
                &&& after.pcs == before.pcs
                &&& after.maybe_enemy_index == before.maybe_enemy_index
                &&& after.misc_rng == before.misc_rng
                &&& after.enemy_rng == before.enemy_rng
                &&& after.shuffle_rng == before.shuffle_rng
                &&& after.card_randomizer_rng == before.card_randomizer_rng
            } else {
                after == before && !failed
            },
            None => after == before && !failed,
        },
        None => after == before && !failed,
    }
}

/// One step of an effect on every enemy.
proof fn lemma_all_enemies_step(
    before: CombatContext, after: CombatContext, t: TargetEffect, i: nat, n: nat, failed: bool, fuel: nat,
    m1: CombatContext, m2: CombatContext, f2: bool,
)
    requires
        i < n,
        queue_run(m1, m2, fuel, fuel, f2),
        enemy_slot_hit(before, m1, t, i),
        f2 ==> after == m2 && failed,
        !f2 ==> all_enemies_done(m2, after, t, i + 1, n, failed, fuel),
    ensures
        all_enemies_done(before, after, t, i, n, failed, fuel),
{
    assert(between(m1, m2, f2));
}

/// One step of resolving the queue.
proof fn lemma_queue_step(
    before: CombatContext, after: CombatContext, fuel: nat, left: nat, failed: bool,
    m0: CombatContext, m1: CombatContext, f1: bool,
)
    requires
        left > 0,
        fuel > 0,
        before.effect_queue@.len() > 0,
        effect_resolved(m0, m1, before.effect_queue@[0], f1, (fuel - 1) as nat),
        popped(before, m0),
        f1 ==> after == m1 && failed,
        !f1 ==> if combat_over(m1) { after == m1 && !failed } else { queue_run(m1, after, fuel, (left - 1) as nat, failed) },
    ensures
        queue_run(before, after, fuel, left, failed),
{
    assert(between(m0, m1, f1));
}

/// Resolving an effect, spelt out.
proof fn lemma_effect_resolved(before: CombatContext, mid: CombatContext, after: CombatContext, effect: Effect, failed: bool, fuel: nat)
    requires
        effect_step(before, mid, effect, false, fuel),
        death_checked(mid, after, failed),
    ensures
        effect_resolved(before, after, effect, failed, fuel),
{
    assert(death_checked(mid, after, failed));
}

impl EffectSystem {
    /// Resolves the effect queue (see `queue_run`), within `EFFECT_BUDGET` effects.
    pub fn process_effect_queue(ctx: &mut CombatContext) -> (r: Result<(), StsError>)
        requires
            queue_safe(*old(ctx), EFFECT_BUDGET as nat, EFFECT_BUDGET as nat),
        ensures
            queue_run(*old(ctx), *final(ctx), EFFECT_BUDGET as nat, EFFECT_BUDGET as nat, r is Err),
            tallied(old(ctx).comms, final(ctx).comms, r is Err),
            r matches Err(e) ==> e == StsError::Disconnected,
    {
        Self::resolve_queue(ctx, EFFECT_BUDGET)
    }

    /// Brings about one effect, then, when that went through, removes the enemy acted on if it
    /// died (see `effect_resolved`).
    pub fn process_effect(ctx: &mut CombatContext, effect: Effect) -> (r: Result<(), StsError>)
        requires
            effect_safe(*old(ctx), effect, EFFECT_BUDGET as nat),
        ensures
            effect_resolved(*old(ctx), *final(ctx), effect, r is Err, EFFECT_BUDGET as nat),
            tallied(old(ctx).comms, final(ctx).comms, r is Err),
            r matches Err(e) ==> e == StsError::Disconnected,
    {
        Self::resolve_effect(ctx, effect, EFFECT_BUDGET)
    }

    /// Resolves the queue with `fuel` (see `queue_run`).
    fn resolve_queue(ctx: &mut CombatContext, fuel: u64) -> (r: Result<(), StsError>)
        requires
            queue_safe(*old(ctx), fuel as nat, fuel as nat),
        ensures
            queue_run(*old(ctx), *final(ctx), fuel as nat, fuel as nat, r is Err),
            tallied(old(ctx).comms, final(ctx).comms, r is Err),
            r matches Err(e) ==> e == StsError::Disconnected,
        decreases fuel, 2nat,
    {
        let mut left: u64 = fuel;
        loop
            invariant
                left <= fuel,
                tallied(old(ctx).comms, ctx.comms, false),
                queue_safe(*ctx, fuel as nat, left as nat),
                forall|a: CombatContext, f: bool| #[trigger] queue_run(*ctx, a, fuel as nat, left as nat, f)
                    ==> queue_run(*old(ctx), a, fuel as nat, fuel as nat, f),
            decreases left,
        {
            let ghost b = *ctx;
            if left == 0 || fuel == 0 || ctx.effect_queue.len() == 0 {
                proof {
                    assert(queue_run(b, b, fuel as nat, left as nat, false));
                }
                return Ok(());
            }
            let popped_effect = ctx.effect_queue.pop_front();
            let effect = match popped_effect {
                Some(e) => e,
                None => {
                    proof {
                        assert(queue_run(b, b, fuel as nat, left as nat, false));
                    }
                    return Ok(());
                },
            };
            let ghost m0 = *ctx;
            proof {
                assert(popped(b, m0));
                assert(effect == b.effect_queue@[0]);
            }
            let r = Self::resolve_effect(ctx, effect, fuel - 1);
            let ghost m1 = *ctx;
            if r.is_err() {
                proof {
                    assert(effect_resolved(m0, m1, b.effect_queue@[0], true, (fuel as nat - 1) as nat));
                    lemma_queue_step(b, m1, fuel as nat, left as nat, true, m0, m1, true);
                }
                return r;
            }
            if ctx.combat_should_end() {
                proof {
                    assert(effect_resolved(m0, m1, b.effect_queue@[0], false, (fuel as nat - 1) as nat));
                    lemma_queue_step(b, m1, fuel as nat, left as nat, false, m0, m1, false);
                }
                return Ok(());
            }
            proof {
                assert(effect_resolved(m0, m1, b.effect_queue@[0], false, (fuel as nat - 1) as nat));
                assert(queue_safe(m1, fuel as nat, (left - 1) as nat));
                assert forall|a: CombatContext, f: bool| #[trigger] queue_run(m1, a, fuel as nat, (left - 1) as nat, f)
                    implies queue_run(*old(ctx), a, fuel as nat, fuel as nat, f) by {
                    lemma_queue_step(b, a, fuel as nat, left as nat, f, m0, m1, false);
                }
            }
            left = left - 1;
        }
    }

    /// Resolves one effect with `fuel` for the queues within (see `effect_resolved`).
    fn resolve_effect(ctx: &mut CombatContext, effect: Effect, fuel: u64) -> (r: Result<(), StsError>)
        requires
            effect_safe(*old(ctx), effect, fuel as nat),
        ensures
            effect_resolved(*old(ctx), *final(ctx), effect, r is Err, fuel as nat),
            tallied(old(ctx).comms, final(ctx).comms, r is Err),
            r matches Err(e) ==> e == StsError::Disconnected,
        decreases fuel + 1, 1nat,
    {
        let done = match effect {
            Effect::EnemyState(e) => EnemyEffectSystem::process_enemy_effect(ctx, &e),
            Effect::PlayerState(PlayerEffect::ToAllEnemies(t)) => Self::to_all_enemies(ctx, &t, fuel),
            Effect::PlayerState(p) => PlayerEffectSystem::apply_player_effect(ctx, &p),
        };
        if done.is_err() {
            proof {
                assert(effect_step(*old(ctx), *ctx, effect, true, fuel as nat));
                reveal_with_fuel(effect_resolved, 2);
            }
            return done;
        }
        let ghost mid = *ctx;
        let r = Self::remove_if_dead(ctx);
        proof {
            assert(effect_step(*old(ctx), mid, effect, false, fuel as nat));
            assert(death_checked(mid, *ctx, r is Err));
            lemma_effect_resolved(*old(ctx), mid, *ctx, effect, r is Err, fuel as nat);
        }
        r
    }

    /// Brings an effect on every enemy about: slot by slot, the enemy there takes it and the
    /// queue is resolved with `fuel` (see `all_enemies_done`).
    pub(crate) fn to_all_enemies(ctx: &mut CombatContext, t: &TargetEffect, fuel: u64) -> (r: Result<(), StsError>)
        requires
            all_enemies_safe(*old(ctx), *t, 0, old(ctx).enemy_party.0@.len(), fuel as nat),
        ensures
            all_enemies_done(*old(ctx), *final(ctx), *t, 0, old(ctx).enemy_party.0@.len(), r is Err, fuel as nat),
            tallied(old(ctx).comms, final(ctx).comms, r is Err),
            r matches Err(e) ==> e == StsError::Disconnected,
        decreases fuel + 1, 0nat,
    {
        let n = ctx.enemy_party.0.len();
        let mut i: usize = 0;
        while i < n
            invariant
                i <= n,
                n == old(ctx).enemy_party.0@.len(),
                tallied(old(ctx).comms, ctx.comms, false),
                all_enemies_safe(*ctx, *t, i as nat, n as nat, fuel as nat),
                forall|a: CombatContext, f: bool| #[trigger] all_enemies_done(*ctx, a, *t, i as nat, n as nat, f, fuel as nat)
                    ==> all_enemies_done(*old(ctx), a, *t, 0, n as nat, f, fuel as nat),
            decreases n - i,
        {
            let ghost b = *ctx;
            if ctx.enemy_party.0[i].is_some() {
                ctx.maybe_enemy_index = Some(i);
                PlayerEffectSystem::to_target_effect(ctx, i, t);
            }
            let ghost m1 = *ctx;
            proof {
                assert(enemy_slot_hit(b, m1, *t, i as nat));
                assert(queue_safe(m1, fuel as nat, fuel as nat));
            }
            let r = Self::resolve_queue(ctx, fuel);
            let ghost m2 = *ctx;
            if r.is_err() {
                proof {
                    assert(queue_run(m1, m2, fuel as nat, fuel as nat, true));
                    lemma_all_enemies_step(b, m2, *t, i as nat, n as nat, true, fuel as nat, m1, m2, true);
                }
                return r;
            }
            proof {
                assert(queue_run(m1, m2, fuel as nat, fuel as nat, false));
                assert(all_enemies_safe(m2, *t, (i + 1) as nat, n as nat, fuel as nat));
                assert forall|a: CombatContext, f: bool| #[trigger] all_enemies_done(m2, a, *t, (i + 1) as nat, n as nat, f, fuel as nat)
                    implies all_enemies_done(*old(ctx), a, *t, 0, n as nat, f, fuel as nat) by {
                    lemma_all_enemies_step(b, a, *t, i as nat, n as nat, f, fuel as nat, m1, m2, false);
                }
            }
            i = i + 1;
        }
        proof {
            assert(all_enemies_done(*ctx, *ctx, *t, n as nat, n as nat, false, fuel as nat));
        }
        Ok(())
    }

    /// Removes the enemy acted on if it died (see `death_checked`).
    fn remove_if_dead(ctx: &mut CombatContext) -> (r: Result<(), StsError>)
        ensures
            death_checked(*old(ctx), *final(ctx), r is Err),
            r matches Err(e) ==> e == StsError::Disconnected,
            tallied(old(ctx).comms, final(ctx).comms, r is Err),
    {
        let i = match ctx.maybe_enemy_index {
            Some(i) => i,
            None => return Ok(()),
        };
        if i >= ctx.enemy_party.0.len() {
            return Ok(());
        }
        let dead = match &ctx.enemy_party.0[i] {
            Some(e) => e.hp == 0,
            None => false,
        };
        if !dead {
            return Ok(());
        }
        let slot = ctx.enemy_party.0.remove(i);
        let mut enemy = slot.unwrap();
        EnemyConditionSystem::on_enemy_death(&mut enemy, &mut ctx.effect_queue);
        let kind = enemy.enemy;
        ctx.enemy_party.0.insert(i, Some(enemy));
        proof {
            assert(ctx.enemy_party.0@ =~= old(ctx).enemy_party.0@);
        }
        let sent = ctx.comms.send_enemy_died(i, kind);
        if sent.is_err() {
            return sent;
        }
        ctx.enemy_party.0.remove(i);
        ctx.enemy_party.0.insert(i, None);
        proof {
            assert(ctx.enemy_party.0@ =~= old(ctx).enemy_party.0@.update(i as int, None));
        }
        Ok(())
    }
}

} // verus!
