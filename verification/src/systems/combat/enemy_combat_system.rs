use vstd::prelude::*;

use crate::data::EnemyCondition;
use crate::rng::sts::RngState;
use crate::systems::base::combat_context::CombatContext;
use crate::systems::enemy::enemy_characteristics::following_action;
use crate::systems::enemy::enemy_state::EnemyState;
use crate::systems::enemy::enemy_system::{advance_enemy_action, conditions_ended, run_length_after};

use super::condition::after_start;
use super::condition_system::slot_after;
use super::enemy_condition_system::{end_enemy_conditions, EnemyConditionSystem};

verus! {

/// The enemies' side of a combat turn.
pub struct EnemyCombatSystem;

/// The state of the enemy generator after the enemies among the first `n` slots that are still
/// alive have chosen their next actions, in slot order.
pub open spec fn ai_after_living_advance(party: Seq<Option<EnemyState>>, ai: RngState, n: int) -> RngState
    decreases n,
{
    if n <= 0 {
        ai
    } else {
        let before = ai_after_living_advance(party, ai, n - 1);
        match party[n - 1] {
            Some(e) => if e.hp == 0 {
                before
            } else {
                following_action(e.characteristics, before, e.next_action, e.run_length).0
            },
            None => before,
        }
    }
}

/// A slot at the start of the enemies' turn: a dead enemy leaves; a living one has its
/// conditions started and its block back to zero.
pub open spec fn slot_started(before: Option<EnemyState>, after: Option<EnemyState>) -> bool {
    match before {
        Some(b) => if b.hp == 0 {
            after is None
        } else {
            after matches Some(a) && a == (EnemyState { conditions: a.conditions, block: 0, ..b })
                && a.conditions@ == after_start(b.conditions@)
        },
        None => after is None,
    }
}

/// A slot at the end of the enemies' turn, the generator being at `ai` when its turn to choose
/// comes: a dead enemy leaves; a living one has its conditions ended (with its strength) and
/// chooses its next action.
pub open spec fn slot_finished(before: Option<EnemyState>, after: Option<EnemyState>, ai: RngState) -> bool {
    match before {
        Some(b) => if b.hp == 0 {
            after is None
        } else {
            let (conditions, strength, _) = conditions_ended(b.conditions@, b.strength);
            let next = following_action(b.characteristics, ai, b.next_action, b.run_length).1;
            after matches Some(a) && a == (EnemyState {
                conditions: a.conditions,
                strength,
                next_action: next,
                run_length: run_length_after(b.next_action, next, b.run_length),
                ..b
            }) && a.conditions@ == conditions
        },
        None => after is None,
    }
}

impl EnemyCombatSystem {
    /// The enemies' turn starts: dead enemies leave, the conditions of the others start the
    /// turn, and their block goes back to zero.
    pub fn on_enemies_turn_started(ctx: &mut CombatContext)
        ensures
            final(ctx).enemy_party.0@.len() == old(ctx).enemy_party.0@.len(),
            forall|i: int| 0 <= i < old(ctx).enemy_party.0@.len() ==> slot_started(
                #[trigger] old(ctx).enemy_party.0@[i],
                final(ctx).enemy_party.0@[i],
            ),
            final(ctx).pcs == old(ctx).pcs,
            final(ctx).pps == old(ctx).pps,
            final(ctx).enemy_rng == old(ctx).enemy_rng,
    {
        let ghost start = ctx.enemy_party.0@;
        EnemyConditionSystem::on_enemies_turn_started(&mut ctx.enemy_party.0);
        let ghost mid = ctx.enemy_party.0@;
        let n = ctx.enemy_party.0.len();
        let mut i: usize = 0;
        while i < n
            invariant
                n == start.len(),
                mid.len() == n,
                ctx.enemy_party.0@.len() == n,
                i <= n,
                forall|k: int| 0 <= k < n ==> slot_after(#[trigger] start[k], mid[k], |s: Seq<EnemyCondition>| after_start(s)),
                forall|k: int| 0 <= k < i ==> slot_started(#[trigger] start[k], ctx.enemy_party.0@[k]),
                forall|k: int| i <= k < n ==> #[trigger] ctx.enemy_party.0@[k] == mid[k],
                ctx.pcs == old(ctx).pcs,
                ctx.pps == old(ctx).pps,
                ctx.enemy_rng == old(ctx).enemy_rng,
            decreases n - i,
        {
            let slot = ctx.enemy_party.0.remove(i);
            let updated = match slot {
                Some(enemy) => Some(EnemyState { block: 0, ..enemy }),
                None => None,
            };
            ctx.enemy_party.0.insert(i, updated);
            proof {
                assert(slot_after(start[i as int], mid[i as int], |s: Seq<EnemyCondition>| after_start(s)));
            }
            i = i + 1;
        }
    }

    /// The enemies' turn ends: dead enemies leave; each of the others has its conditions ended
    /// (Ritual grants strength, Vulnerable and Weak tick down) and chooses its next action from
    /// the enemy generator, in slot order.
    pub fn on_enemies_turn_finished(ctx: &mut CombatContext)
        requires
            forall|i: int| 0 <= i < old(ctx).enemy_party.0@.len() ==> (#[trigger] old(ctx).enemy_party.0@[i] matches Some(e)
                ==> conditions_ended(e.conditions@, e.strength).2),
        ensures
            final(ctx).enemy_party.0@.len() == old(ctx).enemy_party.0@.len(),
            forall|i: int| 0 <= i < old(ctx).enemy_party.0@.len() ==> slot_finished(
                #[trigger] old(ctx).enemy_party.0@[i],
                final(ctx).enemy_party.0@[i],
                ai_after_living_advance(old(ctx).enemy_party.0@, old(ctx).enemy_rng@, i),
            ),
            final(ctx).enemy_rng@ == ai_after_living_advance(
                old(ctx).enemy_party.0@,
                old(ctx).enemy_rng@,
                old(ctx).enemy_party.0@.len() as int,
            ),
            final(ctx).pcs == old(ctx).pcs,
            final(ctx).pps == old(ctx).pps,
    {
        let ghost start = ctx.enemy_party.0@;
        let ghost ai = ctx.enemy_rng@;
        let n = ctx.enemy_party.0.len();
        let mut i: usize = 0;
        while i < n
            invariant
                n == start.len(),
                ctx.enemy_party.0@.len() == n,
                i <= n,
                forall|k: int| 0 <= k < n ==> (#[trigger] start[k] matches Some(e) ==> conditions_ended(e.conditions@, e.strength).2),
                forall|k: int| 0 <= k < i ==> slot_finished(#[trigger] start[k], ctx.enemy_party.0@[k], ai_after_living_advance(start, ai, k)),
                forall|k: int| i <= k < n ==> #[trigger] ctx.enemy_party.0@[k] == start[k],
                ctx.enemy_rng@ == ai_after_living_advance(start, ai, i as int),
                ctx.pcs == old(ctx).pcs,
                ctx.pps == old(ctx).pps,
            decreases n - i,
        {
            let slot = ctx.enemy_party.0.remove(i);
            let updated = match slot {
                Some(mut enemy) => {
                    let ghost b = enemy;
                    assert(start[i as int] == Some(b));
                    if enemy.is_dead() {
                        None
                    } else {
                        end_enemy_conditions(&mut enemy);
                        advance_enemy_action(&mut enemy, &mut ctx.enemy_rng);
                        Some(enemy)
                    }
                },
                None => None,
            };
            ctx.enemy_party.0.insert(i, updated);
            i = i + 1;
        }
    }
}

} // verus!
