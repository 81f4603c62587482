use vstd::prelude::*;

use crate::components::{Effect, EffectQueue};
use crate::data::EnemyCondition;
use crate::systems::damage::damage_system::DamageTaken;
use crate::systems::enemy::enemy_state::EnemyState;
use crate::systems::enemy::enemy_system::conditions_ended;
use crate::types::Block;

use super::condition::{apply_fits, applied, merge_or_push, retain_started, after_start};
use super::condition_system::slot_after;
use super::enemy_condition::{damage_reaction, death_reaction};

verus! {

/// The enemies' conditions as their turn starts and ends, as they take damage and as they die.
pub struct EnemyConditionSystem;

/// The conditions' reactions to damage, in order: the conditions that stay, the enemy's
/// block, and the effect queue.
pub open spec fn damage_reactions(conditions: Seq<EnemyCondition>, block: Block, queue: Seq<Effect>, damage_taken: DamageTaken) -> (Seq<EnemyCondition>, Block, Seq<Effect>)
    decreases conditions.len(),
{
    if conditions.len() == 0 {
        (Seq::empty(), block, queue)
    } else {
        let (kept, b1, q1) = damage_reactions(conditions.drop_last(), block, queue, damage_taken);
        let (b2, q2, stays) = damage_reaction(conditions.last(), b1, q1, damage_taken);
        (if stays { kept.push(conditions.last()) } else { kept }, b2, q2)
    }
}

/// The effect queue after the conditions' reactions to the enemy's death, in order.
pub open spec fn death_reactions(conditions: Seq<EnemyCondition>, queue: Seq<Effect>) -> Seq<Effect>
    decreases conditions.len(),
{
    if conditions.len() == 0 {
        queue
    } else {
        death_reaction(conditions.last(), death_reactions(conditions.drop_last(), queue))
    }
}

/// An enemy slot after the end of the enemies' turn: the enemy's conditions ended (with its
/// strength), or the slot emptied when the enemy is dead.
pub open spec fn slot_after_end(before: Option<EnemyState>, after: Option<EnemyState>) -> bool {
    match before {
        Some(b) => if b.hp == 0 {
            after is None
        } else {
            let (conditions, strength, _) = conditions_ended(b.conditions@, b.strength);
            after matches Some(a) && a == (EnemyState { conditions: a.conditions, strength, ..b }) && a.conditions@ == conditions
        },
        None => after is None,
    }
}

/// Ends the enemies' turn for each of the enemy's conditions, in order, with its strength.
pub(crate) fn end_enemy_conditions(enemy: &mut EnemyState)
    requires
        conditions_ended(old(enemy).conditions@, old(enemy).strength).2,
    ensures
        final(enemy).conditions@ == conditions_ended(old(enemy).conditions@, old(enemy).strength).0,
        *final(enemy) == (EnemyState {
            conditions: final(enemy).conditions,
            strength: conditions_ended(old(enemy).conditions@, old(enemy).strength).1,
            ..*old(enemy)
        }),
{
    let ghost start = enemy.conditions@;
    let ghost s0 = enemy.strength;
    let mut kept: Vec<EnemyCondition> = Vec::new();
    let mut i: usize = 0;
    proof {
        lemma_conditions_ended_prefixes(start, s0);
    }
    while i < enemy.conditions.len()
        invariant
            i <= enemy.conditions@.len(),
            enemy.conditions@ == start,
            start == old(enemy).conditions@,
            s0 == old(enemy).strength,
            forall|k: int| 0 <= k <= start.len() ==> #[trigger] conditions_ended(start.subrange(0, k), s0).2,
            kept@ == conditions_ended(start.subrange(0, i as int), s0).0,
            enemy.strength == conditions_ended(start.subrange(0, i as int), s0).1,
            *enemy == (EnemyState { strength: enemy.strength, ..*old(enemy) }),
        decreases enemy.conditions@.len() - i,
    {
        let mut c = enemy.conditions[i];
        proof {
            let pre = start.subrange(0, i as int + 1);
            assert(pre.drop_last() == start.subrange(0, i as int));
            assert(pre.last() == c);
            assert(conditions_ended(pre, s0).2);
        }
        let mut strength = enemy.strength;
        let active = c.end_turn(&mut strength);
        enemy.strength = strength;
        if active {
            kept.push(c);
        }
        i = i + 1;
    }
    assert(start.subrange(0, start.len() as int) == start);
    enemy.conditions = kept;
}

/// When all the conditions fit, so does every prefix of them.
proof fn lemma_conditions_ended_prefixes(conditions: Seq<EnemyCondition>, strength: crate::types::Strength)
    requires
        conditions_ended(conditions, strength).2,
    ensures
        forall|k: int| 0 <= k <= conditions.len() ==> #[trigger] conditions_ended(conditions.subrange(0, k), strength).2,
    decreases conditions.len(),
{
    if conditions.len() > 0 {
        let shorter = conditions.drop_last();
        lemma_conditions_ended_prefixes(shorter, strength);
        assert forall|k: int| 0 <= k <= conditions.len() implies #[trigger] conditions_ended(conditions.subrange(0, k), strength).2 by {
            if k < conditions.len() {
                assert(conditions.subrange(0, k) == shorter.subrange(0, k));
            } else {
                assert(conditions.subrange(0, k) == conditions);
            }
        }
    }
}

impl EnemyConditionSystem {
    /// Starts the enemies' turn for their conditions; dead enemies leave their slots.
    pub fn on_enemies_turn_started(enemy_party: &mut Vec<Option<EnemyState>>)
        ensures
            final(enemy_party)@.len() == old(enemy_party)@.len(),
            forall|i: int| 0 <= i < old(enemy_party)@.len() ==> slot_after(#[trigger] old(enemy_party)@[i], final(enemy_party)@[i],
                |s: Seq<EnemyCondition>| after_start(s)),
    {
        super::condition_system::ConditionSystem::tick_down_at_start_of_enemies_turn(enemy_party);
    }

    /// Ends the enemies' turn for their conditions (Ritual grants strength, Vulnerable and Weak
    /// tick down); dead enemies leave their slots.
    pub fn on_enemies_turn_finished(enemy_party: &mut Vec<Option<EnemyState>>)
        requires
            forall|i: int| 0 <= i < old(enemy_party)@.len() ==> (#[trigger] old(enemy_party)@[i] matches Some(e)
                ==> conditions_ended(e.conditions@, e.strength).2),
        ensures
            final(enemy_party)@.len() == old(enemy_party)@.len(),
            forall|i: int| 0 <= i < old(enemy_party)@.len() ==> slot_after_end(#[trigger] old(enemy_party)@[i], final(enemy_party)@[i]),
    {
        let n = enemy_party.len();
        let mut i: usize = 0;
        while i < n
            invariant
                n == old(enemy_party)@.len(),
                enemy_party@.len() == n,
                i <= n,
                forall|k: int| 0 <= k < n ==> (#[trigger] old(enemy_party)@[k] matches Some(e)
                    ==> conditions_ended(e.conditions@, e.strength).2),
                forall|k: int| 0 <= k < i ==> slot_after_end(#[trigger] old(enemy_party)@[k], enemy_party@[k]),
                forall|k: int| i <= k < n ==> #[trigger] enemy_party@[k] == old(enemy_party)@[k],
            decreases n - i,
        {
            let slot = enemy_party.remove(i);
            let updated = match slot {
                Some(mut enemy) => {
                    let ghost b = enemy;
                    assert(old(enemy_party)@[i as int] == Some(b));
                    end_enemy_conditions(&mut enemy);
                    if enemy.is_dead() {
                        None
                    } else {
                        Some(enemy)
                    }
                },
                None => None,
            };
            enemy_party.insert(i, updated);
            i = i + 1;
        }
    }

    /// Applies a condition to an enemy, merging it into one of the same kind.
    pub fn apply_to_enemy(enemy: &mut EnemyState, condition: &EnemyCondition)
        requires
            apply_fits(old(enemy).conditions@, *condition),
        ensures
            final(enemy).conditions@ == applied(old(enemy).conditions@, *condition),
            *final(enemy) == (EnemyState { conditions: final(enemy).conditions, ..*old(enemy) }),
    {
        merge_or_push(&mut enemy.conditions, *condition);
    }

    /// The enemy's conditions react to the damage, in order (see `damage_reaction`).
    pub fn on_damage_taken(enemy: &mut EnemyState, damage_taken: &DamageTaken, effect_queue: &mut EffectQueue)
        ensures
            ({
                let (kept, block, queue) = damage_reactions(old(enemy).conditions@, old(enemy).block, old(effect_queue)@, *damage_taken);
                &&& final(enemy).conditions@ == kept
                &&& *final(enemy) == (EnemyState { conditions: final(enemy).conditions, block, ..*old(enemy) })
                &&& final(effect_queue)@ == queue
            }),
    {
        let ghost start = enemy.conditions@;
        let ghost b0 = enemy.block;
        let ghost q0 = effect_queue@;
        let mut kept: Vec<EnemyCondition> = Vec::new();
        let mut i: usize = 0;
        while i < enemy.conditions.len()
            invariant
                i <= enemy.conditions@.len(),
                enemy.conditions@ == start,
                start == old(enemy).conditions@,
                b0 == old(enemy).block,
                q0 == old(effect_queue)@,
                kept@ == damage_reactions(start.subrange(0, i as int), b0, q0, *damage_taken).0,
                enemy.block == damage_reactions(start.subrange(0, i as int), b0, q0, *damage_taken).1,
                effect_queue@ == damage_reactions(start.subrange(0, i as int), b0, q0, *damage_taken).2,
                *enemy == (EnemyState { block: enemy.block, ..*old(enemy) }),
            decreases enemy.conditions@.len() - i,
        {
            let mut c = enemy.conditions[i];
            proof {
                let pre = start.subrange(0, i as int + 1);
                assert(pre.drop_last() == start.subrange(0, i as int));
                assert(pre.last() == c);
            }
            let mut block = enemy.block;
            let stays = c.on_damage_taken(&mut block, damage_taken, effect_queue);
            enemy.block = block;
            if stays {
                kept.push(c);
            }
            i = i + 1;
        }
        assert(start.subrange(0, start.len() as int) == start);
        enemy.conditions = kept;
    }

    /// The enemy's conditions react to its death, in order (see `death_reaction`); they all stay.
    pub fn on_enemy_death(enemy: &mut EnemyState, effect_queue: &mut EffectQueue)
        ensures
            final(effect_queue)@ == death_reactions(old(enemy).conditions@, old(effect_queue)@),
            *final(enemy) == *old(enemy),
    {
        let ghost start = enemy.conditions@;
        let ghost q0 = effect_queue@;
        let mut i: usize = 0;
        while i < enemy.conditions.len()
            invariant
                i <= enemy.conditions@.len(),
                enemy.conditions@ == start,
                start == old(enemy).conditions@,
                q0 == old(effect_queue)@,
                effect_queue@ == death_reactions(start.subrange(0, i as int), q0),
                *enemy == *old(enemy),
            decreases enemy.conditions@.len() - i,
        {
            let mut c = enemy.conditions[i];
            proof {
                let pre = start.subrange(0, i as int + 1);
                assert(pre.drop_last() == start.subrange(0, i as int));
                assert(pre.last() == c);
            }
            let _ = c.on_death(effect_queue);
            i = i + 1;
        }
        assert(start.subrange(0, start.len() as int) == start);
    }
}


/// Curl Up triggers once: after the enemy's conditions react to damage, none of them is a Curl
/// Up, and every condition left was there before.
pub proof fn law_curl_up_triggers_once(conditions: Seq<EnemyCondition>, block: Block, queue: Seq<Effect>, damage_taken: DamageTaken)
    ensures
        forall|k: int| 0 <= k < damage_reactions(conditions, block, queue, damage_taken).0.len()
            ==> !(#[trigger] damage_reactions(conditions, block, queue, damage_taken).0[k] is CurlUp)
            && conditions.contains(damage_reactions(conditions, block, queue, damage_taken).0[k]),
    decreases conditions.len(),
{
    if conditions.len() > 0 {
        let rest = conditions.drop_last();
        law_curl_up_triggers_once(rest, block, queue, damage_taken);
        let (kept, b1, q1) = damage_reactions(rest, block, queue, damage_taken);
        assert forall|k: int| 0 <= k < kept.len() implies conditions.contains(#[trigger] kept[k]) by {
            let j = choose|j: int| 0 <= j < rest.len() && rest[j] == kept[k];
            assert(conditions[j] == rest[j]);
        }
        assert(conditions[conditions.len() - 1] == conditions.last());
    }
}

/// A single Curl Up grants its block once and leaves the enemy with no condition.
pub proof fn law_curl_up_grants_its_block(b: u32, block: Block, queue: Seq<Effect>, damage_taken: DamageTaken)
    ensures
        damage_reactions(seq![EnemyCondition::CurlUp(b)], block, queue, damage_taken)
            == (Seq::<EnemyCondition>::empty(), if block + b > u32::MAX { u32::MAX } else { (block + b) as u32 }, queue),
{
    let s = seq![EnemyCondition::CurlUp(b)];
    assert(s.drop_last() =~= Seq::<EnemyCondition>::empty());
    assert(s.last() == EnemyCondition::CurlUp(b));
    assert(damage_reactions(Seq::<EnemyCondition>::empty(), block, queue, damage_taken) == (Seq::<EnemyCondition>::empty(), block, queue));
    reveal_with_fuel(damage_reactions, 2);
}

} // verus!
