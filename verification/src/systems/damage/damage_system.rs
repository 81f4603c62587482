use vstd::prelude::*;

use crate::player::state::spec_saturating_sub;
use crate::systems::combat::damage_calculator::CalculatedDamage;
use crate::types::{Block, Hp};

verus! {

/// How damage landed: how much was blocked, how many hit points were lost, and whether it was
/// an attack (which provokes thorns).
#[derive(Clone, Copy, Debug, PartialEq, Eq, Structural)]
pub struct DamageTaken {
    pub blocked: Block,
    pub hp_lost: Hp,
    pub provokes_thorns: bool,
}

/// Applying damage to hit points and block.
pub struct DamageSystem;

/// How `damage` lands on a combatant with `block`: blockable damage is blocked as far as the
/// block goes and the rest is lost in hit points; loss of hit points ignores block.
pub open spec fn damage_taken(block: Block, damage: CalculatedDamage) -> DamageTaken {
    match damage {
        CalculatedDamage::Blockable(amount) => {
            let blocked = if block <= amount { block } else { amount };
            DamageTaken { blocked, hp_lost: (amount - blocked) as u32, provokes_thorns: true }
        },
        CalculatedDamage::BlockableNonAttack(amount) => {
            let blocked = if block <= amount { block } else { amount };
            DamageTaken { blocked, hp_lost: (amount - blocked) as u32, provokes_thorns: false }
        },
        CalculatedDamage::HpLoss(amount) => DamageTaken { blocked: 0, hp_lost: amount, provokes_thorns: false },
    }
}

/// Works out how damage lands on `block`.
pub fn calculate_damage_taken(block: Block, damage: CalculatedDamage) -> (r: DamageTaken)
    ensures
        r == damage_taken(block, damage),
{
    match damage {
        CalculatedDamage::Blockable(amount) => {
            let blocked = if block <= amount { block } else { amount };
            DamageTaken { blocked, hp_lost: amount - blocked, provokes_thorns: true }
        },
        CalculatedDamage::BlockableNonAttack(amount) => {
            let blocked = if block <= amount { block } else { amount };
            DamageTaken { blocked, hp_lost: amount - blocked, provokes_thorns: false }
        },
        CalculatedDamage::HpLoss(amount) => DamageTaken { blocked: 0, hp_lost: amount, provokes_thorns: false },
    }
}

impl DamageSystem {
    /// Applies `damage` to a combatant: block absorbs what it can, hit points take the rest.
    pub fn take_damage(hp: &mut Hp, block: &mut Block, damage: CalculatedDamage) -> (r: DamageTaken)
        ensures
            r == damage_taken(*old(block), damage),
            *final(block) == (*old(block) - r.blocked) as u32,
            *final(hp) == spec_saturating_sub(*old(hp), r.hp_lost),
    {
        let taken = calculate_damage_taken(*block, damage);
        *block = *block - taken.blocked;
        *hp = hp.saturating_sub(taken.hp_lost);
        taken
    }
}

/// Blocked damage and lost hit points add up to the damage dealt, and no more is blocked than
/// there was block.
pub proof fn law_damage_is_blocked_or_lost(block: Block, damage: CalculatedDamage)
    ensures
        ({
            let t = damage_taken(block, damage);
            let amount = match damage {
                CalculatedDamage::Blockable(a) => a,
                CalculatedDamage::BlockableNonAttack(a) => a,
                CalculatedDamage::HpLoss(a) => a,
            };
            t.blocked + t.hp_lost == amount && t.blocked <= block
        }),
{
}

} // verus!
