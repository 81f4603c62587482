use vstd::prelude::*;

use crate::components::{AttackerStatus, Damage, DefenderStatus};
use crate::types::{Block, Hp};

use crate::rng::precision::{float_half_again, float_half_again_of, float_three_quarters, float_three_quarters_of, lemma_float_products};

verus! {

/// Damage and block calculations.
pub struct DamageCalculator;

/// Damage after the attacker's and defender's conditions (strength, weak, vulnerable).
#[derive(Clone, Copy, Debug, PartialEq, Eq, Structural)]
pub enum CalculatedDamage {
    Blockable(Hp),
    BlockableNonAttack(Hp),
    HpLoss(Hp),
}

/// Damage after strength alone.
#[derive(Clone, Copy, Debug, PartialEq, Eq, Structural)]
enum InitialCalculatedDamage {
    Blockable(Hp),
    BlockableNonAttack(Hp),
    HpLoss(Hp),
}

/// `x`, kept within the range of `u32`.
pub open spec fn clamp_to_u32(x: int) -> u32 {
    if x < 0 {
        0
    } else if x > u32::MAX {
        u32::MAX
    } else {
        x as u32
    }
}

/// `u32::saturating_add_signed`: adds a signed amount, saturating at both ends.
pub fn saturating_add_signed(a: u32, b: i32) -> (r: u32)
    ensures
        r == clamp_to_u32(a + b),
{
    let x: i64 = a as i64 + b as i64;
    if x < 0 {
        0
    } else if x > u32::MAX as i64 {
        u32::MAX
    } else {
        x as u32
    }
}

/// Three quarters, in single-precision floats, rounded down (weak attackers, frail
/// defenders).
pub open spec fn three_quarters(amount: u32) -> u32 {
    float_three_quarters(amount as nat) as u32
}

/// Half as much again, in single-precision floats, rounded down and kept within `u32`
/// (vulnerable defenders).
pub open spec fn half_again(amount: u32) -> u32 {
    clamp_to_u32(float_half_again(amount as nat) as int)
}

/// Damage after the attacker's strength (added to attacks, kept within `u32`).
pub open spec fn initial_damage(attacker: AttackerStatus, damage: Damage) -> CalculatedDamage {
    match damage {
        Damage::Blockable(amount) => CalculatedDamage::Blockable(clamp_to_u32(amount + attacker.strength)),
        Damage::BlockableCountingStrikeCards(base, per_strike) => CalculatedDamage::Blockable(
            clamp_to_u32(base + (attacker.number_of_strike_cards_owned as u32) * per_strike + attacker.strength),
        ),
        Damage::BlockableEqualToDrawPileSize => CalculatedDamage::Blockable(
            clamp_to_u32((attacker.draw_pile_size as u32) + attacker.strength),
        ),
        Damage::BlockableEqualToPlayerBlock => CalculatedDamage::Blockable(clamp_to_u32(attacker.block + attacker.strength)),
        Damage::BlockableWithStrengthMultiplier(base, multiplier) => CalculatedDamage::Blockable(
            clamp_to_u32(base + attacker.strength * multiplier),
        ),
        Damage::BlockableNonAttack(amount) => CalculatedDamage::BlockableNonAttack(amount),
        Damage::HpLoss(amount) => CalculatedDamage::HpLoss(amount),
        Damage::HpLossEqualToHandSize => CalculatedDamage::HpLoss(attacker.hand_size as u32),
    }
}

/// Damage after weakness of the attacker (a quarter less) and vulnerability of the defender
/// (half as much again); only attacks are affected.
pub open spec fn final_damage(attacker: AttackerStatus, maybe_defender: Option<DefenderStatus>, initial: CalculatedDamage) -> CalculatedDamage {
    match initial {
        CalculatedDamage::Blockable(amount) => {
            let weakened = if attacker.is_weak { three_quarters(amount) } else { amount };
            if maybe_defender matches Some(d) && d.is_vulnerable {
                CalculatedDamage::Blockable(half_again(weakened))
            } else {
                CalculatedDamage::Blockable(weakened)
            }
        },
        _ => initial,
    }
}

/// The damage inflicted.
pub open spec fn damage_inflicted(attacker: AttackerStatus, maybe_defender: Option<DefenderStatus>, damage: Damage) -> CalculatedDamage {
    final_damage(attacker, maybe_defender, initial_damage(attacker, damage))
}

/// Whether working out `damage` stays within the integer types.
pub open spec fn damage_in_range(attacker: AttackerStatus, damage: Damage) -> bool {
    match damage {
        Damage::BlockableCountingStrikeCards(base, per_strike) =>
            base + (attacker.number_of_strike_cards_owned as u32) * per_strike <= u32::MAX,
        Damage::BlockableWithStrengthMultiplier(_, multiplier) =>
            i32::MIN <= attacker.strength * multiplier <= i32::MAX,
        _ => true,
    }
}

/// The block gained: the amount plus dexterity (kept within `u32`), a quarter less when the
/// defender is frail.
pub open spec fn block_gained(defender: DefenderStatus, amount: Block) -> Block {
    let initial = clamp_to_u32(amount + defender.dexterity);
    if defender.is_frail { three_quarters(initial) } else { initial }
}

fn weaken(amount: u32) -> (r: u32)
    ensures
        r == three_quarters(amount),
{
    proof {
        lemma_float_products(amount as nat);
    }
    float_three_quarters_of(amount)
}

fn amplify(amount: u32) -> (r: u32)
    ensures
        r == half_again(amount),
{
    proof {
        lemma_float_products(amount as nat);
    }
    float_half_again_of(amount)
}

impl DamageCalculator {
    /// The damage inflicted, with the attacker's strength and weakness and the defender's
    /// vulnerability taken into account.
    pub fn calculate_damage_inflicted(
        attacker: &AttackerStatus,
        maybe_defender: Option<&DefenderStatus>,
        damage: &Damage,
    ) -> (r: CalculatedDamage)
        requires
            damage_in_range(*attacker, *damage),
        ensures
            r == damage_inflicted(*attacker, match maybe_defender { Some(d) => Some(*d), None => None }, *damage),
    {
        let initial = Self::calculate_initial_damage(attacker, damage);
        Self::calculate_final_damage(attacker, maybe_defender, initial)
    }

    /// The block gained by a defender, with its dexterity and frailty taken into account.
    pub fn calculate_block_gained(defender: &DefenderStatus, amount: Block) -> (r: Block)
        ensures
            r == block_gained(*defender, amount),
    {
        let initial_amount = saturating_add_signed(amount, defender.dexterity);
        if defender.is_frail {
            weaken(initial_amount)
        } else {
            initial_amount
        }
    }

    /// Damage after strength alone.
    fn calculate_initial_damage(attacker: &AttackerStatus, damage: &Damage) -> (r: InitialCalculatedDamage)
        requires
            damage_in_range(*attacker, *damage),
        ensures
            match initial_damage(*attacker, *damage) {
                CalculatedDamage::Blockable(a) => r == InitialCalculatedDamage::Blockable(a),
                CalculatedDamage::BlockableNonAttack(a) => r == InitialCalculatedDamage::BlockableNonAttack(a),
                CalculatedDamage::HpLoss(a) => r == InitialCalculatedDamage::HpLoss(a),
            },
    {
        match *damage {
            Damage::Blockable(amount) => InitialCalculatedDamage::Blockable(saturating_add_signed(amount, attacker.strength)),
            Damage::BlockableCountingStrikeCards(base_amount, per_strike_bonus) => {
                let strikes = attacker.number_of_strike_cards_owned as u32;
                InitialCalculatedDamage::Blockable(
                    saturating_add_signed(base_amount + strikes * per_strike_bonus, attacker.strength),
                )
            },
            Damage::BlockableEqualToDrawPileSize => InitialCalculatedDamage::Blockable(
                saturating_add_signed(attacker.draw_pile_size as u32, attacker.strength),
            ),
            Damage::BlockableEqualToPlayerBlock => InitialCalculatedDamage::Blockable(
                saturating_add_signed(attacker.block, attacker.strength),
            ),
            Damage::BlockableWithStrengthMultiplier(base_amount, strength_multiplier) => InitialCalculatedDamage::Blockable(
                saturating_add_signed(base_amount, attacker.strength * strength_multiplier),
            ),
            Damage::BlockableNonAttack(amount) => InitialCalculatedDamage::BlockableNonAttack(amount),
            Damage::HpLoss(amount) => InitialCalculatedDamage::HpLoss(amount),
            Damage::HpLossEqualToHandSize => InitialCalculatedDamage::HpLoss(attacker.hand_size as u32),
        }
    }

    /// Damage after weakness and vulnerability.
    fn calculate_final_damage(
        attacker: &AttackerStatus,
        maybe_defender: Option<&DefenderStatus>,
        damage: InitialCalculatedDamage,
    ) -> (r: CalculatedDamage)
        ensures
            r == final_damage(*attacker, match maybe_defender { Some(d) => Some(*d), None => None }, match damage {
                InitialCalculatedDamage::Blockable(a) => CalculatedDamage::Blockable(a),
                InitialCalculatedDamage::BlockableNonAttack(a) => CalculatedDamage::BlockableNonAttack(a),
                InitialCalculatedDamage::HpLoss(a) => CalculatedDamage::HpLoss(a),
            }),
    {
        match damage {
            InitialCalculatedDamage::Blockable(amount) => {
                let attacker_modified_amount = if attacker.is_weak { weaken(amount) } else { amount };
                let vulnerable = match maybe_defender {
                    Some(d) => d.is_vulnerable,
                    None => false,
                };
                if vulnerable {
                    CalculatedDamage::Blockable(amplify(attacker_modified_amount))
                } else {
                    CalculatedDamage::Blockable(attacker_modified_amount)
                }
            },
            InitialCalculatedDamage::BlockableNonAttack(amount) => CalculatedDamage::BlockableNonAttack(amount),
            InitialCalculatedDamage::HpLoss(amount) => CalculatedDamage::HpLoss(amount),
        }
    }
}

/// Weakness never increases damage and vulnerability never decreases it.
pub proof fn law_weak_and_vulnerable_bounds(attacker: AttackerStatus, defender: DefenderStatus, amount: u32)
    ensures
        three_quarters(amount) <= amount,
        half_again(amount) >= amount,
{
    lemma_float_products(amount as nat);
}


/// Against a vulnerable defender, an attack (any blockable damage that is not marked as no
/// attack) deals half as much again (rounded down in single
/// precision, capped at `u32::MAX`) as the same attacker deals to the same defender when it is
/// not vulnerable, whether or not the attacker is weak; a weak attacker deals three quarters
/// (rounded down in single precision) of what it would deal when not weak.
pub proof fn law_vulnerability_and_weakness_compose(attacker: AttackerStatus, defender: DefenderStatus, damage: Damage)
    ensures
        ({
            let sturdy = DefenderStatus { is_vulnerable: false, ..defender };
            let exposed = DefenderStatus { is_vulnerable: true, ..defender };
            let plain = damage_inflicted(attacker, Some(sturdy), damage);
            let hit = damage_inflicted(attacker, Some(exposed), damage);
            let strong = damage_inflicted(AttackerStatus { is_weak: false, ..attacker }, Some(sturdy), damage);
            let weak = damage_inflicted(AttackerStatus { is_weak: true, ..attacker }, Some(sturdy), damage);
            &&& !(plain is Blockable) ==> hit == plain && weak == strong
            &&& plain matches CalculatedDamage::Blockable(x) ==> hit == CalculatedDamage::Blockable(
                    if float_half_again(x as nat) > u32::MAX { u32::MAX } else { float_half_again(x as nat) as u32 })
                && hit->Blockable_0 >= x
            &&& strong matches CalculatedDamage::Blockable(y) ==> weak == CalculatedDamage::Blockable(float_three_quarters(y as nat) as u32)
                && weak->Blockable_0 <= y
        }),
{
    let sturdy = DefenderStatus { is_vulnerable: false, ..defender };
    let x = damage_inflicted(attacker, Some(sturdy), damage)->Blockable_0;
    lemma_float_products(x as nat);
    let y = damage_inflicted(AttackerStatus { is_weak: false, ..attacker }, Some(sturdy), damage)->Blockable_0;
    lemma_float_products(y as nat);
}

} // verus!
