use vstd::prelude::*;

use crate::data::{Card, Debuff};
use crate::sim::Effect;
use crate::types::{AttackCount, AttackDamage, Block, Energy, HandIndex, PotionIndex, StackCount};

verus! {

/// What the player decided to do in combat.
#[derive(Debug)]
pub enum Action {
    DiscardPotion(PotionIndex),
    DrinkPotion(PotionIndex),
    EndTurn,
    PlayCard(CardDetails),
    PlayCardAgainstEnemy(CardDetails, HandIndex),
}

/// Whom a card affects.
#[derive(Clone, Copy, Debug, Eq, PartialEq, Structural)]
pub enum Target {
    AllEnemies,
    OneEnemy,
    Player,
}

/// What playing a card costs and does.
#[derive(Debug)]
pub struct CardDetails {
    pub cost: Energy,
    pub effects: Vec<Effect>,
    pub target: Target,
}

/// A card description under construction: its cost and the effects gathered so far.
pub struct CardDetailsBuilder {
    pub cost: Energy,
    pub effects: Vec<Effect>,
}

/// The cards whose details are known.
pub open spec fn has_card_details(card: Card) -> bool {
    card == Card::Bash || card == Card::Defend || card == Card::Strike || card == Card::Slimed
}

/// The cost, effects and target of a card with known details: Bash deals 8 and inflicts 2
/// Vulnerable on one enemy for 2 energy; Defend gains 5 block for 1; Strike deals 6 to one
/// enemy for 1; Slimed costs 1 and does nothing.
pub open spec fn spec_card_details(card: Card) -> (Energy, Seq<Effect>, Target) {
    match card {
        Card::Bash => (2, seq![Effect::DealDamage(8), Effect::Inflict(Debuff::Vulnerable, 2)], Target::OneEnemy),
        Card::Defend => (1, seq![Effect::GainBlock(5)], Target::Player),
        Card::Strike => (1, seq![Effect::DealDamage(6)], Target::OneEnemy),
        _ => (1, Seq::empty(), Target::Player),
    }
}

impl CardDetails {
    /// Starts the description of a card costing `cost`, with no effects yet.
    pub fn with_cost(cost: Energy) -> (r: CardDetailsBuilder)
        ensures
            r.cost == cost,
            r.effects@.len() == 0,
    {
        CardDetailsBuilder { cost, effects: Vec::new() }
    }

    /// The details of a card.
    pub fn for_card(card: Card) -> (r: CardDetails)
        requires
            has_card_details(card),
        ensures
            (r.cost, r.effects@, r.target) == spec_card_details(card),
    {
        match card {
            Card::Bash => CardDetails::with_cost(2).deal_damage(8, 1).inflict(Debuff::Vulnerable, 2).to_one_enemy(),
            Card::Defend => CardDetails::with_cost(1).gain_block(5),
            Card::Strike => CardDetails::with_cost(1).deal_damage(6, 1).to_one_enemy(),
            _ => CardDetails { cost: 1, effects: Vec::new(), target: Target::Player },
        }
    }
}

impl CardDetailsBuilder {
    /// Adds `times` hits of `amount` damage.
    pub fn deal_damage(self, amount: AttackDamage, times: AttackCount) -> (r: CardDetailsBuilder)
        ensures
            r.cost == self.cost,
            r.effects@ == self.effects@ + Seq::new(times as nat, |i: int| Effect::DealDamage(amount)),
    {
        let mut effects = self.effects;
        let ghost start = effects@;
        let mut i: u32 = 0;
        while i < times
            invariant
                i <= times,
                effects@ == start + Seq::new(i as nat, |k: int| Effect::DealDamage(amount)),
            decreases times - i,
        {
            effects.push(Effect::DealDamage(amount));
            proof {
                assert(start + Seq::new((i + 1) as nat, |k: int| Effect::DealDamage(amount))
                    =~= (start + Seq::new(i as nat, |k: int| Effect::DealDamage(amount))).push(Effect::DealDamage(amount)));
            }
            i = i + 1;
        }
        CardDetailsBuilder { cost: self.cost, effects }
    }

    /// Finishes a card that gains `amount` block for the player.
    pub fn gain_block(self, amount: Block) -> (r: CardDetails)
        ensures
            r.cost == self.cost,
            r.effects@ == self.effects@.push(Effect::GainBlock(amount)),
            r.target == Target::Player,
    {
        let mut effects = self.effects;
        effects.push(Effect::GainBlock(amount));
        CardDetails { cost: self.cost, effects, target: Target::Player }
    }

    /// Adds `stacks` of `debuff` inflicted on the target.
    pub fn inflict(self, debuff: Debuff, stacks: StackCount) -> (r: CardDetailsBuilder)
        ensures
            r.cost == self.cost,
            r.effects@ == self.effects@.push(Effect::Inflict(debuff, stacks)),
    {
        let mut effects = self.effects;
        effects.push(Effect::Inflict(debuff, stacks));
        CardDetailsBuilder { cost: self.cost, effects }
    }

    /// Finishes a card that affects every enemy.
    pub fn to_all_enemies(self) -> (r: CardDetails)
        ensures
            r.cost == self.cost,
            r.effects@ == self.effects@,
            r.target == Target::AllEnemies,
    {
        CardDetails { cost: self.cost, effects: self.effects, target: Target::AllEnemies }
    }

    /// Finishes a card that affects one enemy.
    pub fn to_one_enemy(self) -> (r: CardDetails)
        ensures
            r.cost == self.cost,
            r.effects@ == self.effects@,
            r.target == Target::OneEnemy,
    {
        CardDetails { cost: self.cost, effects: self.effects, target: Target::OneEnemy }
    }
}

} // verus!
