pub mod map;

use vstd::prelude::*;

use crate::data::{Card, Character, EnemyCondition, EnemyType, Intent, PlayerCondition, Potion, Relic};
use crate::types::{Block, DeckIndex, Dexterity, Energy, Gold, Hp, HpMax, Strength};

verus! {

/// What the player keeps between combats.
#[derive(Debug)]
pub struct PlayerPersistentState {
    pub hp: Hp,
    pub hp_max: HpMax,
    pub gold: Gold,
    pub relics: Vec<Relic>,
    pub deck: Vec<Card>,
    pub potions: Vec<Option<Potion>>,
}

impl PlayerPersistentState {
    /// The state at the start of a run: full health, 99 gold, the character's starting relic
    /// and deck, and three empty potion slots.
    pub fn new(character: Character) -> (r: PlayerPersistentState)
        ensures
            r.hp == crate::data::spec_starting_hp(character),
            r.hp_max == crate::data::spec_starting_hp(character),
            r.gold == 99,
            r.relics@ == seq![crate::data::spec_starting_relic(character)],
            r.deck@ == crate::data::spec_starting_deck(character),
            r.potions@ == seq![None::<Potion>, None, None],
    {
        let hp = character.starting_hp();
        PlayerPersistentState {
            hp,
            hp_max: hp,
            gold: 99,
            relics: vec![character.starting_relic()],
            deck: character.starting_deck(),
            potions: vec![None, None, None],
        }
    }
}

/// An amount of damage, or how to work it out from the attacker's state.
#[derive(Clone, Copy, Debug, PartialEq, Eq, Structural)]
pub enum Damage {
    Blockable(Hp),
    /// A base amount plus a bonus for each Strike card the attacker owns.
    BlockableCountingStrikeCards(Hp, Hp),
    BlockableEqualToDrawPileSize,
    BlockableEqualToPlayerBlock,
    /// A base amount, with strength counted this many times.
    BlockableWithStrengthMultiplier(Hp, Strength),
    /// Blockable damage that is not an attack (it provokes no thorns).
    BlockableNonAttack(Hp),
    HpLoss(Hp),
    HpLossEqualToHandSize,
}

/// Something that can be gained.
#[derive(Clone, Copy, Debug, PartialEq, Eq, Structural)]
pub enum Resource {
    Block(Block),
    Strength(Strength),
    Dexterity(Dexterity),
    Energy(u32),
    Gold(Gold),
    Hp(Hp),
    HpMax(HpMax),
}

/// What an effect does to its target enemy.
#[derive(Clone, Copy, Debug, PartialEq, Eq, Structural)]
pub enum TargetEffect {
    Deal(Damage),
    Inflict(EnemyCondition),
}

/// An effect brought about by the player.
#[derive(Clone, Copy, Debug, PartialEq, Eq, Structural)]
pub enum PlayerEffect {
    Apply(PlayerCondition),
    Draw(u32),
    Gain(Resource),
    ToAllEnemies(TargetEffect),
    ToRandomEnemy(TargetEffect),
    ToSingleTarget(TargetEffect),
}

/// An effect brought about by an enemy.
#[derive(Clone, Copy, Debug, PartialEq, Eq, Structural)]
pub enum EnemyEffect {
    Apply(EnemyCondition),
    Deal(Damage),
    Gain(Resource),
    Inflict(PlayerCondition),
}

/// An effect waiting to be resolved, by who brings it about.
#[derive(Clone, Copy, Debug, PartialEq, Eq, Structural)]
pub enum Effect {
    EnemyState(EnemyEffect),
    PlayerState(PlayerEffect),
}

/// The effects waiting to be resolved, in order.
#[derive(Debug)]
pub struct EffectQueue {
    effects: Vec<Effect>,
}

impl View for EffectQueue {
    type V = Seq<Effect>;

    closed spec fn view(&self) -> Seq<Effect> {
        self.effects@
    }
}

impl EffectQueue {
    pub fn new() -> (r: EffectQueue)
        ensures
            r@ == Seq::<Effect>::empty(),
    {
        EffectQueue { effects: Vec::new() }
    }

    /// Puts an effect at the front, to be resolved next.
    pub fn push_front(&mut self, effect: Effect)
        ensures
            final(self)@ == seq![effect] + old(self)@,
    {
        self.effects.insert(0, effect);
        assert(self.effects@ =~= seq![effect] + old(self)@);
    }

    /// Puts an effect at the back, to be resolved last.
    pub fn push_back(&mut self, effect: Effect)
        ensures
            final(self)@ == old(self)@.push(effect),
    {
        self.effects.push(effect);
    }

    /// Takes the effect at the front, if any.
    pub fn pop_front(&mut self) -> (r: Option<Effect>)
        ensures
            old(self)@.len() == 0 ==> r is None && final(self)@ == old(self)@,
            old(self)@.len() > 0 ==> r == Some(old(self)@[0]) && final(self)@ == old(self)@.drop_first(),
    {
        if self.effects.len() == 0 {
            None
        } else {
            let e = self.effects.remove(0);
            assert(self.effects@ =~= old(self)@.drop_first());
            Some(e)
        }
    }

    pub fn len(&self) -> (r: usize)
        ensures
            r == self@.len(),
    {
        self.effects.len()
    }
}

/// What damage calculations need to know of an attacker.
#[derive(Clone, Copy, Debug, PartialEq, Eq, Structural)]
pub struct AttackerStatus {
    pub block: Block,
    pub draw_pile_size: usize,
    pub hand_size: usize,
    pub is_weak: bool,
    pub number_of_strike_cards_owned: usize,
    pub strength: Strength,
}

/// What damage and block calculations need to know of a defender.
#[derive(Clone, Copy, Debug, PartialEq, Eq, Structural)]
pub struct DefenderStatus {
    pub dexterity: Dexterity,
    pub is_frail: bool,
    pub is_vulnerable: bool,
}

/// What the player may know of an enemy in combat.
#[derive(Debug)]
pub struct EnemyStatus {
    pub enemy_type: EnemyType,
    pub hp: Hp,
    pub hp_max: HpMax,
    pub strength: Strength,
    pub block: Block,
    pub conditions: Vec<EnemyCondition>,
    pub intent: Intent,
}

/// A card in a combat: the card, where it came from in the deck (if it did), and what it costs
/// for the rest of the combat and this turn.
#[derive(Clone, Copy, Debug, PartialEq, Eq, Structural)]
pub struct CardInCombat {
    pub deck_index: Option<DeckIndex>,
    pub card: Card,
    pub cost_this_combat: Energy,
    pub cost_this_turn: Energy,
}

impl CardInCombat {
    /// A card at its usual cost.
    pub fn new(deck_index: Option<DeckIndex>, card: Card) -> (r: CardInCombat)
        ensures
            r.deck_index == deck_index,
            r.card == card,
            r.cost_this_combat == crate::data::spec_cost(card),
            r.cost_this_turn == crate::data::spec_cost(card),
    {
        let cost = card.cost();
        CardInCombat { deck_index, card, cost_this_combat: cost, cost_this_turn: cost }
    }
}

/// The deck's cards entering a combat, each remembering its place in the deck.
pub open spec fn cards_in_combat(deck: Seq<Card>) -> Seq<CardInCombat> {
    Seq::new(deck.len(), |i: int| CardInCombat {
        deck_index: Some(i as usize),
        card: deck[i],
        cost_this_combat: crate::data::spec_cost(deck[i]),
        cost_this_turn: crate::data::spec_cost(deck[i]),
    })
}

/// The player's side of a combat: the piles of cards, energy, block, strength, dexterity,
/// conditions, and how many times hit points were lost.
#[derive(Debug)]
pub struct PlayerCombatState {
    pub draw_pile: Vec<CardInCombat>,
    pub discard_pile: Vec<CardInCombat>,
    pub hand: Vec<CardInCombat>,
    pub exhaust_pile: Vec<CardInCombat>,
    pub energy: Energy,
    pub block: Block,
    pub strength: Strength,
    pub dexterity: Dexterity,
    pub conditions: Vec<PlayerCondition>,
    pub hp_loss_count: usize,
}

/// The player as a defender: their dexterity, and whether they are frail or vulnerable.
pub open spec fn player_as_defender(pcs: PlayerCombatState) -> DefenderStatus {
    DefenderStatus {
        dexterity: pcs.dexterity,
        is_frail: player_is_frail(pcs.conditions@),
        is_vulnerable: player_is_vulnerable(pcs.conditions@),
    }
}

/// The player is frail.
pub open spec fn player_is_frail(conditions: Seq<PlayerCondition>) -> bool {
    exists|i: int| 0 <= i < conditions.len() && conditions[i] is Frail
}

/// The player is vulnerable.
pub open spec fn player_is_vulnerable(conditions: Seq<PlayerCondition>) -> bool {
    exists|i: int| 0 <= i < conditions.len() && conditions[i] is Vulnerable
}

impl PlayerCombatState {
    /// The state at the start of a combat: the deck's cards in the draw pile, in deck order,
    /// three energy, and nothing else.
    pub fn new(deck: &[Card]) -> (r: PlayerCombatState)
        ensures
            r.draw_pile@ == cards_in_combat(deck@),
            r.discard_pile@.len() == 0,
            r.hand@.len() == 0,
            r.exhaust_pile@.len() == 0,
            r.energy == 3,
            r.block == 0,
            r.strength == 0,
            r.dexterity == 0,
            r.conditions@.len() == 0,
            r.hp_loss_count == 0,
    {
        let mut draw_pile: Vec<CardInCombat> = Vec::new();
        let mut i: usize = 0;
        while i < deck.len()
            invariant
                i <= deck@.len(),
                draw_pile@ == cards_in_combat(deck@.subrange(0, i as int)),
            decreases deck@.len() - i,
        {
            draw_pile.push(CardInCombat::new(Some(i), deck[i]));
            i = i + 1;
            assert(draw_pile@ =~= cards_in_combat(deck@.subrange(0, i as int)));
        }
        assert(deck@.subrange(0, deck@.len() as int) == deck@);
        PlayerCombatState {
            draw_pile,
            discard_pile: Vec::new(),
            hand: Vec::new(),
            exhaust_pile: Vec::new(),
            energy: 3,
            block: 0,
            strength: 0,
            dexterity: 0,
            conditions: Vec::new(),
            hp_loss_count: 0,
        }
    }
}

impl PlayerCombatState {
    /// The player as a defender: their dexterity, and whether they are frail or vulnerable.
    pub fn defender_status(&self) -> (r: DefenderStatus)
        ensures
            r == player_as_defender(*self),
    {
        let mut is_frail = false;
        let mut is_vulnerable = false;
        let mut i: usize = 0;
        while i < self.conditions.len()
            invariant
                i <= self.conditions@.len(),
                is_frail == exists|k: int| 0 <= k < i && self.conditions@[k] is Frail,
                is_vulnerable == exists|k: int| 0 <= k < i && self.conditions@[k] is Vulnerable,
            decreases self.conditions@.len() - i,
        {
            match self.conditions[i] {
                PlayerCondition::Frail(_) => {
                    is_frail = true;
                },
                PlayerCondition::Vulnerable(_) => {
                    is_vulnerable = true;
                },
                _ => {},
            }
            i = i + 1;
        }
        DefenderStatus { dexterity: self.dexterity, is_frail, is_vulnerable }
    }
}

} // verus!
