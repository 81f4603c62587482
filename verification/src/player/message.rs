use vstd::prelude::*;

use crate::data::{PlayerCondition, Card, Debuff, EnemyType, NeowBlessing, Potion, Relic};
use crate::sim::enemy::EnemyStatus;
use crate::types::{
    Block, Dexterity, Strength, ColumnIndex, DeckIndex, EnemyIndex, Energy, Gold, HandIndex, Health, Hp, PotionIndex,
    StackCount,
};

verus! {

/// Messages from the simulator to its client (a human operator or an agent). Any number of
/// state updates may be sent; a `Choices` message is a question, after which the simulator
/// waits for the zero-based index of the chosen option.
#[derive(Debug)]
pub enum StsMessage {
    // State updates for the main game loop, outside of an encounter or event.
    CardObtained(Card),
    CardRemoved(Card),
    Deck(Vec<Card>),
    Gold(Gold),
    MapText(String),
    RelicObtained(Relic),
    Relics(Vec<Relic>),
    PotionObtained(PotionIndex, Potion),
    Potions(Vec<Option<Potion>>),
    // Encounter / combat messages
    AddToDiscardPile(Vec<Card>),
    Block(Block),
    BlockGained(Block),
    BlockLost(Block),
    CardDiscarded(HandIndex, Card),
    CardDrawn(HandIndex, Card),
    CardExhausted(HandIndex, Card),
    DamageBlocked(Hp),
    DamageTaken(Hp),
    Debuffs(Vec<(Debuff, StackCount)>),
    DiscardPile(Vec<Card>),
    EnemyStatus(EnemyIndex, EnemyStatus),
    EnemyDied(EnemyIndex, EnemyType),
    EnemyParty(Vec<Option<EnemyStatus>>),
    HandDiscarded,
    Health(Health),
    Hp(Hp),
    Conditions(Vec<PlayerCondition>),
    Strength(Strength),
    Dexterity(Dexterity),
    ShufflingDiscardToDraw,
    Energy(Energy),
    StartingCombat,
    EndingCombat,
    /// A list of options; the client answers with the zero-based index of one of them.
    Choices(Prompt, Vec<Choice>),
    GameOver(bool),
}

/// The question asked along with a list of `Choice`s.
#[derive(Clone, Copy, Debug, PartialEq, Eq, Structural)]
pub enum Prompt {
    ChooseNeow,
    /// The player may accept any and all of the choices offered.
    ChooseNext,
    /// The player can pick at most one of the choices offered.
    ChooseOne,
    CombatAction,
    ClimbFloor,
    ClimbFloorHasPotion,
    RemoveCard,
    TargetEnemy,
}

/// One option offered to the client.
#[derive(Clone, Copy, Debug, PartialEq, Eq, Structural)]
pub enum Choice {
    EndTurn,
    PotionAction(PotionAction),
    ClimbFloor(ColumnIndex),
    NeowBlessing(NeowBlessing),
    ObtainCard(Card),
    ObtainGold(Gold),
    ObtainPotion(Potion),
    RemoveCard(DeckIndex, Card),
    PlayCardFromHand(HandIndex, Card),
    Skip,
    TargetEnemy(EnemyIndex, EnemyType),
}

/// Something to do with a potion in a slot.
#[derive(Clone, Copy, Debug, PartialEq, Eq, Structural)]
pub enum PotionAction {
    Discard(PotionIndex, Potion),
    Drink(PotionIndex, Potion),
}

/// What the player can do on the map screen.
#[derive(Clone, Copy, Debug, PartialEq, Eq, Structural)]
pub enum MainScreenOption {
    ClimbFloor(ColumnIndex),
    Potion(PotionAction),
}

/// Why an exchange with the client failed.
#[derive(Clone, Copy, Debug, PartialEq, Eq, Structural)]
pub enum StsError {
    /// The other end of a channel is gone.
    Disconnected,
    /// The client answered with an index that is not one of the options offered.
    InvalidChoice,
    /// The player's hit points reached zero.
    PlayerDied,
}

/// The text shown for a prompt.
pub open spec fn spec_prompt_text(p: Prompt) -> Seq<char> {
    match p {
        Prompt::ChooseNeow => "Choose Neow's Blessing"@,
        Prompt::ChooseNext => "Choose the next item to obtain"@,
        Prompt::ChooseOne => "Choose an item to obtain"@,
        Prompt::ClimbFloor => "Move up into one of the following columns"@,
        Prompt::ClimbFloorHasPotion => "Move up into one of the following columns, or drink/discard a potion"@,
        Prompt::CombatAction => "It is your turn to act"@,
        Prompt::RemoveCard => "Choose a card to remove"@,
        Prompt::TargetEnemy => "Choose an enemy to target"@,
    }
}

impl Prompt {
    /// The text shown for this prompt.
    pub fn text(&self) -> (r: &'static str)
        ensures
            r@ == spec_prompt_text(*self),
    {
        match self {
            Prompt::ChooseNeow => "Choose Neow's Blessing",
            Prompt::ChooseNext => "Choose the next item to obtain",
            Prompt::ChooseOne => "Choose an item to obtain",
            Prompt::ClimbFloor => "Move up into one of the following columns",
            Prompt::ClimbFloorHasPotion => "Move up into one of the following columns, or drink/discard a potion",
            Prompt::CombatAction => "It is your turn to act",
            Prompt::RemoveCard => "Choose a card to remove",
            Prompt::TargetEnemy => "Choose an enemy to target",
        }
    }
}

/// A copy of a vector of `Copy` values.
pub fn copy_vec<T: Copy>(v: &Vec<T>) -> (r: Vec<T>)
    ensures
        r@ == v@,
{
    let mut r: Vec<T> = Vec::new();
    let mut i: usize = 0;
    while i < v.len()
        invariant
            i <= v@.len(),
            r@ == v@.subrange(0, i as int),
        decreases v@.len() - i,
    {
        r.push(v[i]);
        i = i + 1;
    }
    assert(r@ == v@);
    r
}

/// A vector holding the elements of a slice of `Copy` values.
pub fn slice_to_vec<T: Copy>(v: &[T]) -> (r: Vec<T>)
    ensures
        r@ == v@,
{
    let mut r: Vec<T> = Vec::new();
    let mut i: usize = 0;
    while i < v.len()
        invariant
            i <= v@.len(),
            r@ == v@.subrange(0, i as int),
        decreases v@.len() - i,
    {
        r.push(v[i]);
        i = i + 1;
    }
    assert(r@ == v@);
    r
}

} // verus!
