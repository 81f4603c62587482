pub mod enemy;
pub mod player;

use vstd::prelude::*;

use crate::data::Card;
pub use crate::data::Debuff;

verus! {

/// One step of what a card or an enemy move does.
#[derive(Clone, Copy, Debug, PartialEq, Eq, Structural)]
pub enum Effect {
    /// Adds a copy of the card to the player's discard pile.
    AddToDiscardPile(Card),
    DealDamage(u32),
    GainBlock(u32),
    Inflict(Debuff, u32),
}

} // verus!
