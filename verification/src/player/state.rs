use vstd::prelude::*;

use crate::data::{Buff, Card, Character, Debuff, Potion, Relic, spec_is_innate, spec_starting_deck, spec_starting_hp, spec_starting_relic};
use crate::rng::sts::{rng_step, RngState, StsRandom};
use crate::rng::java::java_shuffle;
use crate::types::{Block, DeckIndex, Energy, Gold, Health, Hp, HpMax, PotionIndex, StackCount};

verus! {

/// The player's state that persists between combats: hit points, gold, relics, deck and
/// potion slots. Hit points never exceed their maximum.
#[derive(Debug)]
pub struct PlayerState {
    hp: Hp,
    hp_max: HpMax,
    gold: Gold,
    relics: Vec<Relic>,
    deck: Vec<Card>,
    potions: Vec<Option<Potion>>,
}

/// The abstract value of a `PlayerState`.
pub struct PlayerStateView {
    pub hp: Hp,
    pub hp_max: HpMax,
    pub gold: Gold,
    pub relics: Seq<Relic>,
    pub deck: Seq<Card>,
    pub potions: Seq<Option<Potion>>,
}

impl View for PlayerState {
    type V = PlayerStateView;

    closed spec fn view(&self) -> PlayerStateView {
        PlayerStateView {
            hp: self.hp,
            hp_max: self.hp_max,
            gold: self.gold,
            relics: self.relics@,
            deck: self.deck@,
            potions: self.potions@,
        }
    }
}

/// Whether some slot of `potions` is empty.
pub open spec fn has_empty_slot(potions: Seq<Option<Potion>>) -> bool {
    exists|i: int| 0 <= i < potions.len() && potions[i] is None
}

/// The index of the first empty slot at or after `i`, or the length when there is none.
pub open spec fn first_empty_slot(potions: Seq<Option<Potion>>, i: int) -> int
    decreases potions.len() - i,
{
    if i >= potions.len() {
        potions.len() as int
    } else if potions[i] is None {
        i
    } else {
        first_empty_slot(potions, i + 1)
    }
}

/// The potion slots after obtaining `potion`: it goes into the first empty slot, and nothing
/// changes when every slot is taken.
pub open spec fn potions_after_obtaining(potions: Seq<Option<Potion>>, potion: Potion) -> Seq<
    Option<Potion>,
> {
    let i = first_empty_slot(potions, 0);
    if i < potions.len() {
        potions.update(i, Some(potion))
    } else {
        potions
    }
}

/// `first_empty_slot` finds an empty slot exactly when there is one, and only full slots come
/// before it.
pub proof fn lemma_first_empty_slot(potions: Seq<Option<Potion>>, i: int)
    requires
        0 <= i <= potions.len(),
    ensures
        i <= first_empty_slot(potions, i) <= potions.len(),
        first_empty_slot(potions, i) < potions.len() ==> potions[first_empty_slot(potions, i)] is None,
        forall|k: int| i <= k < first_empty_slot(potions, i) ==> potions[k] is Some,
        (exists|k: int| i <= k < potions.len() && potions[k] is None) <==> first_empty_slot(potions, i) < potions.len(),
    decreases potions.len() - i,
{
    if i < potions.len() && potions[i] is Some {
        lemma_first_empty_slot(potions, i + 1);
        if exists|k: int| i <= k < potions.len() && potions[k] is None {
            let k = choose|k: int| i <= k < potions.len() && potions[k] is None;
            assert(i + 1 <= k);
        }
    }
}

impl PlayerState {
    /// Hit points never exceed their maximum.
    pub open spec fn wf(&self) -> bool {
        self@.hp <= self@.hp_max
    }

    /// The state at the start of a run: full health, 99 gold, the character's starting relic
    /// and deck, and three empty potion slots.
    pub fn new(character: Character) -> (r: PlayerState)
        ensures
            r.wf(),
            r@.hp == spec_starting_hp(character),
            r@.hp_max == spec_starting_hp(character),
            r@.gold == 99,
            r@.relics == seq![spec_starting_relic(character)],
            r@.deck == spec_starting_deck(character),
            r@.potions == seq![None::<Potion>, None, None],
    {
        let hp = character.starting_hp();
        let relics = vec![character.starting_relic()];
        let deck = character.starting_deck();
        let potions: Vec<Option<Potion>> = vec![None, None, None];
        PlayerState { hp, hp_max: hp, gold: 99, relics, deck, potions }
    }

    /// Sets the hit points (capped at the maximum).
    pub fn set_hp(&mut self, hp: Hp)
        ensures
            final(self)@ == (PlayerStateView { hp: if hp <= old(self)@.hp_max { hp } else { old(self)@.hp_max }, ..old(self)@ }),
    {
        self.hp = if hp <= self.hp_max { hp } else { self.hp_max };
    }

    /// Replaces the deck.
    pub fn set_deck(&mut self, deck: Vec<Card>)
        ensures
            final(self)@ == (PlayerStateView { deck: deck@, ..old(self)@ }),
    {
        self.deck = deck;
    }

    /// Replaces the potion slots.
    pub fn set_potions(&mut self, potions: Vec<Option<Potion>>)
        ensures
            final(self)@ == (PlayerStateView { potions: potions@, ..old(self)@ }),
    {
        self.potions = potions;
    }

    pub fn health(&self) -> (r: Health)
        ensures
            r == (self@.hp, self@.hp_max),
    {
        (self.hp, self.hp_max)
    }

    pub fn hp(&self) -> (r: Hp)
        ensures
            r == self@.hp,
    {
        self.hp
    }

    pub fn hp_max(&self) -> (r: HpMax)
        ensures
            r == self@.hp_max,
    {
        self.hp_max
    }

    pub fn gold(&self) -> (r: Gold)
        ensures
            r == self@.gold,
    {
        self.gold
    }

    pub fn relics(&self) -> (r: &[Relic])
        ensures
            r@ == self@.relics,
    {
        self.relics.as_slice()
    }

    /// Adds a relic after those already held.
    pub fn obtain_relic(&mut self, relic: Relic)
        ensures
            final(self)@ == (PlayerStateView { relics: old(self)@.relics.push(relic), ..old(self)@ }),
    {
        self.relics.push(relic);
    }

    pub fn has_relic(&self, relic: Relic) -> (r: bool)
        ensures
            r == self@.relics.contains(relic),
    {
        let mut i: usize = 0;
        while i < self.relics.len()
            invariant
                i <= self.relics@.len(),
                forall|k: int| 0 <= k < i ==> self.relics@[k] != relic,
            decreases self.relics@.len() - i,
        {
            if self.relics[i] == relic {
                assert(self.relics@[i as int] == relic);
                return true;
            }
            i = i + 1;
        }
        false
    }

    pub fn deck(&self) -> (r: &[Card])
        ensures
            r@ == self@.deck,
    {
        self.deck.as_slice()
    }

    /// Adds a card at the end of the deck.
    pub fn obtain_card(&mut self, card: Card)
        ensures
            final(self)@ == (PlayerStateView { deck: old(self)@.deck.push(card), ..old(self)@ }),
    {
        self.deck.push(card);
    }

    /// Removes and returns the card at `deck_index`.
    pub fn remove_card(&mut self, deck_index: DeckIndex) -> (r: Card)
        requires
            deck_index < old(self)@.deck.len(),
        ensures
            r == old(self)@.deck[deck_index as int],
            final(self)@ == (PlayerStateView { deck: old(self)@.deck.remove(deck_index as int), ..old(self)@ }),
    {
        self.deck.remove(deck_index)
    }

    /// Empties the potion slot at `index`.
    pub fn discard_potion(&mut self, index: PotionIndex)
        requires
            index < old(self)@.potions.len(),
        ensures
            final(self)@ == (PlayerStateView { potions: old(self)@.potions.update(index as int, None), ..old(self)@ }),
    {
        self.potions.set(index, None);
    }

    pub fn potions(&self) -> (r: &[Option<Potion>])
        ensures
            r@ == self@.potions,
    {
        self.potions.as_slice()
    }

    pub fn has_potion_slot_available(&self) -> (r: bool)
        ensures
            r == has_empty_slot(self@.potions),
    {
        proof {
            lemma_first_empty_slot(self.potions@, 0);
        }
        self.first_empty_potion_slot() < self.potions.len()
    }

    /// The index of the first empty potion slot, or the number of slots when all are taken.
    pub fn first_empty_potion_slot(&self) -> (r: usize)
        ensures
            r == first_empty_slot(self@.potions, 0),
    {
        let mut i: usize = 0;
        while i < self.potions.len()
            invariant
                i <= self.potions@.len(),
                first_empty_slot(self.potions@, 0) == first_empty_slot(self.potions@, i as int),
            decreases self.potions@.len() - i,
        {
            if self.potions[i].is_none() {
                return i;
            }
            i = i + 1;
        }
        i
    }

    /// Adds an empty potion slot.
    pub fn gain_potion_slot(&mut self)
        ensures
            final(self)@ == (PlayerStateView { potions: old(self)@.potions.push(None), ..old(self)@ }),
    {
        self.potions.push(None);
    }

    /// Puts the potion in the first empty slot; does nothing when all slots are taken.
    pub fn obtain_potion(&mut self, potion: Potion)
        ensures
            final(self)@.potions.len() == old(self)@.potions.len(),
            final(self)@ == (PlayerStateView { potions: potions_after_obtaining(old(self)@.potions, potion), ..old(self)@ }),
    {
        let i = self.first_empty_potion_slot();
        if i < self.potions.len() {
            self.potions.set(i, Some(potion));
        }
    }

    /// Heals by `amount`, up to the maximum.
    pub fn increase_hp(&mut self, amount: Hp)
        ensures
            final(self)@ == (PlayerStateView { hp: spec_min(spec_saturating_add(old(self)@.hp, amount), old(self)@.hp_max), ..old(self)@ }),
    {
        let sum = self.hp.saturating_add(amount);
        self.hp = if sum < self.hp_max { sum } else { self.hp_max };
    }

    /// Loses `amount` hit points, down to zero.
    pub fn decrease_hp(&mut self, amount: Hp)
        ensures
            final(self)@ == (PlayerStateView { hp: spec_saturating_sub(old(self)@.hp, amount), ..old(self)@ }),
    {
        self.hp = self.hp.saturating_sub(amount);
    }

    /// Raises the maximum and the current hit points by `amount`.
    pub fn increase_hp_max(&mut self, amount: HpMax)
        ensures
            final(self)@ == (PlayerStateView {
                hp: spec_saturating_add(old(self)@.hp, amount),
                hp_max: spec_saturating_add(old(self)@.hp_max, amount),
                ..old(self)@
            }),
    {
        self.hp_max = self.hp_max.saturating_add(amount);
        self.hp = self.hp.saturating_add(amount);
    }

    /// Lowers the maximum by `amount`; hit points drop only to stay within the new maximum.
    pub fn decrease_hp_max(&mut self, amount: HpMax)
        ensures
            final(self)@ == (PlayerStateView {
                hp: spec_min(old(self)@.hp, spec_saturating_sub(old(self)@.hp_max, amount)),
                hp_max: spec_saturating_sub(old(self)@.hp_max, amount),
                ..old(self)@
            }),
    {
        self.hp_max = self.hp_max.saturating_sub(amount);
        self.hp = if self.hp < self.hp_max { self.hp } else { self.hp_max };
    }

    pub fn increase_gold(&mut self, amount: Gold)
        ensures
            final(self)@ == (PlayerStateView { gold: spec_saturating_add(old(self)@.gold, amount), ..old(self)@ }),
    {
        self.gold = self.gold.saturating_add(amount);
    }

    pub fn decrease_gold(&mut self, amount: Gold)
        ensures
            final(self)@ == (PlayerStateView { gold: spec_saturating_sub(old(self)@.gold, amount), ..old(self)@ }),
    {
        self.gold = self.gold.saturating_sub(amount);
    }
}

/// `a + b`, capped at `u32::MAX`.
pub open spec fn spec_saturating_add(a: u32, b: u32) -> u32 {
    if a + b > u32::MAX {
        u32::MAX
    } else {
        (a + b) as u32
    }
}

/// `a - b`, floored at zero.
pub open spec fn spec_saturating_sub(a: u32, b: u32) -> u32 {
    if a < b {
        0
    } else {
        (a - b) as u32
    }
}

pub open spec fn spec_min(a: u32, b: u32) -> u32 {
    if a < b {
        a
    } else {
        b
    }
}

/// Every operation on the player's state keeps hit points within their maximum.
pub proof fn law_player_state_operations_keep_hp_within_max(s: PlayerStateView, amount: u32)
    requires
        s.hp <= s.hp_max,
    ensures
        spec_min(spec_saturating_add(s.hp, amount), s.hp_max) <= s.hp_max,
        spec_saturating_sub(s.hp, amount) <= s.hp_max,
        spec_saturating_add(s.hp, amount) <= spec_saturating_add(s.hp_max, amount),
        spec_min(s.hp, spec_saturating_sub(s.hp_max, amount)) <= spec_saturating_sub(s.hp_max, amount),
{
}

/// Losing gold after gaining the same amount gives back the starting gold, when the gain did
/// not saturate.
pub proof fn law_gold_gain_then_loss_restores(gold: u32, amount: u32)
    requires
        gold + amount <= u32::MAX,
    ensures
        spec_saturating_sub(spec_saturating_add(gold, amount), amount) == gold,
{
}

/// The draw pile with innate cards moved to the top (the end, from which cards are drawn),
/// keeping the order within each group (a stable sort by innateness).
pub open spec fn innate_on_top(cards: Seq<Card>) -> Seq<Card> {
    cards.filter(|c: Card| !spec_is_innate(c)) + cards.filter(|c: Card| spec_is_innate(c))
}

/// The state of the player within one combat: hand and piles, energy, block and conditions.
#[derive(Debug)]
pub struct CombatState {
    pub shuffle_rng: StsRandom,
    pub energy: Energy,
    pub block: Block,
    pub buffs: Vec<(Buff, StackCount)>,
    pub debuffs: Vec<(Debuff, StackCount)>,
    pub hand: Vec<Card>,
    pub draw_pile: Vec<Card>,
    pub discard_pile: Vec<Card>,
    pub exhaust_pile: Vec<Card>,
}

/// Whether `debuffs` holds an entry for `debuff`.
pub open spec fn has_debuff_in(debuffs: Seq<(Debuff, StackCount)>, debuff: Debuff) -> bool {
    exists|i: int| 0 <= i < debuffs.len() && debuffs[i].0 == debuff
}

/// Whether `debuffs` holds an entry for `debuff` (searching the slice).
pub fn debuffs_contain(debuffs: &[(Debuff, StackCount)], debuff: Debuff) -> (r: bool)
    ensures
        r == has_debuff_in(debuffs@, debuff),
{
    let mut i: usize = 0;
    while i < debuffs.len()
        invariant
            i <= debuffs@.len(),
            forall|k: int| 0 <= k < i ==> debuffs@[k].0 != debuff,
        decreases debuffs@.len() - i,
    {
        if debuffs[i].0 == debuff {
            return true;
        }
        i = i + 1;
    }
    false
}

/// Stable partition of a pile: the cards that are not innate in their order, then the innate
/// ones in their order.
pub fn move_innate_to_top(cards: Vec<Card>) -> (r: Vec<Card>)
    ensures
        r@ == innate_on_top(cards@),
{
    let mut rest: Vec<Card> = Vec::new();
    let mut innate: Vec<Card> = Vec::new();
    let mut i: usize = 0;
    while i < cards.len()
        invariant
            i <= cards@.len(),
            rest@ == cards@.subrange(0, i as int).filter(|c: Card| !spec_is_innate(c)),
            innate@ == cards@.subrange(0, i as int).filter(|c: Card| spec_is_innate(c)),
        decreases cards@.len() - i,
    {
        let c = cards[i];
        proof {
            let s = cards@.subrange(0, i as int + 1);
            assert(s.drop_last() == cards@.subrange(0, i as int));
            assert(s.last() == c);
            reveal_with_fuel(Seq::filter, 1);
        }
        if c.is_innate() {
            innate.push(c);
        } else {
            rest.push(c);
        }
        i = i + 1;
    }
    assert(cards@.subrange(0, cards@.len() as int) == cards@);
    rest.append(&mut innate);
    rest
}

impl CombatState {
    /// The state at the start of a combat: the deck shuffled the game's way with one draw of
    /// `shuffle_rng`, innate cards moved to the top, 3 energy, no block and nothing in hand.
    pub fn new(deck: &[Card], shuffle_rng: StsRandom) -> (r: CombatState)
        requires
            deck@.len() <= 0x8000_0000,
        ensures
            r.shuffle_rng@ == rng_step(shuffle_rng@).0,
            r.draw_pile@ == innate_on_top(
                java_shuffle(deck@, crate::rng::java::java_initial_scramble(rng_step(shuffle_rng@).1), deck@.len()).0,
            ),
            r.draw_pile@.to_multiset() == deck@.to_multiset(),
            r.energy == 3,
            r.block == 0,
            r.buffs@.len() == 0,
            r.debuffs@.len() == 0,
            r.hand@.len() == 0,
            r.discard_pile@.len() == 0,
            r.exhaust_pile@.len() == 0,
    {
        let mut shuffle_rng = shuffle_rng;
        let mut draw_pile = crate::player::message::slice_to_vec(deck);
        shuffle_rng.java_compat_shuffle(&mut draw_pile);
        let ghost shuffled = draw_pile@;
        let draw_pile = move_innate_to_top(draw_pile);
        proof {
            lemma_innate_on_top_keeps_multiset(shuffled);
        }
        CombatState {
            shuffle_rng,
            energy: 3,
            block: 0,
            buffs: Vec::new(),
            debuffs: Vec::new(),
            hand: Vec::new(),
            draw_pile,
            discard_pile: Vec::new(),
            exhaust_pile: Vec::new(),
        }
    }

    pub fn has_debuff(&self, debuff: Debuff) -> (r: bool)
        ensures
            r == has_debuff_in(self.debuffs@, debuff),
    {
        debuffs_contain(self.debuffs.as_slice(), debuff)
    }

    pub fn is_frail(&self) -> (r: bool)
        ensures
            r == has_debuff_in(self.debuffs@, Debuff::Frail),
    {
        self.has_debuff(Debuff::Frail)
    }

    pub fn is_vulnerable(&self) -> (r: bool)
        ensures
            r == has_debuff_in(self.debuffs@, Debuff::Vulnerable),
    {
        self.has_debuff(Debuff::Vulnerable)
    }

    pub fn is_weak(&self) -> (r: bool)
        ensures
            r == has_debuff_in(self.debuffs@, Debuff::Weak),
    {
        self.has_debuff(Debuff::Weak)
    }

    /// Shuffles the discard pile the game's way, with one draw of the shuffle generator.
    pub fn shuffle(&mut self)
        requires
            old(self).discard_pile@.len() <= 0x8000_0000,
        ensures
            final(self).shuffle_rng@ == rng_step(old(self).shuffle_rng@).0,
            final(self).discard_pile@ == java_shuffle(
                old(self).discard_pile@,
                crate::rng::java::java_initial_scramble(rng_step(old(self).shuffle_rng@).1),
                old(self).discard_pile@.len(),
            ).0,
            final(self).discard_pile@.to_multiset() == old(self).discard_pile@.to_multiset(),
            final(self).energy == old(self).energy,
            final(self).block == old(self).block,
            final(self).buffs == old(self).buffs,
            final(self).debuffs == old(self).debuffs,
            final(self).hand == old(self).hand,
            final(self).draw_pile == old(self).draw_pile,
            final(self).exhaust_pile == old(self).exhaust_pile,
    {
        self.shuffle_rng.java_compat_shuffle(&mut self.discard_pile);
    }
}

/// Splitting a pile into its non-innate and innate cards keeps the multiset of cards.
pub proof fn lemma_innate_partition_multiset(cards: Seq<Card>)
    ensures
        cards.filter(|c: Card| !spec_is_innate(c)).to_multiset().add(
            cards.filter(|c: Card| spec_is_innate(c)).to_multiset(),
        ) == cards.to_multiset(),
    decreases cards.len(),
{
    broadcast use vstd::seq_lib::group_to_multiset_ensures;
    reveal_with_fuel(Seq::filter, 1);
    if cards.len() == 0 {
        assert(cards.filter(|c: Card| !spec_is_innate(c)).len() == 0);
        assert(cards.filter(|c: Card| spec_is_innate(c)).len() == 0);
        assert(cards.filter(|c: Card| !spec_is_innate(c)).to_multiset() =~= vstd::multiset::Multiset::empty());
        assert(cards.filter(|c: Card| spec_is_innate(c)).to_multiset() =~= vstd::multiset::Multiset::empty());
        assert(cards.to_multiset() =~= vstd::multiset::Multiset::empty());
    } else {
        let t = cards.drop_last();
        let x = cards.last();
        lemma_innate_partition_multiset(t);
        assert(cards == t.push(x));
        assert(cards.filter(|c: Card| !spec_is_innate(c)).to_multiset().add(
            cards.filter(|c: Card| spec_is_innate(c)).to_multiset(),
        ) =~= cards.to_multiset());
    }
}

/// Moving innate cards to the top only reorders the pile.
pub proof fn lemma_innate_on_top_keeps_multiset(cards: Seq<Card>)
    ensures
        innate_on_top(cards).to_multiset() == cards.to_multiset(),
{
    vstd::seq_lib::lemma_multiset_commutative(
        cards.filter(|c: Card| !spec_is_innate(c)),
        cards.filter(|c: Card| spec_is_innate(c)),
    );
    lemma_innate_partition_multiset(cards);
}

} // verus!
