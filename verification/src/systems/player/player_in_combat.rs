use vstd::prelude::*;

use crate::components::{CardInCombat, PlayerCombatState};
use crate::data::{spec_card_type, spec_is_innate, Card, CardType, PlayerCondition, Potion, Relic};
use crate::player::action::{has_card_details, spec_card_details, CardDetails, Target};
use crate::player::comms::{
    asked, exchanges_added, lemma_no_questions_added, lemma_question_added, lemma_sent_after_keeps, lemma_sent_after_trans, lemma_sent_part,
    lemma_sent_part_longer, lemma_sent_part_within, new_answers, no_questions_added, play_choices, questions, same_slot, sent_after,
    sent_more, sent_part, tallied, target_answer, target_choices,
};
use crate::player::message::{Choice, PotionAction, Prompt, StsError, StsMessage};
use crate::systems::base::potion_system::{
    action_slot, health_after, held_count, lemma_held_count_empty_slot, lemma_potion_actions_name_held, names_held_potion,
    potion_actions,
};
use crate::player::state::{spec_min, spec_saturating_add, spec_saturating_sub, PlayerStateView};
use crate::rng::java::{java_initial_scramble, java_shuffle};
use crate::rng::seed::Seed;
use crate::rng::sts::{range_draw, rng_step, seeded_state, RngState, StsRandom};
use crate::sim::enemy::EnemyStatus;
use crate::sim::player::Player;
use crate::types::{AttackDamage, Block, EnemyIndex, HandIndex, StackCount};

verus! {

broadcast use vstd::seq_lib::group_to_multiset_ensures;

/// The player in a combat: the player (state and channels), the state of the combat, and the
/// generators for shuffles and for random costs.
pub struct PlayerInCombat {
    pub player: Player,
    pub state: PlayerCombatState,
    pub turn_number: usize,
    pub shuffle_rng: StsRandom,
    pub card_randomizer_rng: StsRandom,
    pub cards_drawn_each_turn: usize,
    pub card_just_played: Option<HandIndex>,
}

/// What the player chose to do in combat.
#[derive(Clone, Copy, Debug)]
pub enum CombatAction {
    EndTurn,
    PlayCard(CardInCombat),
    PlayCardAgainstEnemy(CardInCombat, EnemyIndex),
}

/// The pile with every Blood for Blood costing one less for the rest of the combat.
pub open spec fn blood_cheaper(pile: Seq<CardInCombat>) -> Seq<CardInCombat> {
    pile.map_values(|c: CardInCombat| if c.card == Card::BloodForBlood {
        CardInCombat { cost_this_combat: spec_saturating_sub(c.cost_this_combat, 1), ..c }
    } else {
        c
    })
}

/// The pile with the costs for this turn reset to the costs for the combat.
pub open spec fn costs_reset(pile: Seq<CardInCombat>) -> Seq<CardInCombat> {
    pile.map_values(|c: CardInCombat| CardInCombat { cost_this_turn: c.cost_this_combat, ..c })
}

/// A stable partition of a pile: the cards that are not innate, then the innate ones (which
/// end up on top, as cards are drawn from the end).
pub open spec fn innate_last(pile: Seq<CardInCombat>) -> Seq<CardInCombat> {
    pile.filter(|c: CardInCombat| !spec_is_innate(c.card)) + pile.filter(|c: CardInCombat| spec_is_innate(c.card))
}

/// What drawing cards works on: the hand, the draw pile and the discard pile, the shuffle
/// generator, and the generator of random costs.
pub struct DrawState {
    pub hand: Seq<CardInCombat>,
    pub draw: Seq<CardInCombat>,
    pub discard: Seq<CardInCombat>,
    pub shuffle: RngState,
    pub costs: RngState,
}

/// The cards left to draw: the draw pile and the discard pile.
pub open spec fn undrawn(s: DrawState) -> nat {
    s.draw.len() + s.discard.len()
}

/// A drawn card as the first `i` conditions leave it, with the generator of random costs after
/// them and the number of extra cards to draw: each Confused sets both of the card's costs to a
/// draw from 0 to 3, each Evolve adds its stacks when the card is a status card.
pub open spec fn card_as_drawn(conditions: Seq<PlayerCondition>, i: int, card: CardInCombat, costs: RngState) -> (CardInCombat, RngState, nat)
    decreases i,
{
    if i <= 0 {
        (card, costs, 0)
    } else {
        let (c, r, extra) = card_as_drawn(conditions, i - 1, card, costs);
        match conditions[i - 1] {
            PlayerCondition::Confused => {
                let (r2, v) = range_draw(r, 0, 4);
                (CardInCombat { cost_this_combat: v as u32, cost_this_turn: v as u32, ..c }, r2, extra)
            },
            PlayerCondition::Evolve(stacks) => if spec_card_type(c.card) == CardType::Status {
                (c, r, extra + stacks as nat)
            } else {
                (c, r, extra)
            },
            _ => (c, r, extra),
        }
    }
}

/// Drawing one card: the top of the draw pile, or, when the draw pile is empty, the top of the
/// discard pile shuffled the game's way (one draw of the shuffle generator) into the draw pile;
/// nothing when both are empty. A discard pile longer than the shuffle takes (2^31 cards) is
/// left as it is; no draw gets there.
pub open spec fn draw_one_card(conditions: Seq<PlayerCondition>, s: DrawState) -> DrawState
    decreases undrawn(s), 1nat, 0nat,
{
    if s.draw.len() > 0 {
        card_into_hand(conditions, DrawState { draw: s.draw.drop_last(), ..s }, s.draw.last())
    } else if s.discard.len() <= 0x8000_0000 {
        let (next, raw) = rng_step(s.shuffle);
        let shuffled = java_shuffle(s.discard, java_initial_scramble(raw), s.discard.len()).0;
        proof {
            crate::rng::java::lemma_java_shuffle_keeps_multiset(s.discard, java_initial_scramble(raw), s.discard.len());
        }
        if shuffled.len() > 0 {
            card_into_hand(
                conditions,
                DrawState { draw: shuffled.drop_last(), discard: Seq::empty(), shuffle: next, ..s },
                shuffled.last(),
            )
        } else {
            DrawState { draw: shuffled, discard: Seq::empty(), shuffle: next, ..s }
        }
    } else {
        s
    }
}

/// A drawn card goes into the hand as the conditions leave it, then the extra cards that Evolve
/// asks for are drawn.
pub open spec fn card_into_hand(conditions: Seq<PlayerCondition>, s: DrawState, card: CardInCombat) -> DrawState
    decreases undrawn(s), 3nat, 0nat,
{
    let (c, costs, extra) = card_as_drawn(conditions, conditions.len() as int, card, s.costs);
    extra_draws(conditions, DrawState { hand: s.hand.push(c), costs, ..s }, extra)
}

/// `n` more cards drawn one after the other.
pub open spec fn extra_draws(conditions: Seq<PlayerCondition>, s: DrawState, n: nat) -> DrawState
    decreases undrawn(s), 2nat, n,
{
    if n == 0 {
        s
    } else {
        let s1 = draw_one_card(conditions, s);
        if undrawn(s1) <= undrawn(s) {
            extra_draws(conditions, s1, (n - 1) as nat)
        } else {
            s1
        }
    }
}

/// `n` cards drawn one after the other.
pub open spec fn draws(conditions: Seq<PlayerCondition>, s: DrawState, n: nat) -> DrawState
    decreases n,
{
    if n == 0 {
        s
    } else {
        draw_one_card(conditions, draws(conditions, s, (n - 1) as nat))
    }
}

/// What the client is told when one card is drawn (see `draw_one_card`): the shuffle of the
/// discard pile into the draw pile when the draw pile is empty, then what putting the card in
/// the hand tells.
pub open spec fn draw_one_messages(conditions: Seq<PlayerCondition>, s: DrawState) -> Seq<StsMessage>
    decreases undrawn(s), 1nat, 0nat,
{
    if s.draw.len() > 0 {
        into_hand_messages(conditions, DrawState { draw: s.draw.drop_last(), ..s }, s.draw.last())
    } else if s.discard.len() <= 0x8000_0000 {
        let (next, raw) = rng_step(s.shuffle);
        let shuffled = java_shuffle(s.discard, java_initial_scramble(raw), s.discard.len()).0;
        proof {
            crate::rng::java::lemma_java_shuffle_keeps_multiset(s.discard, java_initial_scramble(raw), s.discard.len());
        }
        if shuffled.len() > 0 {
            seq![StsMessage::ShufflingDiscardToDraw] + into_hand_messages(
                conditions,
                DrawState { draw: shuffled.drop_last(), discard: Seq::empty(), shuffle: next, ..s },
                shuffled.last(),
            )
        } else {
            seq![StsMessage::ShufflingDiscardToDraw]
        }
    } else {
        Seq::empty()
    }
}

/// What the client is told when a drawn card goes into the hand: what the extra draws that
/// Evolve asks for tell, then the card, with the index of the last card of the hand by then.
pub open spec fn into_hand_messages(conditions: Seq<PlayerCondition>, s: DrawState, card: CardInCombat) -> Seq<StsMessage>
    decreases undrawn(s), 3nat, 0nat,
{
    let (c, costs, extra) = card_as_drawn(conditions, conditions.len() as int, card, s.costs);
    let s1 = DrawState { hand: s.hand.push(c), costs, ..s };
    extra_draw_messages(conditions, s1, extra).push(
        StsMessage::CardDrawn((extra_draws(conditions, s1, extra).hand.len() - 1) as usize, card.card),
    )
}

/// What the client is told when `n` more cards are drawn one after the other.
pub open spec fn extra_draw_messages(conditions: Seq<PlayerCondition>, s: DrawState, n: nat) -> Seq<StsMessage>
    decreases undrawn(s), 2nat, n,
{
    if n == 0 {
        Seq::empty()
    } else {
        let s1 = draw_one_card(conditions, s);
        if undrawn(s1) <= undrawn(s) {
            draw_one_messages(conditions, s) + extra_draw_messages(conditions, s1, (n - 1) as nat)
        } else {
            draw_one_messages(conditions, s)
        }
    }
}

/// What the client is told when `n` cards are drawn one after the other.
pub open spec fn draws_messages(conditions: Seq<PlayerCondition>, s: DrawState, n: nat) -> Seq<StsMessage>
    decreases n,
{
    if n == 0 {
        Seq::empty()
    } else {
        draws_messages(conditions, s, (n - 1) as nat) + draw_one_messages(conditions, draws(conditions, s, (n - 1) as nat))
    }
}

/// The messages of fewer draws come first among those of more draws.
pub proof fn lemma_draws_messages_prefix(conditions: Seq<PlayerCondition>, s: DrawState, j: nat, n: nat)
    requires
        j <= n,
    ensures
        draws_messages(conditions, s, j).len() <= draws_messages(conditions, s, n).len(),
        draws_messages(conditions, s, n).take(draws_messages(conditions, s, j).len() as int) == draws_messages(conditions, s, j),
    decreases n,
{
    if j < n {
        lemma_draws_messages_prefix(conditions, s, j, (n - 1) as nat);
        let a = draws_messages(conditions, s, (n - 1) as nat);
        let b = draw_one_messages(conditions, draws(conditions, s, (n - 1) as nat));
        assert((a + b).take(draws_messages(conditions, s, j).len() as int) =~= a.take(draws_messages(conditions, s, j).len() as int));
    } else {
        assert(draws_messages(conditions, s, n).take(draws_messages(conditions, s, n).len() as int) =~= draws_messages(conditions, s, n));
    }
}

/// What the client is told when the player's turn starts: the cards drawn, then the new block
/// when there was some.
pub open spec fn turn_start_messages(p: &PlayerInCombat) -> Seq<StsMessage> {
    draws_messages(p.state.conditions@, draw_state(p), p.cards_drawn_each_turn as nat)
        + if p.state.block > 0 { seq![StsMessage::Block(0)] } else { Seq::empty() }
}

/// What drawing works on in a combat.
pub open spec fn draw_state(p: &PlayerInCombat) -> DrawState {
    DrawState {
        hand: p.state.hand@,
        draw: p.state.draw_pile@,
        discard: p.state.discard_pile@,
        shuffle: p.shuffle_rng@,
        costs: p.card_randomizer_rng@,
    }
}

/// Everything of the combat state but the piles a draw works on (and the random costs) is as it
/// was.
pub open spec fn draw_keeps(before: &PlayerCombatState, after: &PlayerCombatState) -> bool {
    &&& after.exhaust_pile@ == before.exhaust_pile@
    &&& after.energy == before.energy
    &&& after.block == before.block
    &&& after.strength == before.strength
    &&& after.dexterity == before.dexterity
    &&& after.conditions@ == before.conditions@
    &&& after.hp_loss_count == before.hp_loss_count
}

/// The total Evolve stacks, which must fit in `u32` for the extra draws to be counted.
pub open spec fn evolve_total(conditions: Seq<PlayerCondition>) -> int
    decreases conditions.len(),
{
    if conditions.len() == 0 {
        0
    } else {
        evolve_total(conditions.drop_last()) + match conditions.last() {
            PlayerCondition::Evolve(s) => s as int,
            _ => 0,
        }
    }
}

/// Whether drawing is defined for the conditions: Fire Breathing is not simulated, and the
/// Evolve stacks must fit in `u32`.
pub open spec fn can_draw(conditions: Seq<PlayerCondition>) -> bool {
    &&& forall|i: int| 0 <= i < conditions.len() ==> !(#[trigger] conditions[i] is FireBreathing)
    &&& evolve_total(conditions) <= u32::MAX
}

/// The Evolve stacks of a prefix of the conditions are at most those of all of them.
proof fn lemma_evolve_total_prefix(s: Seq<PlayerCondition>, i: int)
    requires
        0 <= i <= s.len(),
    ensures
        0 <= evolve_total(s.subrange(0, i)) <= evolve_total(s),
    decreases s.len(),
{
    if i == s.len() {
        assert(s.subrange(0, i) == s);
        if s.len() > 0 {
            lemma_evolve_total_prefix(s.drop_last(), i - 1);
            assert(s.drop_last().subrange(0, i - 1) == s.drop_last());
        }
    } else {
        lemma_evolve_total_prefix(s.drop_last(), i);
        assert(s.drop_last().subrange(0, i) == s.subrange(0, i));
    }
}

/// The stacks of the last Rage among the conditions, if there is one.
pub open spec fn last_rage(s: Seq<PlayerCondition>) -> Option<StackCount>
    decreases s.len(),
{
    if s.len() == 0 {
        None
    } else if let PlayerCondition::Rage(k) = s.last() {
        Some(k)
    } else {
        last_rage(s.drop_last())
    }
}

impl PlayerInCombat {
    /// Enters a combat on the floor with seed `seed_for_floor`: the deck is shuffled the game's
    /// way (one draw of a shuffle generator seeded with it) and innate cards are put on top; 7
    /// cards are drawn each turn with Snecko Eye, 5 otherwise.
    pub fn new(player: Player, seed_for_floor: Seed) -> (r: PlayerInCombat)
        requires
            player.state().deck.len() <= 0x8000_0000,
        ensures
            r.player.state() == player.state(),
            r.player.sent() == player.sent(),
            ({
                let cards = crate::components::cards_in_combat(player.state().deck);
                let (next, raw) = rng_step(seeded_state(seed_for_floor.value));
                &&& r.state.draw_pile@ == innate_last(java_shuffle(cards, java_initial_scramble(raw), cards.len()).0)
                &&& r.shuffle_rng@ == next
            }),
            r.state.hand@.len() == 0,
            r.state.discard_pile@.len() == 0,
            r.state.exhaust_pile@.len() == 0,
            r.state.conditions@.len() == 0,
            r.state.hp_loss_count == 0,
            r.cards_drawn_each_turn == (if player.state().relics.contains(Relic::SneckoEye) { 7usize } else { 5usize }),
            r.card_just_played is None,
            r.turn_number == 0,
    {
        let mut state = PlayerCombatState::new(player.state.deck());
        let mut shuffle_rng = StsRandom::from_seed(seed_for_floor.value);
        let card_randomizer_rng = StsRandom::from_seed(seed_for_floor.value);
        shuffle_rng.java_compat_shuffle(&mut state.draw_pile);
        let pile = innate_to_top(&state.draw_pile);
        state.draw_pile = pile;
        let cards_drawn_each_turn: usize = if player.state.has_relic(Relic::SneckoEye) { 7 } else { 5 };
        PlayerInCombat {
            player,
            state,
            turn_number: 0,
            shuffle_rng,
            card_randomizer_rng,
            cards_drawn_each_turn,
            card_just_played: None,
        }
    }

    /// Takes damage that block can absorb: block goes first (the client is told what was
    /// blocked, the block lost and the new block), the rest is lost in hit points.
    pub fn take_blockable_damage(&mut self, amount: AttackDamage) -> (r: Result<(), StsError>)
        requires
            old(self).state.hp_loss_count < usize::MAX,
        ensures
            r is Ok ==> final(self).state.block == spec_saturating_sub(old(self).state.block, amount),
            r is Ok ==> ({
                let through = spec_saturating_sub(amount, old(self).state.block);
                lost_hp(old(self), final(self), through)
            }),
            r is Ok ==> final(self).player.sent() == old(self).player.sent() + blockable_damage_messages(old(self).state.block,
                old(self).player.state().hp, old(self).player.state().hp_max, amount),
            r matches Err(e) ==> e == StsError::Disconnected && sent_part(old(self).player.sent(), final(self).player.sent(),
                blockable_damage_messages(old(self).state.block, old(self).player.state().hp, old(self).player.state().hp_max, amount)),
            tallied(old(self).player.comms, final(self).player.comms, r is Err),
    {
        let ghost s0 = self.player.comms.sent();
        let ghost msgs = blockable_damage_messages(self.state.block, self.player.state@.hp, self.player.state@.hp_max, amount);
        if amount <= self.state.block {
            self.state.block = self.state.block - amount;
            let r1 = self.player.comms.send_damage_blocked(amount);
            if r1.is_err() {
                proof { assert(self.player.comms.sent() =~= s0 + msgs.take(1)); lemma_sent_part(s0, msgs, 1); }
                return r1;
            }
            let r2 = self.player.comms.send_block_lost(amount);
            if r2.is_err() {
                proof { assert(self.player.comms.sent() =~= s0 + msgs.take(2)); lemma_sent_part(s0, msgs, 2); }
                return r2;
            }
            let r = self.player.comms.send_block(self.state.block);
            proof { assert(self.player.comms.sent() =~= s0 + msgs.take(3)); assert(msgs.take(3) =~= msgs); lemma_sent_part(s0, msgs, 3); }
            if r.is_ok() {
                assert(lost_hp(old(self), self, 0)) by {
                    assert(self.state.draw_pile@ =~= old(self).state.draw_pile@);
                }
            }
            r
        } else if self.state.block > 0 {
            let remaining_damage = amount - self.state.block;
            let r1 = self.player.comms.send_damage_blocked(self.state.block);
            if r1.is_err() {
                proof { assert(self.player.comms.sent() =~= s0 + msgs.take(1)); lemma_sent_part(s0, msgs, 1); }
                return r1;
            }
            let r2 = self.player.comms.send_block_lost(self.state.block);
            if r2.is_err() {
                proof { assert(self.player.comms.sent() =~= s0 + msgs.take(2)); lemma_sent_part(s0, msgs, 2); }
                return r2;
            }
            self.state.block = 0;
            let r3 = self.player.comms.send_block(0);
            if r3.is_err() {
                proof { assert(self.player.comms.sent() =~= s0 + msgs.take(3)); lemma_sent_part(s0, msgs, 3); }
                return r3;
            }
            let ghost s3 = self.player.comms.sent();
            let r = self.take_unblockable_damage(remaining_damage);
            proof {
                if self.player.comms.sent().len() == s3.len() + 1 {
                    assert(self.player.comms.sent() =~= s0 + msgs.take(4));
                    lemma_sent_part(s0, msgs, 4);
                } else {
                    assert(self.player.comms.sent() =~= s0 + msgs.take(5));
                    assert(msgs.take(5) =~= msgs);
                    lemma_sent_part(s0, msgs, 5);
                }
            }
            r
        } else {
            let r = self.take_unblockable_damage(amount);
            proof {
                if self.player.comms.sent().len() == s0.len() + 1 {
                    assert(self.player.comms.sent() =~= s0 + msgs.take(1));
                    lemma_sent_part(s0, msgs, 1);
                } else {
                    assert(self.player.comms.sent() =~= s0 + msgs.take(2));
                    assert(msgs.take(2) =~= msgs);
                    lemma_sent_part(s0, msgs, 2);
                }
            }
            r
        }
    }
}

/// What the client is told when the player, with `block` block and `hp` of `hp_max` hit points,
/// takes `amount` of damage that block can absorb: what was blocked, the block lost and the new
/// block, then the damage that got through and the new health.
pub open spec fn blockable_damage_messages(block: Block, hp: u32, hp_max: u32, amount: AttackDamage) -> Seq<StsMessage> {
    if amount <= block {
        seq![StsMessage::DamageBlocked(amount), StsMessage::BlockLost(amount), StsMessage::Block((block - amount) as u32)]
    } else if block > 0 {
        seq![StsMessage::DamageBlocked(block), StsMessage::BlockLost(block), StsMessage::Block(0)]
            + unblockable_damage_messages(hp, hp_max, (amount - block) as u32)
    } else {
        unblockable_damage_messages(hp, hp_max, amount)
    }
}

/// What the client is told when the player, with `hp` of `hp_max` hit points, takes `amount`
/// of damage that block cannot absorb: the damage, then the new health.
pub open spec fn unblockable_damage_messages(hp: u32, hp_max: u32, amount: AttackDamage) -> Seq<StsMessage> {
    seq![StsMessage::DamageTaken(amount), StsMessage::Health((spec_saturating_sub(hp, amount), hp_max))]
}

/// `after` is `before` having lost `amount` hit points: the player's hit points drop
/// (saturating); when some were lost, the loss is counted and every Blood for Blood costs one
/// less for the rest of the combat.
pub open spec fn lost_hp(before: &PlayerInCombat, after: &PlayerInCombat, amount: AttackDamage) -> bool {
    &&& after.player.state() == (PlayerStateView { hp: spec_saturating_sub(before.player.state().hp, amount), ..before.player.state() })
    &&& if amount > 0 {
        &&& after.state.hp_loss_count == before.state.hp_loss_count + 1
        &&& after.state.draw_pile@ == blood_cheaper(before.state.draw_pile@)
        &&& after.state.discard_pile@ == blood_cheaper(before.state.discard_pile@)
        &&& after.state.hand@ == blood_cheaper(before.state.hand@)
        &&& after.state.exhaust_pile@ == blood_cheaper(before.state.exhaust_pile@)
    } else {
        &&& after.state.hp_loss_count == before.state.hp_loss_count
        &&& after.state.draw_pile@ == before.state.draw_pile@
        &&& after.state.discard_pile@ == before.state.discard_pile@
        &&& after.state.hand@ == before.state.hand@
        &&& after.state.exhaust_pile@ == before.state.exhaust_pile@
    }
}

/// Blood for Blood in a pile costs one less for the rest of the combat.
fn make_blood_cheaper(pile: &mut Vec<CardInCombat>)
    ensures
        final(pile)@ == blood_cheaper(old(pile)@),
{
    let mut i: usize = 0;
    while i < pile.len()
        invariant
            i <= pile@.len(),
            pile@.len() == old(pile)@.len(),
            forall|k: int| 0 <= k < i ==> #[trigger] pile@[k] == blood_cheaper(old(pile)@)[k],
            forall|k: int| i <= k < pile@.len() ==> #[trigger] pile@[k] == old(pile)@[k],
        decreases pile@.len() - i,
    {
        let card = pile[i];
        if card.card == Card::BloodForBlood {
            pile.set(i, CardInCombat { cost_this_combat: card.cost_this_combat.saturating_sub(1), ..card });
        }
        i = i + 1;
    }
    assert(pile@ =~= blood_cheaper(old(pile)@));
}

/// A stable partition of the pile: the cards that are not innate, then the innate ones.
fn innate_to_top(pile: &Vec<CardInCombat>) -> (r: Vec<CardInCombat>)
    ensures
        r@ == innate_last(pile@),
{
    let mut rest: Vec<CardInCombat> = Vec::new();
    let mut innate: Vec<CardInCombat> = Vec::new();
    let mut i: usize = 0;
    while i < pile.len()
        invariant
            i <= pile@.len(),
            rest@ == pile@.subrange(0, i as int).filter(|c: CardInCombat| !spec_is_innate(c.card)),
            innate@ == pile@.subrange(0, i as int).filter(|c: CardInCombat| spec_is_innate(c.card)),
        decreases pile@.len() - i,
    {
        let c = pile[i];
        proof {
            let s = pile@.subrange(0, i as int + 1);
            assert(s.drop_last() == pile@.subrange(0, i as int));
            assert(s.last() == c);
            reveal_with_fuel(Seq::filter, 1);
        }
        if c.card.is_innate() {
            innate.push(c);
        } else {
            rest.push(c);
        }
        i = i + 1;
    }
    assert(pile@.subrange(0, pile@.len() as int) == pile@);
    rest.append(&mut innate);
    rest
}

impl PlayerInCombat {
    /// Takes damage that block cannot absorb: the client is told the damage; when hit points
    /// are lost, the loss is counted and every Blood for Blood costs one less; then the player
    /// loses the hit points and the client is told the new health.
    pub fn take_unblockable_damage(&mut self, amount: AttackDamage) -> (r: Result<(), StsError>)
        requires
            old(self).state.hp_loss_count < usize::MAX,
        ensures
            final(self).state.block == old(self).state.block,
            r is Ok ==> lost_hp(old(self), final(self), amount),
            lost_hp(old(self), final(self), amount) && final(self).player.sent() == old(self).player.sent()
                + unblockable_damage_messages(old(self).player.state().hp, old(self).player.state().hp_max, amount)
                || r is Err && final(self).player.state() == old(self).player.state() && final(self).state == old(self).state
                    && final(self).player.sent() == old(self).player.sent().push(StsMessage::DamageTaken(amount)),
            r is Ok ==> final(self).player.sent().len() == old(self).player.sent().len() + 2,
            r matches Err(e) ==> e == StsError::Disconnected,
            tallied(old(self).player.comms, final(self).player.comms, r is Err),
    {
        let ghost s0 = self.player.comms.sent();
        self.player.comms.send_damage_taken(amount)?;
        if amount > 0 {
            self.state.hp_loss_count = self.state.hp_loss_count + 1;
            make_blood_cheaper(&mut self.state.draw_pile);
            make_blood_cheaper(&mut self.state.discard_pile);
            make_blood_cheaper(&mut self.state.hand);
            make_blood_cheaper(&mut self.state.exhaust_pile);
        }
        let r = self.player.decrease_hp(amount);
        assert(self.player.comms.sent() =~= s0 + unblockable_damage_messages(old(self).player.state().hp,
            old(self).player.state().hp_max, amount));
        r
    }

    /// Gains block (saturating); the client is told the block gained and the new block.
    pub fn gain_block(&mut self, amount: Block) -> (r: Result<(), StsError>)
        ensures
            r is Ok ==> final(self).state.block == spec_saturating_add(old(self).state.block, amount),
            final(self).state == (PlayerCombatState { block: final(self).state.block, ..old(self).state }),
            final(self).player.state() == old(self).player.state(),
            r is Ok ==> final(self).player.sent() == old(self).player.sent().push(StsMessage::BlockGained(amount))
                .push(StsMessage::Block(final(self).state.block)),
            r is Err ==> final(self).state.block == old(self).state.block
                && final(self).player.sent() == old(self).player.sent().push(StsMessage::BlockGained(amount))
                || final(self).state.block == spec_saturating_add(old(self).state.block, amount)
                && final(self).player.sent() == old(self).player.sent().push(StsMessage::BlockGained(amount))
                    .push(StsMessage::Block(final(self).state.block)),
            r matches Err(e) ==> e == StsError::Disconnected,
            tallied(old(self).player.comms, final(self).player.comms, r is Err),
    {
        self.player.comms.send_block_gained(amount)?;
        self.state.block = self.state.block.saturating_add(amount);
        self.player.comms.send_block(self.state.block)
    }
}

/// The cards among the first `n` of the hand whose cost for the combat the energy pays for,
/// with their hand indices.
pub open spec fn affordable_in(hand: Seq<CardInCombat>, energy: u32, n: int) -> Seq<(HandIndex, Card)>
    decreases n,
{
    if n <= 0 {
        Seq::empty()
    } else {
        let before = affordable_in(hand, energy, n - 1);
        if hand[n - 1].cost_this_combat <= energy {
            before.push(((n - 1) as usize, hand[n - 1].card))
        } else {
            before
        }
    }
}

/// What the client is told first when a combat starts: that it starts, then the energy, the
/// health, the strength and the dexterity.
pub open spec fn combat_start_messages(p: &PlayerInCombat) -> Seq<StsMessage> {
    seq![
        StsMessage::StartingCombat,
        StsMessage::Energy(p.state.energy),
        StsMessage::Health((p.player.state().hp, p.player.state().hp_max)),
        StsMessage::Strength(p.state.strength),
        StsMessage::Dexterity(p.state.dexterity),
    ]
}

/// The potions this combat can drink: Blood Potion, Dexterity Potion and Fruit Juice.
pub open spec fn drinkable_in_combat(p: Potion) -> bool {
    p == Potion::BloodPotion || p == Potion::DexterityPotion || p == Potion::FruitJuice
}

/// The dexterity after a potion action: Dexterity Potion adds 2 (saturating).
pub open spec fn dexterity_after(action: PotionAction, dexterity: i32) -> i32 {
    match action {
        PotionAction::Drink(_, p) => if p == Potion::DexterityPotion {
            if dexterity <= i32::MAX - 2 { (dexterity + 2) as i32 } else { i32::MAX }
        } else {
            dexterity
        },
        PotionAction::Discard(_, _) => dexterity,
    }
}

/// The options of the combat question: the affordable cards with their hand indices, the
/// actions on the potions held (any of them can be drunk in combat), and End Turn.
pub open spec fn combat_menu(hand: Seq<CardInCombat>, energy: u32, potions: Seq<Option<Potion>>) -> Seq<Choice> {
    (affordable_in(hand, energy, hand.len() as int).map_values(|p: (HandIndex, Card)| Choice::PlayCardFromHand(p.0, p.1))
        + potion_actions(potions, true)).push(Choice::EndTurn)
}

/// What choosing the next action in combat comes to: the potion slots, hit points, maximum and
/// dexterity after it, the card just played when one was picked, the questions asked in order,
/// and the result.
pub struct MenuOutcome {
    pub potions: Seq<Option<Potion>>,
    pub hp: u32,
    pub hp_max: u32,
    pub dexterity: i32,
    pub played: Option<HandIndex>,
    pub asked: Seq<(Prompt, Seq<Choice>)>,
    pub result: Result<CombatAction, StsError>,
}

/// An outcome after more questions: its questions come after `asked`.
pub open spec fn menu_with_prefix(asked: Seq<(Prompt, Seq<Choice>)>, o: Option<MenuOutcome>) -> Option<MenuOutcome> {
    match o {
        Some(x) => Some(MenuOutcome { asked: asked + x.asked, ..x }),
        None => None,
    }
}

/// What choosing the next action comes to for the client's `answers`: each answer to the
/// combat question (over `combat_menu`) picks a card, a potion action, or End Turn. A potion
/// action empties its slot (drinking heals as `health_after` says, or adds dexterity as
/// `dexterity_after` says) and the question is asked again; a card becomes the card just played
/// and is played, against the enemy named by one more answer, to the target question, when it
/// needs a target; an answer naming no option gives `InvalidChoice`. `None` when the answers do
/// not fit (too few or too many).
pub open spec fn menu_rounds(
    hand: Seq<CardInCombat>,
    energy: u32,
    enemies: Seq<Option<EnemyStatus>>,
    potions: Seq<Option<Potion>>,
    hp: u32,
    hp_max: u32,
    dexterity: i32,
    answers: Seq<usize>,
) -> Option<MenuOutcome>
    decreases answers.len(),
{
    if answers.len() == 0 {
        None
    } else {
        let menu = combat_menu(hand, energy, potions);
        let q = (Prompt::CombatAction, menu);
        let a = answers[0];
        let rest = answers.drop_first();
        if a >= menu.len() {
            if rest.len() == 0 {
                Some(MenuOutcome { potions, hp, hp_max, dexterity, played: None, asked: seq![q], result: Err(StsError::InvalidChoice) })
            } else {
                None
            }
        } else {
            match menu[a as int] {
                Choice::PlayCardFromHand(i, _) => if spec_card_details(hand[i as int].card).2 == Target::OneEnemy {
                    if rest.len() == 1 {
                        Some(MenuOutcome {
                            potions,
                            hp,
                            hp_max,
                            dexterity,
                            played: Some(i),
                            asked: seq![q, (Prompt::TargetEnemy, target_choices(enemies, enemies.len() as int))],
                            result: match target_answer(enemies, rest[0]) {
                                Ok(e) => Ok(CombatAction::PlayCardAgainstEnemy(hand[i as int], e)),
                                Err(e) => Err(e),
                            },
                        })
                    } else {
                        None
                    }
                } else if rest.len() == 0 {
                    Some(MenuOutcome { potions, hp, hp_max, dexterity, played: Some(i), asked: seq![q], result: Ok(CombatAction::PlayCard(hand[i as int])) })
                } else {
                    None
                },
                Choice::PotionAction(act) => menu_with_prefix(seq![q], menu_rounds(
                    hand,
                    energy,
                    enemies,
                    potions.update(action_slot(act) as int, None),
                    health_after(act, hp, hp_max).0,
                    health_after(act, hp, hp_max).1,
                    dexterity_after(act, dexterity),
                    rest,
                )),
                _ => if rest.len() == 0 {
                    Some(MenuOutcome { potions, hp, hp_max, dexterity, played: None, asked: seq![q], result: Ok(CombatAction::EndTurn) })
                } else {
                    None
                },
            }
        }
    }
}

/// One more round, in which the client picked a potion action.
proof fn lemma_menu_round(
    hand: Seq<CardInCombat>, energy: u32, enemies: Seq<Option<EnemyStatus>>,
    p0: Seq<Option<Potion>>, hp0: u32, max0: u32, dex0: i32,
    done: Seq<usize>, qs: Seq<(Prompt, Seq<Choice>)>,
    p: Seq<Option<Potion>>, hp: u32, max: u32, dex: i32,
    a: usize,
    p2: Seq<Option<Potion>>, hp2: u32, max2: u32, dex2: i32,
)
    requires
        forall|rest: Seq<usize>| #[trigger] menu_rounds(hand, energy, enemies, p0, hp0, max0, dex0, done + rest)
            == menu_with_prefix(qs, menu_rounds(hand, energy, enemies, p, hp, max, dex, rest)),
        a < combat_menu(hand, energy, p).len(),
        combat_menu(hand, energy, p)[a as int] matches Choice::PotionAction(act) && p2 == p.update(action_slot(act) as int, None)
            && hp2 == health_after(act, hp, max).0 && max2 == health_after(act, hp, max).1 && dex2 == dexterity_after(act, dex),
    ensures
        forall|rest: Seq<usize>| #[trigger] menu_rounds(hand, energy, enemies, p0, hp0, max0, dex0, done.push(a) + rest)
            == menu_with_prefix(qs.push((Prompt::CombatAction, combat_menu(hand, energy, p))),
                menu_rounds(hand, energy, enemies, p2, hp2, max2, dex2, rest)),
{
    let q = (Prompt::CombatAction, combat_menu(hand, energy, p));
    assert forall|rest: Seq<usize>| #[trigger] menu_rounds(hand, energy, enemies, p0, hp0, max0, dex0, done.push(a) + rest)
        == menu_with_prefix(qs.push(q), menu_rounds(hand, energy, enemies, p2, hp2, max2, dex2, rest)) by {
        let longer = seq![a] + rest;
        assert(done + longer =~= done.push(a) + rest);
        assert(longer[0] == a);
        assert(longer.drop_first() =~= rest);
        if let Some(x) = menu_rounds(hand, energy, enemies, p2, hp2, max2, dex2, rest) {
            assert(qs + (seq![q] + x.asked) =~= qs.push(q) + x.asked);
        }
    }
}

/// A last round: the client ended the turn, named no option, or picked a card (and, for a card
/// that needs one, answered the target question with `extra`).
proof fn lemma_menu_last_round(
    hand: Seq<CardInCombat>, energy: u32, enemies: Seq<Option<EnemyStatus>>,
    p0: Seq<Option<Potion>>, hp0: u32, max0: u32, dex0: i32,
    done: Seq<usize>, qs: Seq<(Prompt, Seq<Choice>)>,
    p: Seq<Option<Potion>>, hp: u32, max: u32, dex: i32,
    a: usize, extra: Seq<usize>, played: Option<HandIndex>, asked: Seq<(Prompt, Seq<Choice>)>,
    result: Result<CombatAction, StsError>,
)
    requires
        forall|rest: Seq<usize>| #[trigger] menu_rounds(hand, energy, enemies, p0, hp0, max0, dex0, done + rest)
            == menu_with_prefix(qs, menu_rounds(hand, energy, enemies, p, hp, max, dex, rest)),
        menu_rounds(hand, energy, enemies, p, hp, max, dex, seq![a] + extra) == Some(MenuOutcome {
            potions: p, hp, hp_max: max, dexterity: dex, played, asked, result }),
    ensures
        menu_rounds(hand, energy, enemies, p0, hp0, max0, dex0, done.push(a) + extra) == Some(MenuOutcome {
            potions: p, hp, hp_max: max, dexterity: dex, played, asked: qs + asked, result }),
{
    assert(done + (seq![a] + extra) =~= done.push(a) + extra);
}

/// What an entry of `affordable_in` names: a card of the hand, by its index, that the energy
/// pays for.
proof fn lemma_affordable_in(hand: Seq<CardInCombat>, energy: u32, n: int, k: int)
    requires
        0 <= n <= hand.len(),
        hand.len() <= usize::MAX,
        0 <= k < affordable_in(hand, energy, n).len(),
    ensures
        affordable_in(hand, energy, n)[k].0 < n,
        hand[affordable_in(hand, energy, n)[k].0 as int].card == affordable_in(hand, energy, n)[k].1,
        hand[affordable_in(hand, energy, n)[k].0 as int].cost_this_combat <= energy,
    decreases n,
{
    if n > 0 {
        let before = affordable_in(hand, energy, n - 1);
        if k < before.len() {
            lemma_affordable_in(hand, energy, n - 1, k);
        }
    }
}

/// Adds the actions on the potions held, in combat, to the options.
fn add_combat_potion_choices(potions: &[Option<Potion>], choices: &mut Vec<Choice>)
    ensures
        final(choices)@ == old(choices)@ + potion_actions(potions@, true),
{
    let mut i: usize = 0;
    let ghost start = choices@;
    while i < potions.len()
        invariant
            i <= potions@.len(),
            start == old(choices)@,
            choices@ == start + potion_actions(potions@.subrange(0, i as int), true),
        decreases potions@.len() - i,
    {
        let ghost pre = potions@.subrange(0, i as int + 1);
        assert(pre.drop_last() == potions@.subrange(0, i as int));
        if let Some(potion) = potions[i] {
            choices.push(Choice::PotionAction(PotionAction::Discard(i, potion)));
            choices.push(Choice::PotionAction(PotionAction::Drink(i, potion)));
        }
        i = i + 1;
    }
    assert(potions@.subrange(0, potions@.len() as int) == potions@);
}

/// After `before`, the client was told the strength, then, unless a send failed, the dexterity
/// and the conditions.
pub open spec fn told_ticked(before: Seq<StsMessage>, after: Seq<StsMessage>, strength: i32, dexterity: i32,
    conditions: Seq<PlayerCondition>) -> bool {
    let k = before.len() as int;
    &&& sent_more(before, after)
    &&& after.len() <= k + 3
    &&& after[k] == StsMessage::Strength(strength)
    &&& after.len() > k + 1 ==> after[k + 1] == StsMessage::Dexterity(dexterity)
    &&& after.len() > k + 2 ==> (after[k + 2] matches StsMessage::Conditions(v) && v@ == conditions)
}

/// The number of cards in the hand, the draw pile and the discard pile together.
pub open spec fn drawable_count(pcs: &PlayerCombatState) -> int {
    (pcs.hand@.len() + pcs.draw_pile@.len() + pcs.discard_pile@.len()) as int
}

/// What a draw promises whatever the conditions: the piles hold as many cards between them as
/// before, and the rest of `draw_frame`.
pub open spec fn draw_bounds(before: &PlayerInCombat, after: &PlayerInCombat) -> bool {
    &&& drawable_count(&after.state) == drawable_count(&before.state)
    &&& draw_frame(before, after)
}

/// The old hand is still the start of the hand, no more is left to draw than before, the rest
/// of the combat state and the player are unchanged.
pub open spec fn draw_frame(before: &PlayerInCombat, after: &PlayerInCombat) -> bool {
    &&& draw_keeps(&before.state, &after.state)
    &&& after.state.hand@.len() >= before.state.hand@.len()
    &&& after.state.hand@.subrange(0, before.state.hand@.len() as int) == before.state.hand@
    &&& after.state.draw_pile@.len() + after.state.discard_pile@.len() <= before.state.draw_pile@.len() + before.state.discard_pile@.len()
    &&& after.player.state() == before.player.state()
    &&& after.cards_drawn_each_turn == before.cards_drawn_each_turn
    &&& after.card_just_played == before.card_just_played
    &&& after.turn_number == before.turn_number
}

/// What merging `incoming` into `existing` makes of it in this combat: Confused stays, Evolve,
/// Frail, Rage, Vulnerable and Weak add up (saturating); other conditions are not merged.
pub open spec fn merged_for_player(existing: PlayerCondition, incoming: PlayerCondition) -> Option<PlayerCondition> {
    match (existing, incoming) {
        (PlayerCondition::Confused, PlayerCondition::Confused) => Some(PlayerCondition::Confused),
        (PlayerCondition::Evolve(a), PlayerCondition::Evolve(b)) => Some(PlayerCondition::Evolve(spec_saturating_add(a, b))),
        (PlayerCondition::Frail(a), PlayerCondition::Frail(b)) => Some(PlayerCondition::Frail(spec_saturating_add(a, b))),
        (PlayerCondition::Rage(a), PlayerCondition::Rage(b)) => Some(PlayerCondition::Rage(spec_saturating_add(a, b))),
        (PlayerCondition::Vulnerable(a), PlayerCondition::Vulnerable(b)) => Some(PlayerCondition::Vulnerable(spec_saturating_add(a, b))),
        (PlayerCondition::Weak(a), PlayerCondition::Weak(b)) => Some(PlayerCondition::Weak(spec_saturating_add(a, b))),
        _ => None,
    }
}

/// The conditions after applying `c`: merged into the first condition it merges with, or added.
pub open spec fn applied_for_player(s: Seq<PlayerCondition>, c: PlayerCondition) -> Seq<PlayerCondition>
    decreases s.len(),
{
    if s.len() == 0 {
        seq![c]
    } else if merged_for_player(s[0], c) is Some {
        seq![merged_for_player(s[0], c)->0] + s.drop_first()
    } else {
        seq![s[0]] + applied_for_player(s.drop_first(), c)
    }
}

/// A condition at the end of the player's turn in this combat: Frail, Vulnerable and Weak tick
/// down (and end at zero); the others stay.
pub open spec fn ticked_for_player(s: Seq<PlayerCondition>) -> Seq<PlayerCondition> {
    s.map_values(|c: PlayerCondition| match c {
        PlayerCondition::Frail(t) => PlayerCondition::Frail(spec_saturating_sub(t, 1)),
        PlayerCondition::Vulnerable(t) => PlayerCondition::Vulnerable(spec_saturating_sub(t, 1)),
        PlayerCondition::Weak(t) => PlayerCondition::Weak(spec_saturating_sub(t, 1)),
        _ => c,
    }).filter(|c: PlayerCondition| !(c == PlayerCondition::Frail(0) || c == PlayerCondition::Vulnerable(0) || c == PlayerCondition::Weak(0)))
}

/// Merges `incoming` into `existing` when they merge; answers whether they did.
fn merge_player_condition(existing: &mut PlayerCondition, incoming: &PlayerCondition) -> (r: bool)
    ensures
        r == merged_for_player(*old(existing), *incoming) is Some,
        r ==> Some(*final(existing)) == merged_for_player(*old(existing), *incoming),
        !r ==> *final(existing) == *old(existing),
{
    match (*existing, *incoming) {
        (PlayerCondition::Confused, PlayerCondition::Confused) => true,
        (PlayerCondition::Evolve(a), PlayerCondition::Evolve(b)) => {
            *existing = PlayerCondition::Evolve(a.saturating_add(b));
            true
        },
        (PlayerCondition::Frail(a), PlayerCondition::Frail(b)) => {
            *existing = PlayerCondition::Frail(a.saturating_add(b));
            true
        },
        (PlayerCondition::Rage(a), PlayerCondition::Rage(b)) => {
            *existing = PlayerCondition::Rage(a.saturating_add(b));
            true
        },
        (PlayerCondition::Vulnerable(a), PlayerCondition::Vulnerable(b)) => {
            *existing = PlayerCondition::Vulnerable(a.saturating_add(b));
            true
        },
        (PlayerCondition::Weak(a), PlayerCondition::Weak(b)) => {
            *existing = PlayerCondition::Weak(a.saturating_add(b));
            true
        },
        _ => false,
    }
}

/// Resets the cost of every card of the pile for this turn to its cost for the combat.
fn reset_costs(pile: &mut Vec<CardInCombat>)
    ensures
        final(pile)@ == costs_reset(old(pile)@),
{
    let mut i: usize = 0;
    while i < pile.len()
        invariant
            i <= pile@.len(),
            pile@.len() == old(pile)@.len(),
            forall|k: int| 0 <= k < i ==> #[trigger] pile@[k] == costs_reset(old(pile)@)[k],
            forall|k: int| i <= k < pile@.len() ==> #[trigger] pile@[k] == old(pile)@[k],
        decreases pile@.len() - i,
    {
        let card = pile[i];
        pile.set(i, CardInCombat { cost_this_turn: card.cost_this_combat, ..card });
        i = i + 1;
    }
    assert(pile@ =~= costs_reset(old(pile)@));
}

impl PlayerInCombat {
    /// Starts the combat: Snecko Eye confuses the player; the client is told the combat starts,
    /// the energy, health, strength and dexterity, and the enemies.
    pub fn start_combat(&mut self, enemies: &[Option<EnemyStatus>]) -> (r: Result<(), StsError>)
        ensures
            final(self).state.conditions@ == (if old(self).player.state().relics.contains(Relic::SneckoEye) {
                old(self).state.conditions@.push(PlayerCondition::Confused)
            } else {
                old(self).state.conditions@
            }),
            final(self).player.state() == old(self).player.state(),
            r is Ok ==> final(self).player.sent().drop_last() == old(self).player.sent()
                .push(StsMessage::StartingCombat)
                .push(StsMessage::Energy(old(self).state.energy))
                .push(StsMessage::Health((old(self).player.state().hp, old(self).player.state().hp_max)))
                .push(StsMessage::Strength(old(self).state.strength))
                .push(StsMessage::Dexterity(old(self).state.dexterity)),
            r is Ok ==> (final(self).player.sent().last() matches StsMessage::EnemyParty(v) && v@.len() == enemies@.len()
                && forall|i: int| 0 <= i < enemies@.len() ==> crate::player::comms::same_slot(#[trigger] v@[i], enemies@[i])),
            r is Err ==> sent_part(old(self).player.sent(), final(self).player.sent(), combat_start_messages(old(self)))
                || final(self).player.sent().drop_last() == old(self).player.sent() + combat_start_messages(old(self)),
            r matches Err(e) ==> e == StsError::Disconnected,
            tallied(old(self).player.comms, final(self).player.comms, r is Err),
    {
        let ghost s0 = self.player.comms.sent();
        let ghost msgs = combat_start_messages(self);
        if self.player.state.has_relic(Relic::SneckoEye) {
            self.state.conditions.push(PlayerCondition::Confused);
        }
        let r1 = self.player.comms.send_starting_combat();
        if r1.is_err() {
            proof { assert(self.player.comms.sent() =~= s0 + msgs.take(1)); lemma_sent_part(s0, msgs, 1); }
            return r1;
        }
        let r2 = self.player.comms.send_energy(self.state.energy);
        if r2.is_err() {
            proof { assert(self.player.comms.sent() =~= s0 + msgs.take(2)); lemma_sent_part(s0, msgs, 2); }
            return r2;
        }
        let r3 = self.player.comms.send_health_changed(self.player.state.health());
        if r3.is_err() {
            proof { assert(self.player.comms.sent() =~= s0 + msgs.take(3)); lemma_sent_part(s0, msgs, 3); }
            return r3;
        }
        let r4 = self.player.comms.send_strength(self.state.strength);
        if r4.is_err() {
            proof { assert(self.player.comms.sent() =~= s0 + msgs.take(4)); lemma_sent_part(s0, msgs, 4); }
            return r4;
        }
        let r5 = self.player.comms.send_dexterity(self.state.dexterity);
        if r5.is_err() {
            proof { assert(self.player.comms.sent() =~= s0 + msgs.take(5)); lemma_sent_part(s0, msgs, 5); }
            return r5;
        }
        let ghost s5 = self.player.comms.sent();
        assert(s5 =~= s0 + msgs);
        self.player.comms.send_enemy_statuses(enemies)
    }

    /// Starts the player's turn: 3 energy, the turn's cards are drawn, and block goes back to
    /// zero (the client is told when it changed).
    pub fn start_turn(&mut self) -> (r: Result<(), StsError>)
        requires
            can_draw(old(self).state.conditions@),
            drawable_count(&old(self).state) <= 0x8000_0000,
        ensures
            r is Ok ==> final(self).state.energy == 3,
            r is Ok ==> final(self).state.block == 0,
            r is Ok ==> draw_state(final(self)) == draws(old(self).state.conditions@, draw_state(old(self)), old(self).cards_drawn_each_turn as nat),
            final(self).player.state() == old(self).player.state(),
            final(self).state.conditions@ == old(self).state.conditions@,
            final(self).state.energy == 3,
            final(self).player.sent().len() >= old(self).player.sent().len(),
            final(self).player.sent().subrange(0, old(self).player.sent().len() as int) == old(self).player.sent(),
            old(self).cards_drawn_each_turn > 0 || old(self).state.block > 0 ==> sent_more(old(self).player.sent(), final(self).player.sent()),
            r is Ok && old(self).state.block > 0 ==> final(self).player.sent().last() == StsMessage::Block(0),
            r is Ok && old(self).state.block == 0 && old(self).cards_drawn_each_turn == 0 ==> final(self).player.sent() == old(self).player.sent(),
            r matches Err(e) ==> e == StsError::Disconnected && sent_more(old(self).player.sent(), final(self).player.sent()),
            r is Ok ==> final(self).player.sent() == old(self).player.sent() + turn_start_messages(old(self)),
            r is Err ==> sent_part(old(self).player.sent(), final(self).player.sent(), turn_start_messages(old(self))),
            tallied(old(self).player.comms, final(self).player.comms, r is Err),
    {
        let ghost s0 = self.player.comms.sent();
        self.state.energy = 3;
        let ghost all = turn_start_messages(self);
        let ghost drawing = draws_messages(self.state.conditions@, draw_state(self), self.cards_drawn_each_turn as nat);
        let drawn = self.draw_cards();
        if drawn.is_err() {
            proof {
                lemma_sent_part_longer(s0, self.player.comms.sent(), drawing,
                    if old(self).state.block > 0 { seq![StsMessage::Block(0)] } else { Seq::empty() });
            }
            return drawn;
        }
        if self.state.block > 0 {
            self.state.block = 0;
            let ghost s1 = self.player.comms.sent();
            let r = self.player.comms.send_block(self.state.block);
            assert(self.player.comms.sent().subrange(0, s0.len() as int) =~= s1.subrange(0, s0.len() as int));
            proof {
                assert(self.player.comms.sent() =~= s0 + all.take(all.len() as int));
                assert(all.take(all.len() as int) =~= all);
                lemma_sent_part(s0, all, all.len() as int);
            }
            if r.is_err() {
                return r;
            }
        } else {
            assert(all =~= drawing);
        }
        Ok(())
    }

    /// Ends the player's turn: the hand is discarded, conditions tick down, and every card's
    /// cost for the turn goes back to its cost for the combat.
    pub fn end_turn(&mut self) -> (r: Result<(), StsError>)
        requires
            forall|i: int| 0 <= i < old(self).state.conditions@.len() ==> !(#[trigger] old(self).state.conditions@[i] is FireBreathing),
            old(self).turn_number < usize::MAX,
        ensures
            r is Ok ==> ({
                let discarded = old(self).state.discard_pile@ + old(self).state.hand@.reverse();
                &&& final(self).state.hand@.len() == 0
                &&& final(self).state.discard_pile@ == costs_reset(discarded)
                &&& final(self).state.draw_pile@ == costs_reset(old(self).state.draw_pile@)
                &&& final(self).state.exhaust_pile@ == costs_reset(old(self).state.exhaust_pile@)
                &&& final(self).state.conditions@ == ticked_for_player(old(self).state.conditions@)
                &&& final(self).turn_number == old(self).turn_number + 1
            }),
            final(self).player.state() == old(self).player.state(),
            final(self).state.hand@.len() == 0,
            sent_more(old(self).player.sent(), final(self).player.sent()),
            final(self).player.sent()[old(self).player.sent().len() as int] == StsMessage::HandDiscarded,
            final(self).player.sent().len() > old(self).player.sent().len() + 1 ==> told_ticked(
                old(self).player.sent().push(StsMessage::HandDiscarded), final(self).player.sent(), old(self).state.strength,
                old(self).state.dexterity, ticked_for_player(old(self).state.conditions@)),
            r is Ok ==> final(self).player.sent().len() == old(self).player.sent().len() + 4,
            r matches Err(e) ==> e == StsError::Disconnected,
            tallied(old(self).player.comms, final(self).player.comms, r is Err),
    {
        let ghost s0 = self.player.comms.sent();
        let discarded = self.discard_hand();
        assert(self.player.comms.sent().subrange(0, s0.len() as int) =~= s0);
        if discarded.is_err() {
            return discarded;
        }
        let ghost s1 = self.player.comms.sent();
        let ticked = self.tick_down_conditions();
        proof {
            let s2 = self.player.comms.sent();
            assert(s2.subrange(0, s1.len() as int) =~= s1);
            assert(s2.subrange(0, s0.len() as int) =~= s0);
            assert(s2[s0.len() as int] == s1[s0.len() as int]);
        }
        if ticked.is_err() {
            return ticked;
        }
        reset_costs(&mut self.state.hand);
        reset_costs(&mut self.state.draw_pile);
        reset_costs(&mut self.state.discard_pile);
        reset_costs(&mut self.state.exhaust_pile);
        self.turn_number = self.turn_number + 1;
        proof {
            assert(costs_reset(Seq::<CardInCombat>::empty()) =~= Seq::<CardInCombat>::empty());
        }
        Ok(())
    }

    /// Ends the combat: Burning Blood heals 6, and the client is told the combat ends. The
    /// player is handed back.
    pub fn end_combat(self) -> (r: (Player, Result<(), StsError>))
        ensures
            r.0.state() == (if self.player.state().relics.contains(Relic::BurningBlood) {
                PlayerStateView {
                    hp: spec_min(spec_saturating_add(self.player.state().hp, 6), self.player.state().hp_max),
                    ..self.player.state()
                }
            } else {
                self.player.state()
            }),
            ({
                let msgs = (if self.player.state().relics.contains(Relic::BurningBlood) {
                    seq![StsMessage::Health((r.0.state().hp, r.0.state().hp_max))]
                } else {
                    Seq::empty()
                }).push(StsMessage::EndingCombat);
                &&& r.1 is Ok ==> r.0.sent() == self.player.sent() + msgs
                &&& r.1 is Err ==> sent_part(self.player.sent(), r.0.sent(), msgs)
            }),
            r.1 matches Err(e) ==> e == StsError::Disconnected,
    {
        let ghost s0 = self.player.comms.sent();
        let mut player = self.player;
        let ghost first: Seq<StsMessage> = Seq::empty();
        if player.state.has_relic(Relic::BurningBlood) {
            let healed = player.increase_hp(6);
            proof {
                first = seq![StsMessage::Health((player.state@.hp, player.state@.hp_max))];
            }
            match healed {
                Ok(()) => {},
                Err(e) => {
                    proof {
                        let msgs = first.push(StsMessage::EndingCombat);
                        assert(player.comms.sent() =~= s0 + msgs.take(1));
                        lemma_sent_part(s0, msgs, 1);
                    }
                    return (player, Err(e));
                },
            }
        }
        let r = player.comms.send_ending_combat();
        proof {
            let msgs = first.push(StsMessage::EndingCombat);
            assert(player.comms.sent() =~= s0 + msgs.take(msgs.len() as int));
            assert(msgs.take(msgs.len() as int) =~= msgs);
            lemma_sent_part(s0, msgs, msgs.len() as int);
        }
        (player, r)
    }

    /// Draws the turn's cards, one at a time.
    pub fn draw_cards(&mut self) -> (r: Result<(), StsError>)
        requires
            can_draw(old(self).state.conditions@),
            drawable_count(&old(self).state) <= 0x8000_0000,
        ensures
            draw_bounds(old(self), final(self)),
            r is Ok ==> draw_state(final(self)) == draws(old(self).state.conditions@, draw_state(old(self)), old(self).cards_drawn_each_turn as nat),
            old(self).cards_drawn_each_turn > 0 || r is Err ==> sent_more(old(self).player.sent(), final(self).player.sent()),
            old(self).cards_drawn_each_turn == 0 ==> final(self).player.sent() == old(self).player.sent(),
            r is Ok ==> final(self).player.sent() == old(self).player.sent() + draws_messages(old(self).state.conditions@,
                draw_state(old(self)), old(self).cards_drawn_each_turn as nat),
            r is Err ==> sent_part(old(self).player.sent(), final(self).player.sent(), draws_messages(old(self).state.conditions@,
                draw_state(old(self)), old(self).cards_drawn_each_turn as nat)),
            final(self).player.sent().len() >= old(self).player.sent().len(),
            final(self).player.sent().subrange(0, old(self).player.sent().len() as int) == old(self).player.sent(),
            r matches Err(e) ==> e == StsError::Disconnected,
            tallied(old(self).player.comms, final(self).player.comms, r is Err),
    {
        let ghost s0 = self.player.comms.sent();
        assert(s0 + draws_messages(self.state.conditions@, draw_state(self), 0) =~= s0);
        let n = self.cards_drawn_each_turn;
        let mut k: usize = 0;
        assert(self.state.hand@.subrange(0, self.state.hand@.len() as int) =~= self.state.hand@);
        while k < n
            invariant
                k <= n,
                n == old(self).cards_drawn_each_turn,
                can_draw(self.state.conditions@),
                self.state.conditions@ == old(self).state.conditions@,
                drawable_count(&self.state) == drawable_count(&old(self).state),
                drawable_count(&old(self).state) <= 0x8000_0000,
                draw_bounds(old(self), self),
                draw_state(self) == draws(old(self).state.conditions@, draw_state(old(self)), k as nat),
                s0 == old(self).player.sent(),
                self.player.comms.sent().len() >= s0.len(),
                self.player.comms.sent().subrange(0, s0.len() as int) == s0,
                k > 0 ==> self.player.comms.sent().len() > s0.len(),
                k == 0 ==> self.player.comms.sent() == s0,
                self.player.comms.sent() == s0 + draws_messages(old(self).state.conditions@, draw_state(old(self)), k as nat),
                tallied(old(self).player.comms, self.player.comms, false),
            decreases n - k,
        {
            let ghost before = *self;
            let r = self.draw_card();
            proof {
                let conds = old(self).state.conditions@;
                let ds0 = draw_state(old(self));
                lemma_draws_messages_prefix(conds, ds0, (k + 1) as nat, n as nat);
                let pre = draws_messages(conds, ds0, k as nat);
                let one = draw_one_messages(conds, draws(conds, ds0, k as nat));
                let all = draws_messages(conds, ds0, n as nat);
                assert(draws_messages(conds, ds0, (k + 1) as nat) == pre + one);
                if r.is_err() {
                    lemma_sent_part_within(s0, self.player.comms.sent(), pre, one, all);
                } else {
                    assert(self.player.comms.sent() =~= s0 + draws_messages(conds, ds0, (k + 1) as nat));
                }
            }
            assert(self.player.comms.sent().subrange(0, s0.len() as int)
                =~= self.player.comms.sent().subrange(0, before.player.comms.sent().len() as int).subrange(0, s0.len() as int));
            assert(self.state.hand@.subrange(0, old(self).state.hand@.len() as int)
                =~= self.state.hand@.subrange(0, before.state.hand@.len() as int).subrange(0, old(self).state.hand@.len() as int));
            if r.is_err() {
                return r;
            }
            k = k + 1;
        }
        Ok(())
    }

    /// Draws one card; when the draw pile is empty, the discard pile is shuffled into it first
    /// (the client is told).
    fn draw_card(&mut self) -> (r: Result<(), StsError>)
        requires
            can_draw(old(self).state.conditions@),
            drawable_count(&old(self).state) <= 0x8000_0000,
        ensures
            draw_bounds(old(self), final(self)),
            r is Ok ==> draw_state(final(self)) == draw_one_card(old(self).state.conditions@, draw_state(old(self))),
            sent_more(old(self).player.sent(), final(self).player.sent()),
            r is Ok ==> final(self).player.sent() == old(self).player.sent()
                + draw_one_messages(old(self).state.conditions@, draw_state(old(self))),
            r is Err ==> sent_part(old(self).player.sent(), final(self).player.sent(),
                draw_one_messages(old(self).state.conditions@, draw_state(old(self)))),
            r matches Err(e) ==> e == StsError::Disconnected,
            tallied(old(self).player.comms, final(self).player.comms, r is Err),
        decreases old(self).state.draw_pile@.len() + old(self).state.discard_pile@.len(), 1nat,
    {
        let ghost s0 = self.player.comms.sent();
        assert(self.state.hand@.subrange(0, self.state.hand@.len() as int) =~= self.state.hand@);
        if self.state.draw_pile.len() > 0 {
            let card = self.state.draw_pile.pop().unwrap();
            self.put_card_in_hand(card)
        } else {
            let told = self.player.comms.send_shuffling_discard_to_draw();
            assert(self.player.comms.sent().subrange(0, s0.len() as int) =~= s0);
            if told.is_err() {
                proof {
                    let all = draw_one_messages(old(self).state.conditions@, draw_state(old(self)));
                    assert(all[0] == StsMessage::ShufflingDiscardToDraw);
                    assert(self.player.comms.sent() =~= s0 + all.take(1));
                    lemma_sent_part(s0, all, 1);
                }
                return told;
            }
            let ghost s1 = self.player.comms.sent();
            let ghost discard = self.state.discard_pile@;
            self.shuffle_rng.java_compat_shuffle(&mut self.state.discard_pile);
            proof {
                assert(self.state.discard_pile@.to_multiset().len() == discard.to_multiset().len());
            }
            self.state.draw_pile.append(&mut self.state.discard_pile);
            if self.state.draw_pile.len() > 0 {
                let card = self.state.draw_pile.pop().unwrap();
                let ghost popped = *self;
                let r = self.put_card_in_hand(card);
                assert(self.player.comms.sent().subrange(0, s0.len() as int)
                    =~= self.player.comms.sent().subrange(0, s1.len() as int).subrange(0, s0.len() as int));
                proof {
                    let conds = old(self).state.conditions@;
                    let all = draw_one_messages(conds, draw_state(old(self)));
                    let shuffle = seq![StsMessage::ShufflingDiscardToDraw];
                    let rest = into_hand_messages(conds, draw_state(&popped), card);
                    assert(all =~= shuffle + rest);
                    if r.is_ok() {
                        assert(self.player.comms.sent() =~= s0 + all);
                    } else {
                        assert(s1 =~= s0 + shuffle);
                        assert(all.take(shuffle.len() + rest.len() as int) =~= shuffle + rest);
                        lemma_sent_part_within(s0, self.player.comms.sent(), shuffle, rest, all);
                    }
                }
                r
            } else {
                assert(self.player.comms.sent() =~= s0 + draw_one_messages(old(self).state.conditions@, draw_state(old(self))));
                Ok(())
            }
        }
    }

    /// Puts a drawn card in the hand: each Confused rerolls its cost (0 to 3), and Evolve draws
    /// that many more cards for a status card. The client is told of the card drawn.
    fn put_card_in_hand(&mut self, drawn: CardInCombat) -> (r: Result<(), StsError>)
        requires
            can_draw(old(self).state.conditions@),
            drawable_count(&old(self).state) + 1 <= 0x8000_0000,
        ensures
            draw_frame(old(self), final(self)),
            drawable_count(&final(self).state) == drawable_count(&old(self).state) + 1,
            final(self).state.hand@.len() > old(self).state.hand@.len(),
            final(self).state.hand@[old(self).state.hand@.len() as int].card == drawn.card,
            r is Ok ==> draw_state(final(self)) == card_into_hand(old(self).state.conditions@, draw_state(old(self)), drawn),
            sent_more(old(self).player.sent(), final(self).player.sent()),
            r is Ok ==> final(self).player.sent().last() == StsMessage::CardDrawn((final(self).state.hand@.len() - 1) as usize, drawn.card),
            r is Ok ==> final(self).player.sent() == old(self).player.sent()
                + into_hand_messages(old(self).state.conditions@, draw_state(old(self)), drawn),
            r is Err ==> sent_part(old(self).player.sent(), final(self).player.sent(),
                into_hand_messages(old(self).state.conditions@, draw_state(old(self)), drawn)),
            r matches Err(e) ==> e == StsError::Disconnected,
            tallied(old(self).player.comms, final(self).player.comms, r is Err),
        decreases old(self).state.draw_pile@.len() + old(self).state.discard_pile@.len(), 2nat,
    {
        let ghost s0 = self.player.comms.sent();
        let mut card = drawn;
        let mut extra_cards_to_draw: u32 = 0;
        let mut i: usize = 0;
        while i < self.state.conditions.len()
            invariant
                i <= self.state.conditions@.len(),
                self.player == old(self).player,
                self.state == old(self).state,
                self.shuffle_rng == old(self).shuffle_rng,
                self.turn_number == old(self).turn_number,
                self.cards_drawn_each_turn == old(self).cards_drawn_each_turn,
                self.card_just_played == old(self).card_just_played,
                can_draw(self.state.conditions@),
                card.card == drawn.card,
                (card, self.card_randomizer_rng@, extra_cards_to_draw as nat) == card_as_drawn(self.state.conditions@, i as int, drawn, old(self).card_randomizer_rng@),
                extra_cards_to_draw <= evolve_total(self.state.conditions@.subrange(0, i as int)),
            decreases self.state.conditions@.len() - i,
        {
            proof {
                let pre = self.state.conditions@.subrange(0, i as int + 1);
                assert(pre.drop_last() == self.state.conditions@.subrange(0, i as int));
                assert(pre.last() == self.state.conditions@[i as int]);
                lemma_evolve_total_prefix(self.state.conditions@, i as int + 1);
            }
            match self.state.conditions[i] {
                PlayerCondition::Confused => {
                    let cost = self.card_randomizer_rng.gen_range_inclusive(0, 3) as u32;
                    card.cost_this_combat = cost;
                    card.cost_this_turn = cost;
                },
                PlayerCondition::Evolve(stacks) => {
                    if card.card.card_type() == CardType::Status {
                        extra_cards_to_draw = extra_cards_to_draw + stacks;
                    }
                },
                _ => {},
            }
            i = i + 1;
        }
        self.state.hand.push(card);
        assert(self.state.hand@.subrange(0, old(self).state.hand@.len() as int) =~= old(self).state.hand@);
        let ghost s1 = draw_state(self);
        assert(self.player.comms.sent().subrange(s0.len() as int, s0.len() as int) + extra_draw_messages(
            old(self).state.conditions@, s1, extra_cards_to_draw as nat) =~= extra_draw_messages(old(self).state.conditions@, s1,
            extra_cards_to_draw as nat));
        let mut k: u32 = 0;
        while k < extra_cards_to_draw
            invariant
                k <= extra_cards_to_draw,
                can_draw(self.state.conditions@),
                self.state.conditions@ == old(self).state.conditions@,
                drawable_count(&self.state) == drawable_count(&old(self).state) + 1,
                drawable_count(&old(self).state) + 1 <= 0x8000_0000,
                self.state.draw_pile@.len() + self.state.discard_pile@.len() <= old(self).state.draw_pile@.len() + old(self).state.discard_pile@.len(),
                self.state.hand@.len() > old(self).state.hand@.len(),
                self.state.hand@.subrange(0, old(self).state.hand@.len() as int) == old(self).state.hand@,
                self.state.hand@[old(self).state.hand@.len() as int].card == drawn.card,
                draw_keeps(&old(self).state, &self.state),
                self.player.state() == old(self).player.state(),
                self.cards_drawn_each_turn == old(self).cards_drawn_each_turn,
                self.card_just_played == old(self).card_just_played,
                self.turn_number == old(self).turn_number,
                extra_draws(old(self).state.conditions@, s1, extra_cards_to_draw as nat)
                    == extra_draws(old(self).state.conditions@, draw_state(self), (extra_cards_to_draw - k) as nat),
                s0 == old(self).player.sent(),
                self.player.comms.sent().len() >= s0.len(),
                self.player.comms.sent().subrange(0, s0.len() as int) == s0,
                self.player.comms.sent().subrange(s0.len() as int, self.player.comms.sent().len() as int)
                    + extra_draw_messages(old(self).state.conditions@, draw_state(self), (extra_cards_to_draw - k) as nat)
                    == extra_draw_messages(old(self).state.conditions@, s1, extra_cards_to_draw as nat),
                into_hand_messages(old(self).state.conditions@, draw_state(old(self)), drawn)
                    == extra_draw_messages(old(self).state.conditions@, s1, extra_cards_to_draw as nat).push(
                        StsMessage::CardDrawn((extra_draws(old(self).state.conditions@, s1, extra_cards_to_draw as nat).hand.len() - 1) as usize,
                            drawn.card)),
                tallied(old(self).player.comms, self.player.comms, false),
            decreases extra_cards_to_draw - k,
        {
            let ghost before = *self;
            let ghost p = self.player.comms.sent().subrange(s0.len() as int, self.player.comms.sent().len() as int);
            let ghost m = (extra_cards_to_draw - k) as nat;
            let r = self.draw_card();
            assert(self.player.comms.sent().subrange(0, s0.len() as int)
                =~= self.player.comms.sent().subrange(0, before.player.comms.sent().len() as int).subrange(0, s0.len() as int));
            assert(self.state.hand@.subrange(0, old(self).state.hand@.len() as int)
                =~= self.state.hand@.subrange(0, before.state.hand@.len() as int).subrange(0, old(self).state.hand@.len() as int));
            assert(self.state.hand@[old(self).state.hand@.len() as int] == before.state.hand@[old(self).state.hand@.len() as int]);
            if r.is_err() {
                proof {
                    let conds = old(self).state.conditions@;
                    let one = draw_one_messages(conds, draw_state(&before));
                    let total = extra_draw_messages(conds, s1, extra_cards_to_draw as nat);
                    let all = into_hand_messages(conds, draw_state(old(self)), drawn);
                    assert(before.player.comms.sent() =~= s0 + p);
                    if undrawn(draw_one_card(conds, draw_state(&before))) <= undrawn(draw_state(&before)) {
                        assert(extra_draw_messages(conds, draw_state(&before), m) == one + extra_draw_messages(conds,
                            draw_one_card(conds, draw_state(&before)), (m - 1) as nat));
                        assert(total =~= p + one + extra_draw_messages(conds, draw_one_card(conds, draw_state(&before)), (m - 1) as nat));
                    } else {
                        assert(total =~= p + one);
                    }
                    assert(all.take(p.len() + one.len() as int) =~= p + one);
                    lemma_sent_part_within(s0, self.player.comms.sent(), p, one, all);
                }
                return r;
            }
            assert(undrawn(draw_state(self)) <= undrawn(draw_state(&before)));
            assert(extra_draws(old(self).state.conditions@, draw_state(&before), (extra_cards_to_draw - k) as nat)
                == extra_draws(old(self).state.conditions@, draw_state(self), (extra_cards_to_draw - k - 1) as nat));
            proof {
                let conds = old(self).state.conditions@;
                let one = draw_one_messages(conds, draw_state(&before));
                assert(extra_draw_messages(conds, draw_state(&before), m)
                    == one + extra_draw_messages(conds, draw_state(self), (m - 1) as nat));
                assert(self.player.comms.sent().subrange(s0.len() as int, self.player.comms.sent().len() as int) =~= p + one);
            }
            k = k + 1;
        }
        let index = self.state.hand.len() - 1;
        let ghost s2 = self.player.comms.sent();
        let r = self.player.comms.send_card_drawn(index, card.card);
        assert(self.player.comms.sent().subrange(0, s0.len() as int) =~= s2.subrange(0, s0.len() as int));
        proof {
            let conds = old(self).state.conditions@;
            let all = into_hand_messages(conds, draw_state(old(self)), drawn);
            let p = s2.subrange(s0.len() as int, s2.len() as int);
            assert(p + extra_draw_messages(conds, draw_state(self), 0) =~= p);
            assert(s2 =~= s0 + p);
            assert(self.player.comms.sent() =~= s0 + all);
            assert(all.take(all.len() as int) =~= all);
            lemma_sent_part(s0, all, all.len() as int);
        }
        r
    }

    /// Discards the hand, last card first, and tells the client.
    fn discard_hand(&mut self) -> (r: Result<(), StsError>)
        ensures
            final(self).state.hand@.len() == 0,
            final(self).state.discard_pile@ == old(self).state.discard_pile@ + old(self).state.hand@.reverse(),
            final(self).state.draw_pile@ == old(self).state.draw_pile@,
            final(self).state.exhaust_pile@ == old(self).state.exhaust_pile@,
            final(self).state.conditions@ == old(self).state.conditions@,
            final(self).player.state() == old(self).player.state(),
            final(self).turn_number == old(self).turn_number,
            final(self).player.sent() == old(self).player.sent().push(StsMessage::HandDiscarded),
            final(self).state.strength == old(self).state.strength,
            final(self).state.dexterity == old(self).state.dexterity,
            r matches Err(e) ==> e == StsError::Disconnected,
            tallied(old(self).player.comms, final(self).player.comms, r is Err),
    {
        let ghost hand = self.state.hand@;
        let ghost discard = self.state.discard_pile@;
        while self.state.hand.len() > 0
            invariant
                self.state.hand@ == hand.subrange(0, self.state.hand@.len() as int),
                self.state.hand@.len() <= hand.len(),
                self.state.discard_pile@ == discard + hand.subrange(self.state.hand@.len() as int, hand.len() as int).reverse(),
                hand == old(self).state.hand@,
                discard == old(self).state.discard_pile@,
                self.state.draw_pile@ == old(self).state.draw_pile@,
                self.state.exhaust_pile@ == old(self).state.exhaust_pile@,
                self.state.conditions@ == old(self).state.conditions@,
                self.state.strength == old(self).state.strength,
                self.state.dexterity == old(self).state.dexterity,
                self.player == old(self).player,
                self.turn_number == old(self).turn_number,
            decreases self.state.hand@.len(),
        {
            let n = self.state.hand.len();
            let card = self.state.hand.pop().unwrap();
            self.state.discard_pile.push(card);
            proof {
                assert(hand.subrange(n - 1, hand.len() as int).reverse() =~= hand.subrange(n as int, hand.len() as int).reverse().push(card));
            }
        }
        assert(hand.subrange(0, hand.len() as int).reverse() == hand.reverse());
        self.player.comms.send_hand_discarded()
    }

    /// Frail, Vulnerable and Weak tick down and end at zero; the client is told the strength,
    /// the dexterity and the conditions.
    fn tick_down_conditions(&mut self) -> (r: Result<(), StsError>)
        requires
            forall|i: int| 0 <= i < old(self).state.conditions@.len() ==> !(#[trigger] old(self).state.conditions@[i] is FireBreathing),
        ensures
            final(self).state.conditions@ == ticked_for_player(old(self).state.conditions@),
            final(self).state.hand@ == old(self).state.hand@,
            final(self).state.draw_pile@ == old(self).state.draw_pile@,
            final(self).state.discard_pile@ == old(self).state.discard_pile@,
            final(self).state.exhaust_pile@ == old(self).state.exhaust_pile@,
            final(self).player.state() == old(self).player.state(),
            final(self).turn_number == old(self).turn_number,
            told_ticked(old(self).player.sent(), final(self).player.sent(), old(self).state.strength, old(self).state.dexterity,
                ticked_for_player(old(self).state.conditions@)),
            r is Ok ==> final(self).player.sent().len() == old(self).player.sent().len() + 3,
            r matches Err(e) ==> e == StsError::Disconnected,
            tallied(old(self).player.comms, final(self).player.comms, r is Err),
    {
        let ghost s0 = self.player.comms.sent();
        let ghost k = s0.len() as int;
        let ghost s = self.state.conditions@;
        let mut kept: Vec<PlayerCondition> = Vec::new();
        let mut i: usize = 0;
        while i < self.state.conditions.len()
            invariant
                i <= self.state.conditions@.len(),
                self.state.conditions@ == s,
                s == old(self).state.conditions@,
                kept@ == ticked_for_player(s.subrange(0, i as int)),
            decreases self.state.conditions@.len() - i,
        {
            let c = self.state.conditions[i];
            let t = match c {
                PlayerCondition::Frail(turns) => PlayerCondition::Frail(turns.saturating_sub(1)),
                PlayerCondition::Vulnerable(turns) => PlayerCondition::Vulnerable(turns.saturating_sub(1)),
                PlayerCondition::Weak(turns) => PlayerCondition::Weak(turns.saturating_sub(1)),
                _ => c,
            };
            proof {
                let pre = s.subrange(0, i as int + 1);
                let f = |c: PlayerCondition| match c {
                    PlayerCondition::Frail(t) => PlayerCondition::Frail(spec_saturating_sub(t, 1)),
                    PlayerCondition::Vulnerable(t) => PlayerCondition::Vulnerable(spec_saturating_sub(t, 1)),
                    PlayerCondition::Weak(t) => PlayerCondition::Weak(spec_saturating_sub(t, 1)),
                    _ => c,
                };
                assert(pre.map_values(f).drop_last() =~= s.subrange(0, i as int).map_values(f));
                assert(pre.map_values(f).last() == t);
                reveal_with_fuel(Seq::filter, 1);
            }
            if !(t == PlayerCondition::Frail(0) || t == PlayerCondition::Vulnerable(0) || t == PlayerCondition::Weak(0)) {
                kept.push(t);
            }
            i = i + 1;
        }
        assert(s.subrange(0, s.len() as int) == s);
        self.state.conditions = kept;
        let r1 = self.player.comms.send_strength(self.state.strength);
        assert(self.player.comms.sent().subrange(0, k) =~= s0);
        if r1.is_err() {
            return r1;
        }
        let r2 = self.player.comms.send_dexterity(self.state.dexterity);
        assert(self.player.comms.sent().subrange(0, k) =~= s0);
        if r2.is_err() {
            return r2;
        }
        let ghost s2 = self.player.comms.sent();
        let r = self.player.comms.send_conditions(self.state.conditions.as_slice());
        proof {
            let s3 = self.player.comms.sent();
            assert(s3.drop_last() == s2);
            assert(s3.subrange(0, k) =~= s0);
            assert(s3[k] == s2[k] && s3[k + 1] == s2[k + 1]);
        }
        r
    }

    /// Applies a condition (merged into the first one it merges with, or added) and tells the
    /// client the conditions.
    pub fn apply_condition(&mut self, condition: &PlayerCondition) -> (r: Result<(), StsError>)
        ensures
            final(self).state.conditions@ == applied_for_player(old(self).state.conditions@, *condition),
            final(self).state.hand@ == old(self).state.hand@,
            final(self).state.draw_pile@ == old(self).state.draw_pile@,
            final(self).state.discard_pile@ == old(self).state.discard_pile@,
            final(self).player.state() == old(self).player.state(),
            final(self).player.sent().drop_last() == old(self).player.sent(),
            final(self).player.sent().last() matches StsMessage::Conditions(v) && v@ == final(self).state.conditions@,
            tallied(old(self).player.comms, final(self).player.comms, r is Err),
    {
        let ghost s = self.state.conditions@;
        let mut i: usize = 0;
        assert(s.subrange(0, s.len() as int) == s);
        assert(s.subrange(0, 0) + applied_for_player(s, *condition) == applied_for_player(s, *condition));
        while i < self.state.conditions.len()
            invariant
                i <= self.state.conditions@.len(),
                self.state.conditions@ == s,
                s == old(self).state.conditions@,
                self.state.hand@ == old(self).state.hand@,
                self.state.draw_pile@ == old(self).state.draw_pile@,
                self.state.discard_pile@ == old(self).state.discard_pile@,
                self.player == old(self).player,
                applied_for_player(s, *condition) == s.subrange(0, i as int) + applied_for_player(s.subrange(i as int, s.len() as int), *condition),
            decreases self.state.conditions@.len() - i,
        {
            let ghost tail = s.subrange(i as int, s.len() as int);
            assert(tail[0] == s[i as int]);
            assert(tail.drop_first() == s.subrange(i as int + 1, s.len() as int));
            let mut existing = self.state.conditions[i];
            if merge_player_condition(&mut existing, condition) {
                self.state.conditions.set(i, existing);
                proof {
                    assert(applied_for_player(tail, *condition) == seq![existing] + tail.drop_first());
                    assert(self.state.conditions@ =~= s.subrange(0, i as int) + (seq![existing] + tail.drop_first()));
                }
                let ghost before = self.player.comms.sent();
                let r = self.player.comms.send_conditions(self.state.conditions.as_slice());
                return r;
            }
            proof {
                assert(s.subrange(0, i as int + 1) == s.subrange(0, i as int) + seq![s[i as int]]);
                assert(applied_for_player(s, *condition) =~= s.subrange(0, i as int + 1)
                    + applied_for_player(s.subrange(i as int + 1, s.len() as int), *condition));
            }
            i = i + 1;
        }
        self.state.conditions.push(*condition);
        proof {
            assert(s.subrange(s.len() as int, s.len() as int) == Seq::<PlayerCondition>::empty());
            assert(self.state.conditions@ =~= s + seq![*condition]);
        }
        self.player.comms.send_conditions(self.state.conditions.as_slice())
    }

    /// Adds the cards, at their usual cost, to the discard pile and tells the client.
    pub fn add_cards_to_discard_pile(&mut self, cards: &[Card]) -> (r: Result<(), StsError>)
        ensures
            final(self).state.discard_pile@ == old(self).state.discard_pile@
                + cards@.map_values(|c: Card| CardInCombat {
                    deck_index: None,
                    card: c,
                    cost_this_combat: crate::data::spec_cost(c),
                    cost_this_turn: crate::data::spec_cost(c),
                }),
            final(self).state.hand@ == old(self).state.hand@,
            final(self).state.draw_pile@ == old(self).state.draw_pile@,
            final(self).player.state() == old(self).player.state(),
            final(self).player.sent().drop_last() == old(self).player.sent(),
            final(self).player.sent().last() matches StsMessage::AddToDiscardPile(v) && v@ == cards@,
            tallied(old(self).player.comms, final(self).player.comms, r is Err),
    {
        let ghost start = self.state.discard_pile@;
        let mut i: usize = 0;
        while i < cards.len()
            invariant
                i <= cards@.len(),
                start == old(self).state.discard_pile@,
                self.state.discard_pile@ == start + cards@.subrange(0, i as int).map_values(|c: Card| CardInCombat {
                    deck_index: None,
                    card: c,
                    cost_this_combat: crate::data::spec_cost(c),
                    cost_this_turn: crate::data::spec_cost(c),
                }),
                self.state.hand@ == old(self).state.hand@,
                self.state.draw_pile@ == old(self).state.draw_pile@,
                self.player == old(self).player,
            decreases cards@.len() - i,
        {
            self.state.discard_pile.push(CardInCombat::new(None, cards[i]));
            proof {
                assert(cards@.subrange(0, i as int + 1).map_values(|c: Card| CardInCombat {
                    deck_index: None,
                    card: c,
                    cost_this_combat: crate::data::spec_cost(c),
                    cost_this_turn: crate::data::spec_cost(c),
                }) =~= cards@.subrange(0, i as int).map_values(|c: Card| CardInCombat {
                    deck_index: None,
                    card: c,
                    cost_this_combat: crate::data::spec_cost(c),
                    cost_this_turn: crate::data::spec_cost(c),
                }).push(CardInCombat {
                    deck_index: None,
                    card: cards@[i as int],
                    cost_this_combat: crate::data::spec_cost(cards@[i as int]),
                    cost_this_turn: crate::data::spec_cost(cards@[i as int]),
                }));
            }
            i = i + 1;
        }
        assert(cards@.subrange(0, cards@.len() as int) == cards@);
        self.player.comms.send_add_to_discard_pile(cards)
    }

    /// Adds a copy of the card, with its current costs, to the discard pile and tells the
    /// client.
    pub fn add_card_to_discard_pile(&mut self, card: &CardInCombat) -> (r: Result<(), StsError>)
        ensures
            final(self).state.discard_pile@ == old(self).state.discard_pile@.push(CardInCombat { deck_index: None, ..*card }),
            final(self).state.hand@ == old(self).state.hand@,
            final(self).state.draw_pile@ == old(self).state.draw_pile@,
            final(self).player.state() == old(self).player.state(),
            final(self).player.sent().drop_last() == old(self).player.sent(),
            final(self).player.sent().last() matches StsMessage::AddToDiscardPile(v) && v@ == seq![card.card],
            tallied(old(self).player.comms, final(self).player.comms, r is Err),
    {
        let mut new_card = CardInCombat::new(None, card.card);
        new_card.cost_this_combat = card.cost_this_combat;
        new_card.cost_this_turn = card.cost_this_turn;
        self.state.discard_pile.push(new_card);
        let cards = vec![new_card.card];
        self.player.comms.send_add_to_discard_pile(cards.as_slice())
    }

    /// Moves the card just played out of the hand: it is exhausted if it exhausts, discarded
    /// otherwise; its cost is paid; an attack under Rage gains that much block first. The client
    /// is told.
    pub fn dispose_of_card_just_played(&mut self) -> (r: Result<(), StsError>)
        requires
            forall|i: int| 0 <= i < old(self).state.conditions@.len() ==> !(#[trigger] old(self).state.conditions@[i] is FireBreathing),
            old(self).card_just_played matches Some(i) ==> i < old(self).state.hand@.len(),
        ensures
            old(self).card_just_played is None ==> r is Ok && final(self).state == old(self).state && final(self).player == old(self).player,
            r is Ok ==> (old(self).card_just_played matches Some(i) ==> ({
                let card = old(self).state.hand@[i as int];
                let rage = last_rage(old(self).state.conditions@);
                &&& final(self).state.hand@ == old(self).state.hand@.remove(i as int)
                &&& final(self).state.energy == spec_saturating_sub(old(self).state.energy, card.cost_this_combat)
                &&& final(self).state.block == (if spec_card_type(card.card) == CardType::Attack && rage is Some {
                        spec_saturating_add(old(self).state.block, rage->0)
                    } else {
                        old(self).state.block
                    })
                &&& final(self).state.draw_pile@ == old(self).state.draw_pile@
                &&& if crate::data::spec_exhausts(card.card) {
                        final(self).state.exhaust_pile@ == old(self).state.exhaust_pile@.push(card)
                            && final(self).state.discard_pile@ == old(self).state.discard_pile@
                    } else {
                        final(self).state.discard_pile@ == old(self).state.discard_pile@.push(card)
                            && final(self).state.exhaust_pile@ == old(self).state.exhaust_pile@
                    }
                &&& final(self).player.sent().last() == if crate::data::spec_exhausts(card.card) {
                        StsMessage::CardExhausted(i, card.card)
                    } else {
                        StsMessage::CardDiscarded(i, card.card)
                    }
            })),
            final(self).player.state() == old(self).player.state(),
            old(self).card_just_played is Some ==> sent_more(old(self).player.sent(), final(self).player.sent()),
            r matches Err(e) ==> e == StsError::Disconnected,
            tallied(old(self).player.comms, final(self).player.comms, r is Err),
    {
        let mut rage_stacks: Option<StackCount> = None;
        let mut i: usize = 0;
        while i < self.state.conditions.len()
            invariant
                i <= self.state.conditions@.len(),
                *self == *old(self),
                rage_stacks == last_rage(self.state.conditions@.subrange(0, i as int)),
            decreases self.state.conditions@.len() - i,
        {
            proof {
                let pre = self.state.conditions@.subrange(0, i as int + 1);
                assert(pre.drop_last() == self.state.conditions@.subrange(0, i as int));
                assert(pre.last() == self.state.conditions@[i as int]);
            }
            if let PlayerCondition::Rage(stacks) = self.state.conditions[i] {
                rage_stacks = Some(stacks);
            }
            i = i + 1;
        }
        assert(self.state.conditions@.subrange(0, self.state.conditions@.len() as int) == self.state.conditions@);
        let ghost s0 = self.player.comms.sent();
        match self.card_just_played {
            Some(hand_index) => {
                let card_in_combat = self.state.hand.remove(hand_index);
                if card_in_combat.card.card_type() == CardType::Attack {
                    if let Some(stacks) = rage_stacks {
                        let gained = self.gain_block(stacks);
                        assert(self.player.comms.sent().subrange(0, s0.len() as int) =~= s0);
                        if gained.is_err() {
                            return gained;
                        }
                    }
                }
                self.state.energy = self.state.energy.saturating_sub(card_in_combat.cost_this_combat);
                let ghost s1 = self.player.comms.sent();
                assert(s1.subrange(0, s0.len() as int) =~= s0);
                let r = if card_in_combat.card.exhausts() {
                    self.state.exhaust_pile.push(card_in_combat);
                    self.player.comms.send_card_exhausted(hand_index, card_in_combat.card)
                } else {
                    self.state.discard_pile.push(card_in_combat);
                    self.player.comms.send_card_discarded(hand_index, card_in_combat.card)
                };
                assert(self.player.comms.sent().subrange(0, s0.len() as int) =~= s1.subrange(0, s0.len() as int));
                r
            },
            None => Ok(()),
        }
    }

    /// Discards a potion, or drinks one: the slot is emptied and the client told the potions;
    /// Blood Potion then heals a fifth of the maximum, Fruit Juice raises the maximum and the hit
    /// points by 5, Dexterity Potion gives 2 dexterity (saturating), and the client is told.
    fn expend_potion(&mut self, potion_action: PotionAction) -> (r: Result<(), StsError>)
        requires
            names_held_potion(potion_action, old(self).player.state().potions),
            potion_action matches PotionAction::Drink(_, p) ==> drinkable_in_combat(p),
        ensures
            final(self).player.state() == (PlayerStateView {
                potions: old(self).player.state().potions.update(action_slot(potion_action) as int, None),
                hp: final(self).player.state().hp,
                hp_max: final(self).player.state().hp_max,
                ..old(self).player.state()
            }),
            final(self).state == (PlayerCombatState { dexterity: final(self).state.dexterity, ..old(self).state }),
            r is Ok ==> (final(self).player.state().hp, final(self).player.state().hp_max)
                == health_after(potion_action, old(self).player.state().hp, old(self).player.state().hp_max),
            r is Ok ==> final(self).state.dexterity == dexterity_after(potion_action, old(self).state.dexterity),
            final(self).turn_number == old(self).turn_number,
            final(self).cards_drawn_each_turn == old(self).cards_drawn_each_turn,
            final(self).card_just_played == old(self).card_just_played,
            sent_more(old(self).player.sent(), final(self).player.sent()),
            no_questions_added(old(self).player.sent(), final(self).player.sent()),
            tallied(old(self).player.comms, final(self).player.comms, r is Err),
            r matches Err(e) ==> e == StsError::Disconnected,
    {
        let ghost s0 = self.player.comms.sent();
        let slot = match potion_action {
            PotionAction::Discard(i, _) => i,
            PotionAction::Drink(i, _) => i,
        };
        self.player.state.discard_potion(slot);
        let told = self.player.comms.send_potions(self.player.state.potions());
        let ghost s1 = self.player.comms.sent();
        assert(s1.subrange(0, s0.len() as int) =~= s0);
        if told.is_err() {
            return told;
        }
        match potion_action {
            PotionAction::Discard(_, _) => Ok(()),
            PotionAction::Drink(_, potion) => {
                let r = if potion == Potion::BloodPotion {
                    let amount = self.player.hp_max() / 5;
                    self.player.increase_hp(amount)
                } else if potion == Potion::FruitJuice {
                    self.player.increase_hp_max(5)
                } else {
                    self.state.dexterity = if self.state.dexterity <= i32::MAX - 2 { self.state.dexterity + 2 } else { i32::MAX };
                    self.player.comms.send_dexterity(self.state.dexterity)
                };
                assert(self.player.comms.sent().subrange(0, s0.len() as int) =~= s0);
                assert(self.player.comms.sent().len() == s0.len() + 2);
                assert(self.player.comms.sent()[s0.len() as int] == s1[s0.len() as int]);
                r
            },
        }
    }

    /// Sends the enemies, the health and the energy, then lets the client play a card whose
    /// cost for the combat is affordable (picking its target when it needs one), discard or
    /// drink a potion (and choose again), or end the turn. The card chosen becomes the card
    /// just played. What this comes to for the client's answers is `menu_rounds`.
    pub fn choose_next_action(&mut self, enemies: &[Option<EnemyStatus>]) -> (r: Result<CombatAction, StsError>)
        requires
            forall|i: int| 0 <= i < old(self).state.hand@.len() ==> has_card_details(#[trigger] old(self).state.hand@[i].card),
            forall|i: int| 0 <= i < old(self).player.state().potions.len() ==> (#[trigger] old(self).player.state().potions[i] matches Some(p)
                ==> drinkable_in_combat(p)),
        ensures
            final(self).state == (PlayerCombatState { dexterity: final(self).state.dexterity, ..old(self).state }),
            final(self).player.state() == (PlayerStateView {
                potions: final(self).player.state().potions,
                hp: final(self).player.state().hp,
                hp_max: final(self).player.state().hp_max,
                ..old(self).player.state()
            }),
            final(self).turn_number == old(self).turn_number,
            final(self).cards_drawn_each_turn == old(self).cards_drawn_each_turn,
            r matches Err(e) ==> e == StsError::Disconnected || e == StsError::InvalidChoice,
            exchanges_added(old(self).player.comms, final(self).player.comms),
            (final(self).player.comms.hangups() > old(self).player.comms.hangups())
                == (r == Err::<CombatAction, StsError>(StsError::Disconnected)),
            final(self).player.comms.hangups() == old(self).player.comms.hangups() ==> (menu_rounds(old(self).state.hand@,
                old(self).state.energy, enemies@, old(self).player.state().potions, old(self).player.state().hp,
                old(self).player.state().hp_max, old(self).state.dexterity, new_answers(old(self).player.comms, final(self).player.comms))
                matches Some(o) && o.potions == final(self).player.state().potions && o.hp == final(self).player.state().hp
                && o.hp_max == final(self).player.state().hp_max && o.dexterity == final(self).state.dexterity
                && final(self).card_just_played == (if o.played is Some { o.played } else { old(self).card_just_played })
                && o.result == r && questions(final(self).player.sent()) == questions(old(self).player.sent()) + o.asked),
            sent_more(old(self).player.sent(), final(self).player.sent()),
            ({
                let k = old(self).player.sent().len() as int;
                let s = final(self).player.sent();
                &&& s[k] matches StsMessage::EnemyParty(v) && v@.len() == enemies@.len()
                    && forall|i: int| 0 <= i < enemies@.len() ==> same_slot(#[trigger] v@[i], enemies@[i])
                &&& s.len() > k + 1 ==> s[k + 1] == StsMessage::Health((old(self).player.state().hp, old(self).player.state().hp_max))
                &&& s.len() > k + 2 ==> s[k + 2] == StsMessage::Energy(old(self).state.energy)
                &&& s.len() > k + 3 ==> asked(s.subrange(0, k + 3), s.subrange(0, k + 4), Prompt::CombatAction,
                    combat_menu(old(self).state.hand@, old(self).state.energy, old(self).player.state().potions))
            }),
    {
        let ghost s0 = self.player.comms.sent();
        let ghost c0 = self.player.comms;
        let ghost k = s0.len() as int;
        assert(c0.received().subrange(0, c0.received().len() as int) =~= c0.received());
        let told = self.player.comms.send_enemy_statuses(enemies);
        let ghost s1 = self.player.comms.sent();
        assert(s1.subrange(0, k) =~= s0);
        if told.is_err() {
            return Err(StsError::Disconnected);
        }
        let told = self.player.comms.send_health_changed(self.player.state.health());
        let ghost s2 = self.player.comms.sent();
        assert(s2.subrange(0, k) =~= s0 && s2[k] == s1[k]);
        if told.is_err() {
            return Err(StsError::Disconnected);
        }
        let told = self.player.comms.send_energy(self.state.energy);
        let ghost s3 = self.player.comms.sent();
        assert(s3.subrange(0, k) =~= s0 && s3[k] == s1[k] && s3[k + 1] == s2[k + 1]);
        if told.is_err() {
            return Err(StsError::Disconnected);
        }
        let ghost c3 = self.player.comms;
        assert(c3.received().subrange(0, c0.received().len() as int) =~= c0.received());
        assert(new_answers(c0, c3) =~= Seq::<usize>::empty());
        assert(questions(s3) == questions(s0)) by {
            assert(no_questions_added(s0, s3)) by {
                assert forall|j: int| s0.len() <= j < s3.len() implies !(#[trigger] s3[j] is Choices) by {
                    if j == k {
                        assert(s3[j] == s1[k]);
                    } else if j == k + 1 {
                        assert(s3[j] == s2[k + 1]);
                    }
                }
            }
            assert(sent_after(s0, s3));
            lemma_no_questions_added(s0, s3);
        }
        let mut playable_cards: Vec<(HandIndex, Card)> = Vec::new();
        let mut i: usize = 0;
        while i < self.state.hand.len()
            invariant
                i <= self.state.hand@.len(),
                self.state == old(self).state,
                self.player == old(self).player || self.player.comms.sent() == s3,
                self.player.comms == c3,
                self.player.state() == old(self).player.state(),
                playable_cards@ == affordable_in(self.state.hand@, self.state.energy, i as int),
            decreases self.state.hand@.len() - i,
        {
            let card = self.state.hand[i];
            if card.cost_this_combat <= self.state.energy {
                playable_cards.push((i, card.card));
            }
            i = i + 1;
        }
        let ghost qs: Seq<(Prompt, Seq<Choice>)> = Seq::empty();
        assert(s3.subrange(0, s3.len() as int) =~= s3);
        let hand_len = self.state.hand.len();
        let ghost hand = self.state.hand@;
        let ghost energy = self.state.energy;
        let ghost init_potions = self.player.state@.potions;
        let ghost init_hp = self.player.state@.hp;
        let ghost init_max = self.player.state@.hp_max;
        let ghost init_dex = self.state.dexterity;
        proof {
            assert forall|rest: Seq<usize>| #[trigger] menu_rounds(hand, energy, enemies@, init_potions, init_hp, init_max, init_dex,
                new_answers(c0, self.player.comms) + rest) == menu_with_prefix(qs, menu_rounds(hand, energy, enemies@,
                self.player.state@.potions, self.player.state@.hp, self.player.state@.hp_max, self.state.dexterity, rest)) by {
                assert(new_answers(c0, self.player.comms) + rest =~= rest);
                if let Some(x) = menu_rounds(hand, energy, enemies@, init_potions, init_hp, init_max, init_dex, rest) {
                    assert(qs + x.asked =~= x.asked);
                }
            }
            assert(questions(s3) =~= questions(s0) + qs);
        }
        loop
            invariant
                self.state == (PlayerCombatState { dexterity: self.state.dexterity, ..old(self).state }),
                self.player.state() == (PlayerStateView {
                    potions: self.player.state().potions,
                    hp: self.player.state().hp,
                    hp_max: self.player.state().hp_max,
                    ..old(self).player.state()
                }),
                self.player.state().potions.len() == old(self).player.state().potions.len(),
                forall|i: int| 0 <= i < self.player.state().potions.len() ==> (#[trigger] self.player.state().potions[i] matches Some(p)
                    ==> drinkable_in_combat(p)),
                self.turn_number == old(self).turn_number,
                self.cards_drawn_each_turn == old(self).cards_drawn_each_turn,
                self.card_just_played == old(self).card_just_played,
                hand == old(self).state.hand@,
                hand.len() == hand_len,
                energy == old(self).state.energy,
                playable_cards@ == affordable_in(hand, energy, hand.len() as int),
                forall|i: int| 0 <= i < hand.len() ==> has_card_details(#[trigger] hand[i].card),
                c0 == old(self).player.comms,
                s0 == old(self).player.sent(),
                init_potions == old(self).player.state().potions,
                init_hp == old(self).player.state().hp,
                init_max == old(self).player.state().hp_max,
                init_dex == old(self).state.dexterity,
                sent_after(s3, self.player.comms.sent()),
                k == s0.len(),
                s3.subrange(0, k) == s0,
                s3.len() == k + 3,
                s3[k] == s1[k],
                s3[k + 1] == s2[k + 1],
                s3[k + 2] == StsMessage::Energy(old(self).state.energy),
                s1[k] matches StsMessage::EnemyParty(v) && v@.len() == enemies@.len()
                    && forall|i: int| 0 <= i < enemies@.len() ==> same_slot(#[trigger] v@[i], enemies@[i]),
                s2[k + 1] == StsMessage::Health((old(self).player.state().hp, old(self).player.state().hp_max)),
                self.player.comms.sent().len() == s3.len() ==> self.player.state().potions == init_potions,
                self.player.comms.sent().len() > s3.len() ==> asked(s3, self.player.comms.sent().subrange(0, k + 4),
                    Prompt::CombatAction, combat_menu(hand, energy, init_potions)),
                self.player.comms.hangups() == c0.hangups(),
                exchanges_added(c0, self.player.comms),
                questions(self.player.comms.sent()) == questions(s0) + qs,
                forall|rest: Seq<usize>| #[trigger] menu_rounds(hand, energy, enemies@, init_potions, init_hp, init_max, init_dex,
                    new_answers(c0, self.player.comms) + rest) == menu_with_prefix(qs, menu_rounds(hand, energy, enemies@,
                    self.player.state().potions, self.player.state().hp, self.player.state().hp_max, self.state.dexterity, rest)),
            decreases held_count(self.player.state().potions),
        {
            let mut choices: Vec<Choice> = Vec::new();
            let mut j: usize = 0;
            while j < playable_cards.len()
                invariant
                    j <= playable_cards@.len(),
                    choices@ == playable_cards@.subrange(0, j as int).map_values(|p: (HandIndex, Card)| Choice::PlayCardFromHand(p.0, p.1)),
                decreases playable_cards@.len() - j,
            {
                let (h, c) = playable_cards[j];
                choices.push(Choice::PlayCardFromHand(h, c));
                proof {
                    assert(playable_cards@.subrange(0, j as int + 1).map_values(|p: (HandIndex, Card)| Choice::PlayCardFromHand(p.0, p.1))
                        =~= playable_cards@.subrange(0, j as int).map_values(|p: (HandIndex, Card)| Choice::PlayCardFromHand(p.0, p.1))
                        .push(Choice::PlayCardFromHand(h, c)));
                }
                j = j + 1;
            }
            assert(playable_cards@.subrange(0, playable_cards@.len() as int) == playable_cards@);
            let ghost cards_offered = choices@;
            add_combat_potion_choices(self.player.state.potions(), &mut choices);
            choices.push(Choice::EndTurn);
            let ghost menu = choices@;
            let ghost cur_potions = self.player.state@.potions;
            let ghost cur_hp = self.player.state@.hp;
            let ghost cur_max = self.player.state@.hp_max;
            let ghost cur_dex = self.state.dexterity;
            assert(menu =~= combat_menu(hand, energy, cur_potions));
            let slot_count = self.player.state.potions().len();
            proof {
                assert(cur_potions.len() == slot_count);
                lemma_potion_actions_name_held(cur_potions, true);
            }
            let ghost before_prompt = self.player.comms.sent();
            let ghost cb = self.player.comms;
            let ghost q = (Prompt::CombatAction, menu);
            let prompted = self.player.comms.prompt_for_index(Prompt::CombatAction, crate::player::message::copy_vec(&choices));
            proof {
                let after = self.player.comms.sent();
                assert(sent_after(before_prompt, after)) by {
                    assert(after.subrange(0, before_prompt.len() as int) =~= before_prompt);
                }
                lemma_sent_after_trans(s3, before_prompt, after);
                if before_prompt.len() == s3.len() {
                    assert(after.subrange(0, k + 4) =~= after);
                } else {
                    assert(after.subrange(0, k + 4) =~= before_prompt.subrange(0, k + 4));
                }
                lemma_question_added(before_prompt, after, Prompt::CombatAction, menu);
                assert(self.player.comms.received().subrange(0, c0.received().len() as int) =~= c0.received());
                lemma_sent_after_keeps(s3, after);
                assert(after.subrange(0, k) =~= s0);
                assert(after[k] == s3[k] && after[k + 1] == s3[k + 1] && after[k + 2] == s3[k + 2]);
                assert(after.subrange(0, k + 3) =~= s3);
                assert(asked(s3, after.subrange(0, k + 4), Prompt::CombatAction, combat_menu(hand, energy, init_potions)));
            }
            let index = match prompted {
                Ok(i) => i,
                Err(e) => {
                    proof {
                        if e == StsError::InvalidChoice {
                            let a = self.player.comms.received().last();
                            assert(new_answers(c0, self.player.comms) =~= new_answers(c0, cb).push(a));
                            lemma_menu_last_round(hand, energy, enemies@, init_potions, init_hp, init_max, init_dex,
                                new_answers(c0, cb), qs, cur_potions, cur_hp, cur_max, cur_dex, a, Seq::empty(), None,
                                seq![q], Err(StsError::InvalidChoice));
                            assert(questions(self.player.comms.sent()) =~= questions(s0) + (qs + seq![q]));
                        }
                    }
                    return Err(e);
                },
            };
            let ghost a = index;
            let ghost answers_now = new_answers(c0, self.player.comms);
            assert(answers_now =~= new_answers(c0, cb).push(a));
            let choice = choices[index];
            let ghost n_cards = cards_offered.len();
            proof {
                let actions = potion_actions(cur_potions, true);
                if index < n_cards {
                    assert(menu[index as int] == cards_offered[index as int]);
                } else if index < n_cards + actions.len() {
                    assert(menu[index as int] == actions[index - n_cards]);
                } else {
                    assert(menu[index as int] == Choice::EndTurn);
                }
            }
            match choice {
                Choice::PlayCardFromHand(hand_index, _) => {
                    proof {
                        let actions = potion_actions(cur_potions, true);
                        assert(index < n_cards) by {
                            if index >= n_cards && index < n_cards + actions.len() {
                                assert(menu[index as int] == actions[index - n_cards]);
                            }
                        }
                        lemma_affordable_in(hand, energy, hand.len() as int, index as int);
                    }
                    self.card_just_played = Some(hand_index);
                    let card = self.state.hand[hand_index];
                    let details = CardDetails::for_card(card.card);
                    if details.target == Target::OneEnemy {
                        let ghost before_target = self.player.comms.sent();
                        let ghost ct = self.player.comms;
                        let target = self.player.comms.choose_enemy_to_target(enemies);
                        proof {
                            let after = self.player.comms.sent();
                            assert(after.subrange(0, k) =~= s0);
                            assert(after.subrange(0, k + 4) =~= before_target.subrange(0, k + 4));
                            assert(after[k] == s3[k] && after[k + 1] == s3[k + 1] && after[k + 2] == s3[k + 2]);
                            lemma_question_added(before_target, after, Prompt::TargetEnemy, target_choices(enemies@, enemies@.len() as int));
                            assert(after.subrange(0, k + 3) =~= before_target.subrange(0, k + 3));
                            assert(self.player.comms.received().subrange(0, c0.received().len() as int) =~= c0.received());
                            if self.player.comms.hangups() == c0.hangups() {
                                let t = self.player.comms.received().last();
                                assert(new_answers(c0, self.player.comms) =~= new_answers(c0, cb).push(a).push(t));
                                let res = match target_answer(enemies@, t) {
                                    Ok(e) => Ok::<CombatAction, StsError>(CombatAction::PlayCardAgainstEnemy(card, e)),
                                    Err(e) => Err::<CombatAction, StsError>(e),
                                };
                                let tq = (Prompt::TargetEnemy, target_choices(enemies@, enemies@.len() as int));
                                lemma_menu_last_round(hand, energy, enemies@, init_potions, init_hp, init_max, init_dex,
                                    new_answers(c0, cb), qs, cur_potions, cur_hp, cur_max, cur_dex, a, seq![t], Some(hand_index),
                                    seq![q, tq], res);
                                assert(questions(self.player.comms.sent()) =~= questions(s0) + (qs + seq![q, tq]));
                            }
                        }
                        return match target {
                            Ok(enemy_index) => Ok(CombatAction::PlayCardAgainstEnemy(card, enemy_index)),
                            Err(e) => Err(e),
                        };
                    } else {
                        proof {
                            assert(self.player.comms.sent().subrange(0, k) =~= s0);
                            lemma_menu_last_round(hand, energy, enemies@, init_potions, init_hp, init_max, init_dex,
                                new_answers(c0, cb), qs, cur_potions, cur_hp, cur_max, cur_dex, a, Seq::empty(), Some(hand_index),
                                seq![q], Ok(CombatAction::PlayCard(card)));
                            assert(questions(self.player.comms.sent()) =~= questions(s0) + (qs + seq![q]));
                        }
                        return Ok(CombatAction::PlayCard(card));
                    }
                },
                Choice::PotionAction(potion_action) => {
                    proof {
                        let actions = potion_actions(cur_potions, true);
                        assert(n_cards <= index < n_cards + actions.len()) by {
                            if index < n_cards {
                                assert(menu[index as int] == cards_offered[index as int]);
                            }
                        }
                        assert(menu[index as int] == actions[index - n_cards]);
                        lemma_held_count_empty_slot(cur_potions, action_slot(potion_action) as int);
                    }
                    let ghost before_call = self.player.comms.sent();
                    let expended = self.expend_potion(potion_action);
                    proof {
                        let after = self.player.comms.sent();
                        assert(sent_after(before_call, after)) by {
                            assert(after.subrange(0, before_call.len() as int) =~= before_call);
                        }
                        lemma_sent_after_trans(s3, before_call, after);
                        assert(after.subrange(0, k + 4) =~= before_call.subrange(0, k + 4));
                        lemma_no_questions_added(before_call, after);
                        assert(self.player.comms.received() == cb.received().push(a));
                        lemma_sent_after_keeps(s3, after);
                        assert(after.subrange(0, k) =~= s0);
                        assert(after[k] == s3[k] && after[k + 1] == s3[k + 1] && after[k + 2] == s3[k + 2]);
                    }
                    if expended.is_err() {
                        return Err(StsError::Disconnected);
                    }
                    proof {
                        assert(new_answers(c0, self.player.comms) == answers_now);
                        lemma_menu_round(hand, energy, enemies@, init_potions, init_hp, init_max, init_dex, new_answers(c0, cb), qs,
                            cur_potions, cur_hp, cur_max, cur_dex, a, self.player.state@.potions, self.player.state@.hp,
                            self.player.state@.hp_max, self.state.dexterity);
                        assert(questions(self.player.comms.sent()) =~= questions(s0) + qs.push(q));
                        qs = qs.push(q);
                    }
                },
                _ => {
                    proof {
                        assert(self.player.comms.sent().subrange(0, k) =~= s0);
                        lemma_menu_last_round(hand, energy, enemies@, init_potions, init_hp, init_max, init_dex,
                            new_answers(c0, cb), qs, cur_potions, cur_hp, cur_max, cur_dex, a, Seq::empty(), None,
                            seq![q], Ok(CombatAction::EndTurn));
                        assert(questions(self.player.comms.sent()) =~= questions(s0) + (qs + seq![q]));
                    }
                    return Ok(CombatAction::EndTurn);
                },
            }
        }
    }
}

} // verus!
