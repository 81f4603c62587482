use vstd::prelude::*;

use crate::components::{CardInCombat, Damage, Effect, PlayerCombatState, PlayerEffect, TargetEffect};
use crate::data::{spec_card_type, spec_is_innate, CardType, PlayerCondition, Relic};
use crate::player::comms::{lemma_sent_part, sent_part, tallied};
use crate::player::message::{StsError, StsMessage};
use crate::rng::java::{java_initial_scramble, java_shuffle};
use crate::rng::sts::{draw_budget, lemma_bounded_draw_below, range_draw, rng_step, RngState};
use crate::systems::base::combat_context::CombatContext;
use crate::systems::base::relic_system::RelicSystem;
use crate::types::Energy;

verus! {

broadcast use vstd::seq_lib::group_to_multiset_ensures;

/// Drawing cards in combat.
pub struct DrawSystem;

/// The number of cards drawn at the start of a turn: 5, and 2 more with Snecko Eye.
pub open spec fn cards_per_turn(relics: Seq<Relic>) -> u32 {
    if relics.contains(Relic::SneckoEye) {
        7
    } else {
        5
    }
}

/// The pile with the cards that are not innate first and the innate ones last (on top), each
/// group in its order.
pub open spec fn innate_on_top(pile: Seq<CardInCombat>) -> Seq<CardInCombat> {
    pile.filter(|c: CardInCombat| !spec_is_innate(c.card)) + pile.filter(|c: CardInCombat| spec_is_innate(c.card))
}

/// The number of innate cards of a pile.
pub open spec fn innate_count(pile: Seq<CardInCombat>) -> nat {
    pile.filter(|c: CardInCombat| spec_is_innate(c.card)).len()
}

/// A drawn card after the player's conditions, in order, with the cost generator and the
/// effect queue: each Confused rerolls both costs (0 to 3); Corruption makes a skill free this
/// turn; Evolve queues drawing its count for a status card; Fire Breathing queues its damage
/// (not an attack) to every enemy for a status or a curse.
pub open spec fn drawn_card_after(
    conditions: Seq<PlayerCondition>,
    card: CardInCombat,
    rng: RngState,
    queue: Seq<Effect>,
) -> (CardInCombat, RngState, Seq<Effect>)
    decreases conditions.len(),
{
    if conditions.len() == 0 {
        (card, rng, queue)
    } else {
        let (c, r, q) = drawn_card_after(conditions.drop_last(), card, rng, queue);
        let kind = spec_card_type(c.card);
        match conditions.last() {
            PlayerCondition::Confused => {
                let (r2, v) = range_draw(r, 0, 4);
                (CardInCombat { cost_this_combat: v as Energy, cost_this_turn: v as Energy, ..c }, r2, q)
            },
            PlayerCondition::Corruption => if kind == CardType::Skill {
                (CardInCombat { cost_this_turn: 0, ..c }, r, q)
            } else {
                (c, r, q)
            },
            PlayerCondition::Evolve(n) => if kind == CardType::Status {
                (c, r, q.push(Effect::PlayerState(PlayerEffect::Draw(n))))
            } else {
                (c, r, q)
            },
            PlayerCondition::FireBreathing(hp) => if kind == CardType::Status || kind == CardType::Curse {
                (c, r, q.push(Effect::PlayerState(PlayerEffect::ToAllEnemies(TargetEffect::Deal(Damage::BlockableNonAttack(hp))))))
            } else {
                (c, r, q)
            },
            _ => (c, r, q),
        }
    }
}

/// Whether drawing is blocked: No Draw, or ten cards in hand.
pub open spec fn draw_blocked(pcs: &PlayerCombatState) -> bool {
    pcs.conditions@.contains(PlayerCondition::NoDraw) || pcs.hand@.len() >= 10
}

/// The card drawn, if any, and the draw and discard piles and the shuffle generator after
/// taking it: the top of the draw pile, or, when it is empty, the top of the discard pile
/// once shuffled the game's way (one draw of the generator) into the draw pile.
pub open spec fn card_taken(draw: Seq<CardInCombat>, discard: Seq<CardInCombat>, rng: RngState) -> (Option<CardInCombat>, Seq<CardInCombat>, Seq<CardInCombat>, RngState) {
    if draw.len() > 0 {
        (Some(draw.last()), draw.drop_last(), discard, rng)
    } else {
        let (next, raw) = rng_step(rng);
        let shuffled = java_shuffle(discard, java_initial_scramble(raw), discard.len()).0;
        if shuffled.len() > 0 {
            (Some(shuffled.last()), shuffled.drop_last(), Seq::empty(), next)
        } else {
            (None, shuffled, Seq::empty(), next)
        }
    }
}

/// `after` is `before` once one card was drawn (see `DrawSystem::draw_one_card`); `failed`
/// tells whether a message could not be sent.
pub open spec fn drew_one(before: CombatContext, after: CombatContext, failed: bool) -> bool {
    &&& draw_blocked(&before.pcs) ==> after == before && !failed
    &&& !draw_blocked(&before.pcs) && !failed ==> ({
        let (taken, draw, discard, shuffle) = card_taken(before.pcs.draw_pile@, before.pcs.discard_pile@, before.shuffle_rng@);
        &&& after.pcs.draw_pile@ == draw
        &&& after.pcs.discard_pile@ == discard
        &&& after.shuffle_rng@ == shuffle
        &&& match taken {
            Some(card) => {
                let (c, rng, queue) = drawn_card_after(before.pcs.conditions@, card, before.card_randomizer_rng@, before.effect_queue@);
                &&& after.pcs.hand@ == before.pcs.hand@.push(c)
                &&& after.card_randomizer_rng@ == rng
                &&& after.effect_queue@ == queue
            },
            None => {
                &&& after.pcs.hand@ == before.pcs.hand@
                &&& after.card_randomizer_rng@ == before.card_randomizer_rng@
                &&& after.effect_queue@ == before.effect_queue@
            },
        }
    })
    &&& after.pcs.conditions@ == before.pcs.conditions@
    &&& after.pcs.exhaust_pile@ == before.pcs.exhaust_pile@
    &&& after.pcs.energy == before.pcs.energy
    &&& after.pcs.block == before.pcs.block
    &&& after.pps == before.pps
    &&& after.enemy_party == before.enemy_party
    &&& !draw_blocked(&before.pcs) ==> ({
        let msgs = draw_messages(&before.pcs, before.shuffle_rng@, before.card_randomizer_rng@, before.effect_queue@);
        &&& !failed ==> after.comms.sent() == before.comms.sent() + msgs
        &&& failed ==> sent_part(before.comms.sent(), after.comms.sent(), msgs)
    })
    &&& after.pcs.strength == before.pcs.strength
    &&& after.pcs.dexterity == before.pcs.dexterity
    &&& after.pcs.hp_loss_count == before.pcs.hp_loss_count
    &&& after.maybe_enemy_index == before.maybe_enemy_index
    &&& after.misc_rng == before.misc_rng
    &&& after.enemy_rng == before.enemy_rng
    &&& tallied(before.comms, after.comms, failed)
}

impl DrawSystem {
    /// Sets up the draw pile: shuffled the game's way, innate cards on top; when there are more
    /// innate cards than the first turn draws, drawing the rest is queued.
    pub fn on_combat_started(ctx: &mut CombatContext)
        requires
            old(ctx).pcs.draw_pile@.len() <= 0x8000_0000,
        ensures
            ({
                let (next, raw) = rng_step(old(ctx).shuffle_rng@);
                let shuffled = java_shuffle(old(ctx).pcs.draw_pile@, java_initial_scramble(raw), old(ctx).pcs.draw_pile@.len()).0;
                let per_turn = cards_per_turn(old(ctx).pps.relics@);
                &&& final(ctx).pcs.draw_pile@ == innate_on_top(shuffled)
                &&& final(ctx).shuffle_rng@ == next
                &&& final(ctx).effect_queue@ == if innate_count(shuffled) > per_turn {
                    old(ctx).effect_queue@.push(Effect::PlayerState(PlayerEffect::Draw((innate_count(shuffled) - per_turn) as u32)))
                } else {
                    old(ctx).effect_queue@
                }
            }),
            final(ctx).pcs == (PlayerCombatState { draw_pile: final(ctx).pcs.draw_pile, ..old(ctx).pcs }),
            final(ctx).pps == old(ctx).pps,
            final(ctx).comms == old(ctx).comms,
    {
        let ghost pile = ctx.pcs.draw_pile@;
        ctx.shuffle_rng.java_compat_shuffle(&mut ctx.pcs.draw_pile);
        let ghost shuffled = ctx.pcs.draw_pile@;
        assert(shuffled.to_multiset().len() == pile.to_multiset().len());
        let (sorted, innate) = put_innate_on_top(&ctx.pcs.draw_pile);
        ctx.pcs.draw_pile = sorted;
        let cards_to_draw = 5 + RelicSystem::extra_cards_to_draw_at_start_of_player_turn(&ctx.pps);
        if innate > cards_to_draw {
            ctx.effect_queue.push_back(Effect::PlayerState(PlayerEffect::Draw((innate - cards_to_draw) as u32)));
        }
    }

    /// Queues drawing the turn's cards: 5, and 2 more with Snecko Eye.
    pub fn on_player_turn_started(ctx: &mut CombatContext)
        ensures
            final(ctx).effect_queue@ == old(ctx).effect_queue@.push(
                Effect::PlayerState(PlayerEffect::Draw(cards_per_turn(old(ctx).pps.relics@))),
            ),
            final(ctx).pcs == old(ctx).pcs,
            final(ctx).pps == old(ctx).pps,
            final(ctx).comms == old(ctx).comms,
            final(ctx).enemy_party == old(ctx).enemy_party,
    {
        let count = 5 + RelicSystem::extra_cards_to_draw_at_start_of_player_turn(&ctx.pps);
        ctx.effect_queue.push_back(Effect::PlayerState(PlayerEffect::Draw(count as u32)));
    }

    /// Draws one card (see `card_taken`), unless No Draw or a full hand blocks it; the card goes
    /// through the player's conditions (see `drawn_card_after`) into the hand. The client is
    /// told of a shuffle and of the card drawn.
    pub fn draw_one_card(ctx: &mut CombatContext) -> (r: Result<(), StsError>)
        requires
            old(ctx).pcs.discard_pile@.len() <= 0x8000_0000,
        ensures
            drew_one(*old(ctx), *final(ctx), r is Err),
            r matches Err(e) ==> e == StsError::Disconnected,
            tallied(old(ctx).comms, final(ctx).comms, r is Err),
    {
        let ghost s0 = ctx.comms.sent();
        let ghost msgs = draw_messages(&ctx.pcs, ctx.shuffle_rng@, ctx.card_randomizer_rng@, ctx.effect_queue@);
        if contains_no_draw(&ctx.pcs.conditions) || ctx.pcs.hand.len() >= 10 {
            return Ok(());
        }
        match ctx.pcs.draw_pile.pop() {
            Some(card) => {
                let r = Self::put_drawn_card_into_hand(ctx, card);
                proof {
                    assert(ctx.comms.sent() =~= s0 + msgs.take(1));
                    assert(msgs.take(1) =~= msgs);
                    lemma_sent_part(s0, msgs, 1);
                }
                r
            },
            None => {
                let told = ctx.comms.send_shuffling_discard_to_draw();
                if told.is_err() {
                    proof {
                        assert(ctx.comms.sent() =~= s0 + msgs.take(1));
                        lemma_sent_part(s0, msgs, 1);
                    }
                    return told;
                }
                ctx.shuffle_rng.java_compat_shuffle(&mut ctx.pcs.discard_pile);
                ctx.pcs.draw_pile.append(&mut ctx.pcs.discard_pile);
                match ctx.pcs.draw_pile.pop() {
                    Some(card) => {
                        let r = Self::put_drawn_card_into_hand(ctx, card);
                        proof {
                            assert(ctx.comms.sent() =~= s0 + msgs.take(2));
                            assert(msgs.take(2) =~= msgs);
                            lemma_sent_part(s0, msgs, 2);
                        }
                        r
                    },
                    None => {
                        assert(ctx.comms.sent() =~= s0 + msgs);
                        Ok(())
                    },
                }
            },
        }
    }

    /// Puts a drawn card through the player's conditions (see `drawn_card_after`) into the
    /// hand and tells the client.
    fn put_drawn_card_into_hand(ctx: &mut CombatContext, combat_card: CardInCombat) -> (r: Result<(), StsError>)
        requires
            !old(ctx).pcs.conditions@.contains(PlayerCondition::NoDraw),
            old(ctx).pcs.hand@.len() < 10,
        ensures
            ({
                let (c, rng, queue) = drawn_card_after(old(ctx).pcs.conditions@, combat_card, old(ctx).card_randomizer_rng@, old(ctx).effect_queue@);
                &&& final(ctx).pcs.hand@ == old(ctx).pcs.hand@.push(c)
                &&& final(ctx).card_randomizer_rng@ == rng
                &&& final(ctx).effect_queue@ == queue
            }),
            final(ctx).pcs == (PlayerCombatState { hand: final(ctx).pcs.hand, ..old(ctx).pcs }),
            final(ctx).shuffle_rng == old(ctx).shuffle_rng,
            final(ctx).pps == old(ctx).pps,
            final(ctx).enemy_party == old(ctx).enemy_party,
            final(ctx).maybe_enemy_index == old(ctx).maybe_enemy_index,
            final(ctx).misc_rng == old(ctx).misc_rng,
            final(ctx).enemy_rng == old(ctx).enemy_rng,
            tallied(old(ctx).comms, final(ctx).comms, r is Err),
            final(ctx).comms.sent() == old(ctx).comms.sent().push(StsMessage::CardDrawn(old(ctx).pcs.hand@.len() as usize,
                drawn_card_after(old(ctx).pcs.conditions@, combat_card, old(ctx).card_randomizer_rng@, old(ctx).effect_queue@).0.card)),
            r matches Err(e) ==> e == StsError::Disconnected,
    {
        let mut card = combat_card;
        let mut i: usize = 0;
        while i < ctx.pcs.conditions.len()
            invariant
                i <= ctx.pcs.conditions@.len(),
                ctx.pcs == old(ctx).pcs,
                ctx.shuffle_rng == old(ctx).shuffle_rng,
                ctx.pps == old(ctx).pps,
                ctx.enemy_party == old(ctx).enemy_party,
                ctx.comms == old(ctx).comms,
                ctx.maybe_enemy_index == old(ctx).maybe_enemy_index,
                ctx.misc_rng == old(ctx).misc_rng,
                ctx.enemy_rng == old(ctx).enemy_rng,
                (card, ctx.card_randomizer_rng@, ctx.effect_queue@) == drawn_card_after(
                    ctx.pcs.conditions@.subrange(0, i as int),
                    combat_card,
                    old(ctx).card_randomizer_rng@,
                    old(ctx).effect_queue@,
                ),
            decreases ctx.pcs.conditions@.len() - i,
        {
            proof {
                let pre = ctx.pcs.conditions@.subrange(0, i as int + 1);
                assert(pre.drop_last() == ctx.pcs.conditions@.subrange(0, i as int));
                assert(pre.last() == ctx.pcs.conditions@[i as int]);
            }
            match ctx.pcs.conditions[i] {
                PlayerCondition::Confused => {
                    let costs: Vec<Energy> = vec![0, 1, 2, 3];
                    let ghost r0 = ctx.card_randomizer_rng@;
                    let cost = *ctx.card_randomizer_rng.choose_element(costs.as_slice());
                    proof {
                        lemma_bounded_draw_below(r0, 4, draw_budget());
                        let v = range_draw(r0, 0, 4).1;
                        assert(v < 4);
                        assert(costs@[v as int] == v as Energy) by {
                            if v == 0 {
                            } else if v == 1 {
                            } else if v == 2 {
                            } else {
                            }
                        }
                    }
                    card.cost_this_combat = cost;
                    card.cost_this_turn = cost;
                },
                PlayerCondition::Corruption => {
                    if card.card.card_type() == CardType::Skill {
                        card.cost_this_turn = 0;
                    }
                },
                PlayerCondition::Evolve(draw_count) => {
                    if card.card.card_type() == CardType::Status {
                        ctx.effect_queue.push_back(Effect::PlayerState(PlayerEffect::Draw(draw_count)));
                    }
                },
                PlayerCondition::FireBreathing(hp) => {
                    let kind = card.card.card_type();
                    if kind == CardType::Status || kind == CardType::Curse {
                        ctx.effect_queue.push_back(Effect::PlayerState(
                            PlayerEffect::ToAllEnemies(TargetEffect::Deal(Damage::BlockableNonAttack(hp))),
                        ));
                    }
                },
                _ => {},
            }
            i = i + 1;
        }
        assert(ctx.pcs.conditions@.subrange(0, ctx.pcs.conditions@.len() as int) == ctx.pcs.conditions@);
        ctx.pcs.hand.push(card);
        let index = ctx.pcs.hand.len() - 1;
        ctx.comms.send_card_drawn(index, card.card)
    }
}

/// What the client is told when a card is drawn: the shuffle of the discard pile into the draw
/// pile when the draw pile is empty, then the card drawn (as the conditions leave it) with its
/// place in the hand, if there was one to draw.
pub open spec fn draw_messages(pcs: &PlayerCombatState, shuffle: RngState, costs: RngState, queue: Seq<Effect>) -> Seq<StsMessage> {
    let (taken, draw, discard, next) = card_taken(pcs.draw_pile@, pcs.discard_pile@, shuffle);
    let drawn = match taken {
        Some(card) => seq![StsMessage::CardDrawn(pcs.hand@.len() as usize, drawn_card_after(pcs.conditions@, card, costs, queue).0.card)],
        None => Seq::empty(),
    };
    if pcs.draw_pile@.len() > 0 {
        drawn
    } else {
        seq![StsMessage::ShufflingDiscardToDraw] + drawn
    }
}

/// Whether No Draw is among the conditions.
fn contains_no_draw(conditions: &Vec<PlayerCondition>) -> (r: bool)
    ensures
        r == conditions@.contains(PlayerCondition::NoDraw),
{
    let mut i: usize = 0;
    while i < conditions.len()
        invariant
            i <= conditions@.len(),
            forall|k: int| 0 <= k < i ==> conditions@[k] != PlayerCondition::NoDraw,
        decreases conditions@.len() - i,
    {
        if conditions[i] == PlayerCondition::NoDraw {
            assert(conditions@[i as int] == PlayerCondition::NoDraw);
            return true;
        }
        i = i + 1;
    }
    false
}

/// The pile with its innate cards on top (see `innate_on_top`), and how many there are.
fn put_innate_on_top(pile: &Vec<CardInCombat>) -> (r: (Vec<CardInCombat>, usize))
    ensures
        r.0@ == innate_on_top(pile@),
        r.1 == innate_count(pile@),
{
    let mut rest: Vec<CardInCombat> = Vec::new();
    let mut innate: Vec<CardInCombat> = Vec::new();
    let mut i: usize = 0;
    while i < pile.len()
        invariant
            i <= pile@.len(),
            rest@ == pile@.subrange(0, i as int).filter(|c: CardInCombat| !spec_is_innate(c.card)),
            innate@ == pile@.subrange(0, i as int).filter(|c: CardInCombat| spec_is_innate(c.card)),
            innate@.len() <= i,
        decreases pile@.len() - i,
    {
        let c = pile[i];
        proof {
            let s = pile@.subrange(0, i as int + 1);
            assert(s.drop_last() == pile@.subrange(0, i as int));
            assert(s.last() == c);
            reveal_with_fuel(Seq::filter, 1);
        }
        if c.card.is_innate() {
            innate.push(c);
        } else {
            rest.push(c);
        }
        i = i + 1;
    }
    assert(pile@.subrange(0, pile@.len() as int) == pile@);
    let count = innate.len();
    rest.append(&mut innate);
    (rest, count)
}


/// The player's conditions never change which card was drawn, only its costs.
pub proof fn lemma_drawn_card_keeps_its_kind(conditions: Seq<PlayerCondition>, card: CardInCombat, rng: RngState, queue: Seq<Effect>)
    ensures
        drawn_card_after(conditions, card, rng, queue).0.card == card.card,
    decreases conditions.len(),
{
    if conditions.len() > 0 {
        lemma_drawn_card_keeps_its_kind(conditions.drop_last(), card, rng, queue);
    }
}

/// With Fire Breathing last among the player's conditions, drawing a status or a curse queues
/// its damage (not an attack) to every enemy after what the other conditions queued; drawing
/// any other card queues nothing more.
pub proof fn law_fire_breathing_answers_statuses_and_curses(
    conditions: Seq<PlayerCondition>,
    n: u32,
    card: CardInCombat,
    rng: RngState,
    queue: Seq<Effect>,
)
    ensures
        ({
            let before = drawn_card_after(conditions, card, rng, queue).2;
            let after = drawn_card_after(conditions.push(PlayerCondition::FireBreathing(n)), card, rng, queue).2;
            &&& (spec_card_type(card.card) == CardType::Curse || spec_card_type(card.card) == CardType::Status) ==> after
                == before.push(Effect::PlayerState(PlayerEffect::ToAllEnemies(TargetEffect::Deal(Damage::BlockableNonAttack(n)))))
            &&& !(spec_card_type(card.card) == CardType::Curse || spec_card_type(card.card) == CardType::Status) ==> after == before
        }),
{
    let longer = conditions.push(PlayerCondition::FireBreathing(n));
    assert(longer.drop_last() =~= conditions);
    lemma_drawn_card_keeps_its_kind(conditions, card, rng, queue);
}

} // verus!
