use vstd::prelude::*;

use crate::components::PlayerPersistentState;
use crate::data::Card;
use crate::player::comms::{
    asked, card_answer, card_choices, exchanges_added, obtain_prompt, one_more, removal_answer, removal_choices, Comms, tallied,
};
use crate::player::message::{StsError, StsMessage};

verus! {

/// The player's deck; the client is told of every change.
pub struct DeckSystem;

/// `after` is `before` with only the deck changed, to `deck`.
pub open spec fn deck_changed(before: &PlayerPersistentState, after: &PlayerPersistentState, deck: Seq<Card>) -> bool {
    &&& after.deck@ == deck
    &&& after.hp == before.hp
    &&& after.hp_max == before.hp_max
    &&& after.gold == before.gold
    &&& after.relics@ == before.relics@
    &&& after.potions@ == before.potions@
}

impl DeckSystem {
    /// Tells the client the deck.
    pub fn notify_player(comms: &mut Comms, pps: &PlayerPersistentState) -> (r: Result<(), StsError>)
        ensures
            one_more(old(comms).sent(), final(comms).sent()),
            final(comms).sent().last() matches StsMessage::Deck(v) && v@ == pps.deck@,
            r matches Err(e) ==> e == StsError::Disconnected,
            tallied(*old(comms), *final(comms), r is Err),
    {
        comms.send_deck(pps.deck.as_slice())
    }

    /// Offers the cards and Skip; the card taken joins the deck.
    pub fn choose_card_to_obtain(comms: &mut Comms, pps: &mut PlayerPersistentState, cards: &[Card]) -> (r: Result<(), StsError>)
        ensures
            deck_changed(old(pps), final(pps), final(pps).deck@),
            final(pps).deck@ == old(pps).deck@
                || exists|i: int| 0 <= i < cards@.len() && final(pps).deck@ == old(pps).deck@.push(#[trigger] cards@[i]),
            asked(old(comms).sent(), final(comms).sent().subrange(0, old(comms).sent().len() as int + 1), obtain_prompt(true), card_choices(cards@)),
            final(pps).deck@ == old(pps).deck@ ==> final(comms).sent().len() == old(comms).sent().len() + 1,
            r matches Err(e) ==> e == StsError::Disconnected || e == StsError::InvalidChoice,
            exchanges_added(*old(comms), *final(comms)),
            (final(comms).hangups() > old(comms).hangups()) == (r == Err::<(), StsError>(StsError::Disconnected)),
            final(comms).hangups() == old(comms).hangups() ==> final(comms).received() == old(comms).received().push(
                final(comms).received().last()) && match card_answer(cards@, final(comms).received().last()) {
                    Ok(Some(c)) => r is Ok && final(pps).deck@ == old(pps).deck@.push(c),
                    Ok(None) => r is Ok && final(pps).deck@ == old(pps).deck@,
                    Err(e) => r == Err::<(), StsError>(e) && final(pps).deck@ == old(pps).deck@,
                },
    {
        let ghost s0 = comms.sent();
        let chosen = comms.choose_card_to_obtain(cards, true);
        let ghost s1 = comms.sent();
        proof {
            assert(s1.subrange(0, s0.len() as int + 1) == s1);
            assert(comms.received().subrange(0, old(comms).received().len() as int) =~= old(comms).received());
            assert(old(comms).received().subrange(0, old(comms).received().len() as int) =~= old(comms).received());
        }
        match chosen? {
            Some(card) => {
                let r = Self::obtain_card(comms, pps, card);
                proof {
                    let s = comms.sent();
                    assert(s.subrange(0, s0.len() as int + 1) =~= s1);
                    let i = choose|i: int| 0 <= i < cards@.len() && cards@[i] == card;
                    assert(pps.deck@ == old(pps).deck@.push(cards@[i]));
                }
                r
            },
            None => Ok(()),
        }
    }

    /// Lets the client pick a card of the deck, removes it, and tells the client the card
    /// removed and the deck.
    pub fn choose_card_to_remove(comms: &mut Comms, pps: &mut PlayerPersistentState) -> (r: Result<(), StsError>)
        ensures
            deck_changed(old(pps), final(pps), final(pps).deck@),
            final(pps).deck@ == old(pps).deck@
                || exists|i: int| 0 <= i < old(pps).deck@.len() && final(pps).deck@ == old(pps).deck@.remove(i),
            asked(old(comms).sent(), final(comms).sent().subrange(0, old(comms).sent().len() as int + 1), crate::player::message::Prompt::RemoveCard,
                removal_choices(old(pps).deck@)),
            r matches Err(e) ==> e == StsError::Disconnected || e == StsError::InvalidChoice,
            exchanges_added(*old(comms), *final(comms)),
            (final(comms).hangups() > old(comms).hangups()) == (r == Err::<(), StsError>(StsError::Disconnected)),
            final(comms).hangups() == old(comms).hangups() ==> final(comms).received() == old(comms).received().push(
                final(comms).received().last()) && match removal_answer(old(pps).deck@, final(comms).received().last()) {
                    Ok(i) => r is Ok && final(pps).deck@ == old(pps).deck@.remove(i as int),
                    Err(e) => r == Err::<(), StsError>(e) && final(pps).deck@ == old(pps).deck@,
                },
    {
        let ghost s0 = comms.sent();
        let chosen = comms.choose_card_to_remove(pps.deck.as_slice());
        let ghost s1 = comms.sent();
        proof {
            assert(s1.subrange(0, s0.len() as int + 1) == s1);
            assert(comms.received().subrange(0, old(comms).received().len() as int) =~= old(comms).received());
            assert(old(comms).received().subrange(0, old(comms).received().len() as int) =~= old(comms).received());
        }
        let deck_index = chosen?;
        let card = pps.deck.remove(deck_index);
        let sent = comms.send_card_removed(card);
        proof {
            assert(comms.sent().subrange(0, s0.len() as int + 1) =~= s1);
        }
        sent?;
        let r = Self::notify_player(comms, pps);
        proof {
            assert(comms.sent().subrange(0, s0.len() as int + 1) =~= s1);
        }
        r
    }

    /// Adds the card to the deck and tells the client the card obtained and the deck.
    pub(crate) fn obtain_card(comms: &mut Comms, pps: &mut PlayerPersistentState, card: Card) -> (r: Result<(), StsError>)
        ensures
            deck_changed(old(pps), final(pps), old(pps).deck@.push(card)),
            final(comms).sent().len() >= old(comms).sent().len(),
            final(comms).sent().subrange(0, old(comms).sent().len() as int) == old(comms).sent(),
            r is Ok ==> final(comms).sent().len() == old(comms).sent().len() + 2,
            r is Ok ==> final(comms).sent()[old(comms).sent().len() as int] == StsMessage::CardObtained(card),
            r is Ok ==> (final(comms).sent().last() matches StsMessage::Deck(v) && v@ == final(pps).deck@),
            r matches Err(e) ==> e == StsError::Disconnected,
            tallied(*old(comms), *final(comms), r is Err),
    {
        pps.deck.push(card);
        let ghost s0 = comms.sent();
        let sent = comms.send_card_obtained(card);
        proof {
            assert(comms.sent().subrange(0, s0.len() as int) =~= s0);
        }
        sent?;
        let ghost s1 = comms.sent();
        let r = Self::notify_player(comms, pps);
        proof {
            assert(comms.sent().subrange(0, s0.len() as int) =~= s0);
            assert(comms.sent()[s0.len() as int] == comms.sent().drop_last()[s0.len() as int]);
            assert(s1[s0.len() as int] == StsMessage::CardObtained(card));
        }
        r
    }
}

} // verus!
