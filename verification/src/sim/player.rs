use vstd::prelude::*;

use crate::data::{Card, Character, NeowBlessing, Potion, Relic};
use crate::player::comms::{
    answered, asked, asked_then, blessing_answer, card_answer, card_choices, exchanges_added, new_answers, removal_answer, tallied, lemma_asked_then, main_screen_choices, potion_choices, removal_choices, sent_more,
    Comms, MainScreenAction,
};
use crate::player::controller::{filled_slots, lemma_emptying_a_slot};
use crate::player::message::{Choice, PotionAction, Prompt, StsError, StsMessage};
use crate::player::state::{
    first_empty_slot, has_empty_slot, lemma_first_empty_slot, potions_after_obtaining, spec_min, spec_saturating_add,
    spec_saturating_sub, PlayerState, PlayerStateView,
};

verus! {

/// The player's state in the game (hit points, gold, deck, relics, potions) together with the
/// channels to the client, which is told of every change and asked for every decision.
pub struct Player {
    pub state: PlayerState,
    pub comms: Comms,
}

/// No more slots are filled than there are.
pub proof fn lemma_filled_at_most(potions: Seq<Option<Potion>>, n: int)
    requires
        0 <= n <= potions.len(),
    ensures
        filled_slots(potions, n) <= n,
    decreases n,
{
    if n > 0 {
        lemma_filled_at_most(potions, n - 1);
    }
}

/// The position of the first occurrence of `card` in `deck`, which must hold it.
fn first_position(deck: &[Card], card: Card) -> (r: usize)
    requires
        deck@.contains(card),
    ensures
        r < deck@.len(),
        deck@[r as int] == card,
        forall|k: int| 0 <= k < r ==> deck@[k] != card,
{
    let mut i: usize = 0;
    while i < deck.len()
        invariant
            i <= deck@.len(),
            deck@.contains(card),
            forall|k: int| 0 <= k < i ==> deck@[k] != card,
        decreases deck@.len() - i,
    {
        if deck[i] == card {
            return i;
        }
        i = i + 1;
    }
    proof {
        let k = choose|k: int| 0 <= k < deck@.len() && deck@[k] == card;
    }
    0
}

/// What choosing potions comes to for the client's `answers`, round after round: while a slot
/// is free, the client is offered the `remaining` potions and Skip; an answer naming a potion
/// puts it in the first free slot and takes it off the offer, Skip ends with `Ok`, an answer
/// naming no option ends with `InvalidChoice`; with no free slot it ends with `Ok`. Gives the
/// slots and the result, or `None` when the answers do not fit the rounds.
pub open spec fn slot_rounds(held: Seq<Option<Potion>>, remaining: Seq<Potion>, answers: Seq<usize>)
    -> Option<(Seq<Option<Potion>>, Result<(), StsError>)>
    decreases answers.len(),
{
    if !has_empty_slot(held) {
        if answers.len() == 0 { Some((held, Ok(()))) } else { None }
    } else if answers.len() == 0 {
        None
    } else {
        let a = answers[0];
        let rest = answers.drop_first();
        if a >= remaining.len() {
            if rest.len() == 0 {
                Some((held, if a == remaining.len() { Ok(()) } else { Err(StsError::InvalidChoice) }))
            } else {
                None
            }
        } else {
            slot_rounds(potions_after_obtaining(held, remaining[a as int]), remaining.remove(a as int), rest)
        }
    }
}

/// One more answer naming a potion moves the rounds on.
proof fn lemma_slot_round(
    held0: Seq<Option<Potion>>, rem0: Seq<Potion>, done: Seq<usize>,
    held: Seq<Option<Potion>>, rem: Seq<Potion>, a: usize,
)
    requires
        forall|rest: Seq<usize>| #[trigger] slot_rounds(held0, rem0, done + rest) == slot_rounds(held, rem, rest),
        has_empty_slot(held),
        a < rem.len(),
    ensures
        forall|rest: Seq<usize>| #[trigger] slot_rounds(held0, rem0, done.push(a) + rest)
            == slot_rounds(potions_after_obtaining(held, rem[a as int]), rem.remove(a as int), rest),
{
    assert forall|rest: Seq<usize>| #[trigger] slot_rounds(held0, rem0, done.push(a) + rest)
        == slot_rounds(potions_after_obtaining(held, rem[a as int]), rem.remove(a as int), rest) by {
        let longer = seq![a] + rest;
        assert(done + longer =~= done.push(a) + rest);
        assert(longer[0] == a);
        assert(longer.drop_first() =~= rest);
        assert(slot_rounds(held0, rem0, done + longer) == slot_rounds(held, rem, longer));
    }
}

/// The last answer ends the rounds as `slot_rounds` says.
proof fn lemma_slot_last_round(
    held0: Seq<Option<Potion>>, rem0: Seq<Potion>, done: Seq<usize>,
    held: Seq<Option<Potion>>, rem: Seq<Potion>, a: usize,
)
    requires
        forall|rest: Seq<usize>| #[trigger] slot_rounds(held0, rem0, done + rest) == slot_rounds(held, rem, rest),
        has_empty_slot(held),
        a >= rem.len(),
    ensures
        slot_rounds(held0, rem0, done.push(a))
            == Some((held, if a == rem.len() { Ok::<(), StsError>(()) } else { Err::<(), StsError>(StsError::InvalidChoice) })),
{
    let longer = seq![a];
    assert(done + longer =~= done.push(a));
    assert(longer.drop_first().len() == 0);
    assert(slot_rounds(held0, rem0, done + longer) == slot_rounds(held, rem, longer));
}

impl Player {
    /// The player's state.
    pub open spec fn state(&self) -> PlayerStateView {
        self.state@
    }

    /// The messages sent to the client so far.
    pub open spec fn sent(&self) -> Seq<StsMessage> {
        self.comms.sent()
    }

    /// A new player of `character` (full health, 99 gold, the starting relic and deck, three
    /// empty potion slots) talking over the given channels.
    pub fn new(
        character: Character,
        input_rx: std::sync::mpsc::Receiver<usize>,
        output_tx: std::sync::mpsc::Sender<StsMessage>,
    ) -> (r: Player)
        ensures
            r.state().hp == crate::data::spec_starting_hp(character),
            r.state().hp_max == crate::data::spec_starting_hp(character),
            r.state().gold == 99,
            r.state().relics == seq![crate::data::spec_starting_relic(character)],
            r.state().deck == crate::data::spec_starting_deck(character),
            r.state().potions == seq![None::<Potion>, None, None],
            r.sent() == Seq::<StsMessage>::empty(),
    {
        Player { state: PlayerState::new(character), comms: Comms::new(input_rx, output_tx) }
    }

    pub fn hp_max(&self) -> (r: u32)
        ensures
            r == self.state().hp_max,
    {
        self.state.hp_max()
    }

    pub fn hp(&self) -> (r: u32)
        ensures
            r == self.state().hp,
    {
        self.state.hp()
    }

    pub fn gold(&self) -> (r: u32)
        ensures
            r == self.state().gold,
    {
        self.state.gold()
    }

    /// Loses hit points and tells the client the new health; when none are left, tells the
    /// client the game is lost and fails with `PlayerDied`.
    pub fn take_damage(&mut self, amount: u32) -> (r: Result<(), StsError>)
        ensures
            final(self).state() == (PlayerStateView { hp: spec_saturating_sub(old(self).state().hp, amount), ..old(self).state() }),
            final(self).state().hp == 0 ==> r is Err,
            final(self).state().hp > 0 ==> final(self).sent() == old(self).sent().push(
                StsMessage::Health((final(self).state().hp, final(self).state().hp_max))),
            r == Err::<(), StsError>(StsError::PlayerDied) ==> final(self).state().hp == 0 && final(self).sent()
                == old(self).sent().push(StsMessage::Health((0, final(self).state().hp_max))).push(StsMessage::GameOver(false)),
            r matches Err(e) ==> e == StsError::Disconnected || e == StsError::PlayerDied,
            tallied(old(self).comms, final(self).comms, r == Err::<(), StsError>(StsError::Disconnected)),
            (r == Err::<(), StsError>(StsError::PlayerDied)) == (final(self).state().hp == 0
                && final(self).comms.hangups() == old(self).comms.hangups()),
    {
        self.state.decrease_hp(amount);
        let health = self.state.health();
        self.comms.send_health_changed(health)?;
        if self.state.hp() == 0 {
            self.comms.send_game_over(false)?;
            Err(StsError::PlayerDied)
        } else {
            Ok(())
        }
    }

    /// Heals up to the maximum and tells the client the new health.
    pub fn increase_hp(&mut self, amount: u32) -> (r: Result<(), StsError>)
        ensures
            final(self).state() == (PlayerStateView { hp: spec_min(spec_saturating_add(old(self).state().hp, amount), old(self).state().hp_max), ..old(self).state() }),
            final(self).sent() == old(self).sent().push(StsMessage::Health((final(self).state().hp, final(self).state().hp_max))),
            r matches Err(e) ==> e == StsError::Disconnected,
            tallied(old(self).comms, final(self).comms, r is Err),
    {
        self.state.increase_hp(amount);
        let health = self.state.health();
        self.comms.send_health_changed(health)
    }

    /// Loses hit points and tells the client the new health.
    pub fn decrease_hp(&mut self, amount: u32) -> (r: Result<(), StsError>)
        ensures
            final(self).state() == (PlayerStateView { hp: spec_saturating_sub(old(self).state().hp, amount), ..old(self).state() }),
            final(self).sent() == old(self).sent().push(StsMessage::Health((final(self).state().hp, final(self).state().hp_max))),
            r matches Err(e) ==> e == StsError::Disconnected,
            tallied(old(self).comms, final(self).comms, r is Err),
    {
        self.state.decrease_hp(amount);
        let health = self.state.health();
        self.comms.send_health_changed(health)
    }

    /// Replaces the deck.
    pub fn replace_deck(&mut self, deck: Vec<Card>)
        ensures
            final(self).state() == (PlayerStateView { deck: deck@, ..old(self).state() }),
            final(self).sent() == old(self).sent(),
    {
        self.state.set_deck(deck);
    }

    /// Raises maximum and current hit points and tells the client the new health.
    pub fn increase_hp_max(&mut self, amount: u32) -> (r: Result<(), StsError>)
        ensures
            final(self).state() == (PlayerStateView {
                hp: spec_saturating_add(old(self).state().hp, amount),
                hp_max: spec_saturating_add(old(self).state().hp_max, amount),
                ..old(self).state()
            }),
            final(self).sent() == old(self).sent().push(StsMessage::Health((final(self).state().hp, final(self).state().hp_max))),
            r matches Err(e) ==> e == StsError::Disconnected,
            tallied(old(self).comms, final(self).comms, r is Err),
    {
        self.state.increase_hp_max(amount);
        let health = self.state.health();
        self.comms.send_health_changed(health)
    }

    /// Lowers the maximum (and hit points to stay within it) and tells the client.
    pub fn decrease_hp_max(&mut self, amount: u32) -> (r: Result<(), StsError>)
        ensures
            final(self).state() == (PlayerStateView {
                hp: spec_min(old(self).state().hp, spec_saturating_sub(old(self).state().hp_max, amount)),
                hp_max: spec_saturating_sub(old(self).state().hp_max, amount),
                ..old(self).state()
            }),
            final(self).sent() == old(self).sent().push(StsMessage::Health((final(self).state().hp, final(self).state().hp_max))),
            r matches Err(e) ==> e == StsError::Disconnected,
            tallied(old(self).comms, final(self).comms, r is Err),
    {
        self.state.decrease_hp_max(amount);
        let health = self.state.health();
        self.comms.send_health_changed(health)
    }

    /// Loses gold and tells the client the new amount.
    pub fn decrease_gold(&mut self, amount: u32) -> (r: Result<(), StsError>)
        ensures
            final(self).state() == (PlayerStateView { gold: spec_saturating_sub(old(self).state().gold, amount), ..old(self).state() }),
            final(self).sent() == old(self).sent().push(StsMessage::Gold(final(self).state().gold)),
            r matches Err(e) ==> e == StsError::Disconnected,
            tallied(old(self).comms, final(self).comms, r is Err),
    {
        self.state.decrease_gold(amount);
        let gold = self.state.gold();
        self.comms.send_gold_changed(gold)
    }

    /// Gains gold and tells the client the new amount.
    pub fn increase_gold(&mut self, amount: u32) -> (r: Result<(), StsError>)
        ensures
            final(self).state() == (PlayerStateView { gold: spec_saturating_add(old(self).state().gold, amount), ..old(self).state() }),
            final(self).sent() == old(self).sent().push(StsMessage::Gold(final(self).state().gold)),
            r matches Err(e) ==> e == StsError::Disconnected,
            tallied(old(self).comms, final(self).comms, r is Err),
    {
        self.state.increase_gold(amount);
        let gold = self.state.gold();
        self.comms.send_gold_changed(gold)
    }

    /// Sends the deck, the potions and the relics, stopping at the first failure.
    pub fn send_initial_state(&mut self) -> (r: Result<(), StsError>)
        ensures
            final(self).state() == old(self).state(),
            sent_more(old(self).sent(), final(self).sent()),
            final(self).sent().len() <= old(self).sent().len() + 3,
            r is Ok ==> final(self).sent().len() == old(self).sent().len() + 3,
            r matches Err(e) ==> e == StsError::Disconnected,
            ({
                let k = old(self).sent().len() as int;
                let s = final(self).sent();
                &&& s[k] matches StsMessage::Deck(v) && v@ == old(self).state().deck
                &&& s.len() > k + 1 ==> (s[k + 1] matches StsMessage::Potions(v) && v@ == old(self).state().potions)
                &&& s.len() > k + 2 ==> (s[k + 2] matches StsMessage::Relics(v) && v@ == old(self).state().relics)
            }),
            tallied(old(self).comms, final(self).comms, r is Err),
    {
        let ghost s0 = self.comms.sent();
        let ghost k = s0.len() as int;
        let r1 = self.comms.send_deck(self.state.deck());
        let ghost s1 = self.comms.sent();
        assert(s1.drop_last() == s0);
        assert(s1.subrange(0, k) =~= s0);
        if r1.is_err() {
            return r1;
        }
        let r2 = self.comms.send_potions(self.state.potions());
        let ghost s2 = self.comms.sent();
        assert(s2.drop_last() == s1);
        assert(s2.subrange(0, k) =~= s0 && s2[k] == s1[k]);
        if r2.is_err() {
            return r2;
        }
        let r = self.comms.send_relics(self.state.relics());
        proof {
            let s3 = self.comms.sent();
            assert(s3.drop_last() == s2);
            assert(s3.subrange(0, k) =~= s0);
            assert(s3[k] == s2[k] && s3[k + 1] == s2[k + 1]);
        }
        r
    }

    /// Sends the map, drawn as text.
    pub fn send_map_string(&mut self, map_string: String) -> (r: Result<(), StsError>)
        ensures
            final(self).state() == old(self).state(),
            final(self).sent() == old(self).sent().push(StsMessage::MapText(map_string)),
            r matches Err(e) ==> e == StsError::Disconnected,
            tallied(old(self).comms, final(self).comms, r is Err),
    {
        self.comms.send_map_string(map_string)
    }

    /// Adds the card to the deck and tells the client.
    pub fn obtain_card(&mut self, card: Card) -> (r: Result<(), StsError>)
        ensures
            final(self).state() == (PlayerStateView { deck: old(self).state().deck.push(card), ..old(self).state() }),
            final(self).sent() == old(self).sent().push(StsMessage::CardObtained(card)),
            r matches Err(e) ==> e == StsError::Disconnected,
            tallied(old(self).comms, final(self).comms, r is Err),
    {
        self.state.obtain_card(card);
        self.comms.send_card_obtained(card)
    }

    /// Adds the relic and tells the client.
    pub fn obtain_relic(&mut self, relic: Relic) -> (r: Result<(), StsError>)
        ensures
            final(self).state() == (PlayerStateView { relics: old(self).state().relics.push(relic), ..old(self).state() }),
            final(self).sent() == old(self).sent().push(StsMessage::RelicObtained(relic)),
            r matches Err(e) ==> e == StsError::Disconnected,
            tallied(old(self).comms, final(self).comms, r is Err),
    {
        self.state.obtain_relic(relic);
        self.comms.send_relic_obtained(relic)
    }

    /// Asks the client to pick one of Neow's blessings.
    pub fn choose_neow_blessing(&mut self, blessings: &[NeowBlessing]) -> (r: Result<NeowBlessing, StsError>)
        ensures
            final(self).state() == old(self).state(),
            asked(old(self).sent(), final(self).sent(), Prompt::ChooseNeow,
                blessings@.map_values(|b: NeowBlessing| Choice::NeowBlessing(b))),
            r matches Ok(b) ==> blessings@.contains(b),
            r matches Err(e) ==> e == StsError::Disconnected || e == StsError::InvalidChoice,
            answered(old(self).comms, final(self).comms, r, |a: usize| blessing_answer(blessings@, a)),
    {
        self.comms.choose_neow_blessing(blessings)
    }

    /// Asks the client which column to climb into next; answers one of `options`.
    pub fn choose_movement_option(&mut self, options: Vec<u8>) -> (r: Result<u8, StsError>)
        ensures
            final(self).state() == old(self).state(),
            asked(old(self).sent(), final(self).sent(), Prompt::ClimbFloor,
                options@.map_values(|o: u8| Choice::ClimbFloor(o as usize))),
            r matches Ok(c) ==> options@.contains(c),
            r matches Err(e) ==> e == StsError::Disconnected || e == StsError::InvalidChoice,
            answered(old(self).comms, final(self).comms, r, |a: usize| if a < options@.len() {
                Ok::<u8, StsError>(options@[a as int])
            } else {
                Err::<u8, StsError>(StsError::InvalidChoice)
            }),
    {
        let mut columns: Vec<usize> = Vec::new();
        let mut i: usize = 0;
        while i < options.len()
            invariant
                i <= options@.len(),
                columns@.len() == i,
                forall|k: int| 0 <= k < i ==> columns@[k] == options@[k] as usize,
            decreases options@.len() - i,
        {
            columns.push(options[i] as usize);
            i = i + 1;
        }
        let no_actions: Vec<PotionAction> = Vec::new();
        proof {
            assert(main_screen_choices(columns@, no_actions@) =~= options@.map_values(|o: u8| Choice::ClimbFloor(o as usize)));
        }
        match self.comms.choose_main_screen_action(columns.as_slice(), no_actions.as_slice())? {
            MainScreenAction::ClimbFloor(c) => {
                proof {
                    let k = choose|k: int| 0 <= k < columns@.len() && columns@[k] == c;
                    assert(options@[k] as usize == c);
                }
                let column = c as u8;
                proof {
                    let k = choose|k: int| 0 <= k < columns@.len() && columns@[k] == c;
                    assert(options@[k] == column);
                }
                Ok(column)
            },
            MainScreenAction::Potion(_) => {
                Err(StsError::InvalidChoice)
            },
        }
    }

    /// Offers the cards and Skip; adds the card taken to the deck.
    pub fn choose_card_to_obtain(&mut self, card_vec: Vec<Card>) -> (r: Result<(), StsError>)
        ensures
            final(self).state() == old(self).state()
                && asked_then(old(self).sent(), final(self).sent(), Prompt::ChooseOne, card_choices(card_vec@), Seq::empty())
                || exists|c: Card| card_vec@.contains(c)
                    && final(self).state() == (PlayerStateView { deck: old(self).state().deck.push(c), ..old(self).state() })
                    && asked_then(old(self).sent(), final(self).sent(), Prompt::ChooseOne, card_choices(card_vec@),
                        seq![StsMessage::CardObtained(c)]),
            r matches Err(e) ==> e == StsError::Disconnected || e == StsError::InvalidChoice,
            exchanges_added(old(self).comms, final(self).comms),
            final(self).comms.received() == old(self).comms.received()
                ==> r == Err::<(), StsError>(StsError::Disconnected) && final(self).state() == old(self).state(),
            final(self).comms.received() != old(self).comms.received() ==> final(self).comms.received()
                == old(self).comms.received().push(final(self).comms.received().last())
                && match card_answer(card_vec@, final(self).comms.received().last()) {
                    Ok(Some(c)) => final(self).state() == (PlayerStateView { deck: old(self).state().deck.push(c), ..old(self).state() })
                        && (r is Ok || r == Err::<(), StsError>(StsError::Disconnected)),
                    Ok(None) => final(self).state() == old(self).state() && r is Ok,
                    Err(e) => final(self).state() == old(self).state() && r == Err::<(), StsError>(e),
                },
    {
        let ghost s0 = self.comms.sent();
        let chosen = self.comms.choose_card_to_obtain(card_vec.as_slice(), true);
        let ghost s1 = self.comms.sent();
        proof {
            assert(self.comms.received().subrange(0, old(self).comms.received().len() as int) =~= old(self).comms.received());
            assert(old(self).comms.received().subrange(0, old(self).comms.received().len() as int) =~= old(self).comms.received());
        }
        proof {
            lemma_asked_then(s0, s1, Prompt::ChooseOne, card_choices(card_vec@), Seq::empty());
            assert(s1 + Seq::<StsMessage>::empty() =~= s1);
        }
        match chosen {
            Ok(Some(card)) => {
                let r = self.obtain_card(card);
                proof {
                    lemma_asked_then(s0, s1, Prompt::ChooseOne, card_choices(card_vec@), seq![StsMessage::CardObtained(card)]);
                    assert(s1 + seq![StsMessage::CardObtained(card)] =~= self.comms.sent());
                }
                r
            },
            Ok(None) => Ok(()),
            Err(e) => Err(e),
        }
    }

    /// While a potion slot is free, offers the remaining potions and Skip; each potion taken
    /// goes into the first free slot (the client is told which) and leaves the offer. Ends by
    /// sending the potion slots.
    pub fn choose_potions_to_obtain(&mut self, choices_vec: Vec<Potion>) -> (r: Result<(), StsError>)
        ensures
            final(self).state().deck == old(self).state().deck,
            final(self).state().gold == old(self).state().gold,
            final(self).state().hp == old(self).state().hp,
            final(self).state().hp_max == old(self).state().hp_max,
            final(self).state().relics == old(self).state().relics,
            final(self).state().potions.len() == old(self).state().potions.len(),
            forall|i: int| 0 <= i < old(self).state().potions.len() && old(self).state().potions[i] is Some
                ==> final(self).state().potions[i] == old(self).state().potions[i],
            forall|i: int| 0 <= i < old(self).state().potions.len() && old(self).state().potions[i] is None
                && final(self).state().potions[i] is Some ==> choices_vec@.contains(final(self).state().potions[i]->0),
            sent_more(old(self).sent(), final(self).sent()),
            has_empty_slot(old(self).state().potions) ==> asked(old(self).sent(),
                final(self).sent().subrange(0, old(self).sent().len() as int + 1), Prompt::ChooseNext, potion_choices(choices_vec@)),
            !has_empty_slot(old(self).state().potions) ==> final(self).state() == old(self).state()
                && final(self).sent().len() == old(self).sent().len() + 1,
            r is Ok ==> (final(self).sent().last() matches StsMessage::Potions(v) && v@ == final(self).state().potions),
            r matches Err(e) ==> e == StsError::Disconnected || e == StsError::InvalidChoice,
            exchanges_added(old(self).comms, final(self).comms),
            (final(self).comms.hangups() > old(self).comms.hangups()) == (r == Err::<(), StsError>(StsError::Disconnected)),
            final(self).comms.hangups() == old(self).comms.hangups() ==> slot_rounds(old(self).state().potions, choices_vec@,
                new_answers(old(self).comms, final(self).comms)) == Some((final(self).state().potions, r)),
    {
        let ghost offer = choices_vec@;
        let ghost s0 = self.comms.sent();
        let ghost c0 = self.comms;
        let ghost init_held = self.state().potions;
        let mut remaining = choices_vec;
        proof {
            assert(c0.received().subrange(0, c0.received().len() as int) =~= c0.received());
            assert forall|rest: Seq<usize>| #[trigger] slot_rounds(init_held, offer, new_answers(c0, self.comms) + rest)
                == slot_rounds(self.state().potions, remaining@, rest) by {
                assert(new_answers(c0, self.comms) + rest =~= rest);
            }
        }
        loop
            invariant_except_break
                forall|rest: Seq<usize>| #[trigger] slot_rounds(init_held, offer, new_answers(c0, self.comms) + rest)
                    == slot_rounds(self.state().potions, remaining@, rest),
            invariant
                c0 == old(self).comms,
                init_held == old(self).state().potions,
                self.comms.hangups() == c0.hangups(),
                exchanges_added(c0, self.comms),
                self.comms.sent().len() == s0.len() ==> self.state() == old(self).state()
                    && self.comms.sent() == s0 && remaining@ == offer,
                self.comms.sent().len() > s0.len() ==> sent_more(s0, self.comms.sent())
                    && has_empty_slot(old(self).state().potions)
                    && asked(s0, self.comms.sent().subrange(0, s0.len() as int + 1), Prompt::ChooseNext, potion_choices(offer)),
                self.comms.sent().len() >= s0.len(),
                s0 == old(self).sent(),
                offer == choices_vec@,
                forall|k: int| 0 <= k < remaining@.len() ==> offer.contains(#[trigger] remaining@[k]),
                forall|i: int| 0 <= i < old(self).state().potions.len() && old(self).state().potions[i] is None
                    && self.state().potions[i] is Some ==> offer.contains(self.state().potions[i]->0),
                self.state().deck == old(self).state().deck,
                self.state().gold == old(self).state().gold,
                self.state().hp == old(self).state().hp,
                self.state().hp_max == old(self).state().hp_max,
                self.state().relics == old(self).state().relics,
                self.state().potions.len() == old(self).state().potions.len(),
                forall|i: int| 0 <= i < old(self).state().potions.len() && old(self).state().potions[i] is Some
                    ==> self.state().potions[i] == old(self).state().potions[i],
            ensures
                self.comms.sent().len() == s0.len() ==> !has_empty_slot(old(self).state().potions),
                slot_rounds(init_held, offer, new_answers(c0, self.comms)) == Some((self.state().potions, Ok::<(), StsError>(()))),
            decreases self.state().potions.len() - filled_slots(self.state().potions, self.state().potions.len() as int),
        {
            let slot = self.state.first_empty_potion_slot();
            proof {
                lemma_first_empty_slot(self.state@.potions, 0);
                lemma_filled_at_most(self.state@.potions, self.state@.potions.len() as int);
            }
            if slot >= self.state.potions().len() {
                proof {
                    assert(new_answers(c0, self.comms) + Seq::<usize>::empty() =~= new_answers(c0, self.comms));
                    assert(slot_rounds(init_held, offer, new_answers(c0, self.comms) + Seq::<usize>::empty())
                        == slot_rounds(self.state().potions, remaining@, Seq::<usize>::empty()));
                }
                break;
            }
            let mut choices: Vec<Choice> = Vec::new();
            let mut i: usize = 0;
            while i < remaining.len()
                invariant
                    i <= remaining@.len(),
                    choices@ == remaining@.subrange(0, i as int).map_values(|p: Potion| Choice::ObtainPotion(p)),
                decreases remaining@.len() - i,
            {
                choices.push(Choice::ObtainPotion(remaining[i]));
                proof {
                    assert(remaining@.subrange(0, i as int + 1).map_values(|p: Potion| Choice::ObtainPotion(p))
                        =~= remaining@.subrange(0, i as int).map_values(|p: Potion| Choice::ObtainPotion(p)).push(Choice::ObtainPotion(remaining@[i as int])));
                }
                i = i + 1;
            }
            choices.push(Choice::Skip);
            let ghost before_prompt = self.comms.sent();
            proof {
                assert(remaining@.subrange(0, remaining@.len() as int) == remaining@);
                assert(choices@ =~= potion_choices(remaining@));
                if before_prompt.len() == s0.len() {
                    lemma_first_empty_slot(self.state@.potions, 0);
                }
            }
            let ghost cb = self.comms;
            let ghost cur_held = self.state().potions;
            let ghost cur_rem = remaining@;
            let prompted = self.comms.prompt_for_index(Prompt::ChooseNext, choices);
            proof {
                if self.comms.hangups() == cb.hangups() {
                    let a = self.comms.received().last();
                    assert(new_answers(c0, self.comms) =~= new_answers(c0, cb).push(a));
                    assert(self.comms.received().subrange(0, c0.received().len() as int) =~= c0.received());
                    if a >= cur_rem.len() {
                        lemma_slot_last_round(init_held, offer, new_answers(c0, cb), cur_held, cur_rem, a);
                    }
                }
                let after = self.comms.sent();
                assert(after.subrange(0, s0.len() as int) =~= s0) by {
                    if before_prompt.len() > s0.len() {
                        assert(after.subrange(0, s0.len() as int) =~= before_prompt.subrange(0, s0.len() as int));
                    }
                }
                if before_prompt.len() > s0.len() {
                    assert(after.subrange(0, s0.len() as int + 1) =~= before_prompt.subrange(0, s0.len() as int + 1));
                } else {
                    assert(after.subrange(0, s0.len() as int + 1) =~= after);
                }
                assert(asked(s0, after.subrange(0, s0.len() as int + 1), Prompt::ChooseNext, potion_choices(offer)));
            }
            let index = match prompted {
                Ok(i) => i,
                Err(e) => {
                    return Err(e);
                },
            };
            if index >= remaining.len() {
                break;
            }
            proof {
                lemma_slot_round(init_held, offer, new_answers(c0, cb), cur_held, cur_rem, index);
            }
            let potion = remaining[index];
            let ghost before = self.state@.potions;
            self.state.obtain_potion(potion);
            proof {
                let after = self.state@.potions;
                assert(after == before.update(slot as int, Some(potion)));
                assert(after.update(slot as int, None) =~= before);
                lemma_emptying_a_slot(after, slot as int, after.len() as int);
                lemma_filled_at_most(after, after.len() as int);
                assert(filled_slots(before, before.len() as int) + 1 == filled_slots(after, after.len() as int));
            }
            let ghost before_send = self.comms.sent();
            let told = self.comms.send_potion_obtained(slot, potion);
            proof {
                let after = self.comms.sent();
                assert(after.subrange(0, s0.len() as int) =~= before_send.subrange(0, s0.len() as int));
                assert(after.subrange(0, s0.len() as int + 1) =~= before_send.subrange(0, s0.len() as int + 1));
            }
            proof {
                assert(offer.contains(potion));
            }
            match told {
                Ok(()) => {},
                Err(e) => { return Err(e); },
            }
            let ghost before_remove = remaining@;
            remaining.remove(index);
            proof {
                assert forall|k: int| 0 <= k < remaining@.len() implies offer.contains(#[trigger] remaining@[k]) by {
                    if k < index {
                        assert(remaining@[k] == before_remove[k]);
                    } else {
                        assert(remaining@[k] == before_remove[k + 1]);
                    }
                }
            }
        }
        let ghost before_send = self.comms.sent();
        let r = self.comms.send_potions(self.state.potions());
        proof {
            let after = self.comms.sent();
            assert(after.subrange(0, s0.len() as int) =~= s0);
            if before_send.len() > s0.len() {
                assert(after.subrange(0, s0.len() as int + 1) =~= before_send.subrange(0, s0.len() as int + 1));
            }
        }
        match r {
            Ok(()) => Ok(()),
            Err(e) => Err(e),
        }
    }

    /// Lets the client pick a card of the deck; its first copy in the deck is removed and the
    /// client is told.
    pub fn choose_card_to_remove(&mut self) -> (r: Result<(), StsError>)
        ensures
            final(self).state() == old(self).state()
                && asked_then(old(self).sent(), final(self).sent(), Prompt::RemoveCard, removal_choices(old(self).state().deck), Seq::empty())
                || exists|i: int| 0 <= i < old(self).state().deck.len()
                    && (forall|k: int| 0 <= k < i ==> old(self).state().deck[k] != old(self).state().deck[i])
                    && final(self).state() == (PlayerStateView { deck: #[trigger] old(self).state().deck.remove(i), ..old(self).state() })
                    && asked_then(old(self).sent(), final(self).sent(), Prompt::RemoveCard, removal_choices(old(self).state().deck),
                        seq![StsMessage::CardRemoved(old(self).state().deck[i])]),
            r matches Err(e) ==> e == StsError::Disconnected || e == StsError::InvalidChoice,
            exchanges_added(old(self).comms, final(self).comms),
            final(self).comms.received() == old(self).comms.received()
                ==> r == Err::<(), StsError>(StsError::Disconnected) && final(self).state() == old(self).state(),
            final(self).comms.received() != old(self).comms.received() ==> final(self).comms.received()
                == old(self).comms.received().push(final(self).comms.received().last())
                && match removal_answer(old(self).state().deck, final(self).comms.received().last()) {
                    Ok(a) => (r is Ok || r == Err::<(), StsError>(StsError::Disconnected))
                        && exists|i: int| 0 <= i <= a
                            && old(self).state().deck[i] == old(self).state().deck[a as int]
                            && (forall|k: int| 0 <= k < i ==> old(self).state().deck[k] != old(self).state().deck[i])
                            && final(self).state() == (PlayerStateView { deck: #[trigger] old(self).state().deck.remove(i), ..old(self).state() }),
                    Err(e) => final(self).state() == old(self).state() && r == Err::<(), StsError>(e),
                },
    {
        let ghost s0 = self.comms.sent();
        let ghost deck0 = self.state@.deck;
        let chosen = self.comms.choose_card_to_remove(self.state.deck());
        let ghost s1 = self.comms.sent();
        proof {
            assert(self.comms.received().subrange(0, old(self).comms.received().len() as int) =~= old(self).comms.received());
            assert(old(self).comms.received().subrange(0, old(self).comms.received().len() as int) =~= old(self).comms.received());
        }
        let deck_index = match chosen {
            Ok(i) => i,
            Err(e) => {
                proof {
                    lemma_asked_then(s0, s1, Prompt::RemoveCard, removal_choices(deck0), Seq::empty());
                    assert(s1 + Seq::<StsMessage>::empty() =~= s1);
                }
                return Err(e);
            },
        };
        let card = self.state.deck()[deck_index];
        let position = first_position(self.state.deck(), card);
        let removed = self.state.remove_card(position);
        let r = self.comms.send_card_removed(removed);
        proof {
            lemma_asked_then(s0, s1, Prompt::RemoveCard, removal_choices(deck0), seq![StsMessage::CardRemoved(removed)]);
            assert(s1 + seq![StsMessage::CardRemoved(removed)] =~= self.comms.sent());
        }
        r
    }
}

} // verus!
