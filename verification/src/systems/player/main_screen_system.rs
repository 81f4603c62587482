use vstd::prelude::*;
use crate::player::comms::tallied;

use crate::components::PlayerPersistentState;
use crate::data::{spec_can_drink_anywhere, Card, Potion, Relic};
use crate::player::comms::{asked, exchanges_added, lemma_sent_after_trans, new_answers, sent_after, sent_more, Comms};
use crate::player::message::{copy_vec, Choice, PotionAction, Prompt, StsError, StsMessage};
use crate::systems::base::deck_system::DeckSystem;
use crate::systems::base::gold_system::GoldSystem;
use crate::systems::base::health_system::{health_message, HealthSystem};
use crate::systems::base::potion_system::{
    action_slot, first_empty, has_empty_slot, health_after, held_count, kept_or_offered, lemma_first_empty,
    lemma_held_count_empty_slot, lemma_held_count_fill_slot, lemma_potion_actions_name_held, names_held_potion,
    potion_actions, PotionSystem,
};
use crate::systems::base::relic_system::RelicSystem;
use crate::player::state::{spec_min, spec_saturating_add};
use crate::types::Gold;

verus! {

/// What the player sees and picks between combats.
pub struct MainScreenSystem;

/// The five messages that show the main screen, after those sent before: the deck, the gold,
/// the health, the potions and the relics.
pub open spec fn main_screen_shown(before: Seq<StsMessage>, after: Seq<StsMessage>, pps: &PlayerPersistentState) -> bool {
    let n = before.len() as int;
    &&& after.len() == n + 5
    &&& after.subrange(0, n) == before
    &&& after[n] matches StsMessage::Deck(v) && v@ == pps.deck@
    &&& after[n + 1] == StsMessage::Gold(pps.gold)
    &&& after[n + 2] == health_message(pps)
    &&& after[n + 3] matches StsMessage::Potions(v) && v@ == pps.potions@
    &&& after[n + 4] matches StsMessage::Relics(v) && v@ == pps.relics@
}

/// The first of the messages that show the main screen, at least one, after those sent
/// before: what was sent when a send failed part of the way.
pub open spec fn main_screen_part(before: Seq<StsMessage>, after: Seq<StsMessage>, pps: &PlayerPersistentState) -> bool {
    let n = before.len() as int;
    &&& sent_more(before, after)
    &&& after.len() <= n + 5
    &&& after[n] matches StsMessage::Deck(v) && v@ == pps.deck@
    &&& after.len() > n + 1 ==> after[n + 1] == StsMessage::Gold(pps.gold)
    &&& after.len() > n + 2 ==> after[n + 2] == health_message(pps)
    &&& after.len() > n + 3 ==> (after[n + 3] matches StsMessage::Potions(v) && v@ == pps.potions@)
    &&& after.len() > n + 4 ==> (after[n + 4] matches StsMessage::Relics(v) && v@ == pps.relics@)
}

/// The potions on offer, as a sequence: the potion when there is one.
pub open spec fn offered_potions(maybe_potion: Option<Potion>) -> Seq<Potion> {
    match maybe_potion {
        Some(p) => seq![p],
        None => Seq::empty(),
    }
}

/// The options offered first: the gold, then the potion, when still on offer.
pub open spec fn reward_prefix(maybe_gold: Option<Gold>, maybe_potion: Option<Potion>) -> Seq<Choice> {
    (match maybe_gold {
        Some(g) => seq![Choice::ObtainGold(g)],
        None => Seq::empty(),
    }) + (match maybe_potion {
        Some(p) => seq![Choice::ObtainPotion(p)],
        None => Seq::empty(),
    })
}

/// The options offered for the rewards: the gold and the potion on offer, the cards when one
/// may still be taken, the actions on the potions held, and Skip.
pub open spec fn reward_choices(
    maybe_gold: Option<Gold>,
    potion_left: Option<Potion>,
    cards: Seq<Card>,
    card_wanted: bool,
    potions: Seq<Option<Potion>>,
) -> Seq<Choice> {
    (reward_prefix(maybe_gold, potion_left) + reward_cards_offered(cards, card_wanted) + potion_actions(potions, false)).push(
        Choice::Skip,
    )
}

/// The cards offered: all of them while one may still be taken.
pub open spec fn reward_cards_offered(cards: Seq<Card>, card_wanted: bool) -> Seq<Choice> {
    if card_wanted {
        cards.map_values(|c: Card| Choice::ObtainCard(c))
    } else {
        Seq::empty()
    }
}

/// Where the rewards stand: the player's gold, health, deck and potion slots, and what is still
/// on offer (the gold, the potion, the cards, and whether a card may still be taken).
pub struct RewardState {
    pub gold: u32,
    pub hp: u32,
    pub hp_max: u32,
    pub deck: Seq<Card>,
    pub potions: Seq<Option<Potion>>,
    pub maybe_gold: Option<Gold>,
    pub potion_left: Option<Potion>,
    pub cards: Seq<Card>,
    pub card_wanted: bool,
}

/// The state of the rewards for the player's `pps` and what is still on offer.
pub open spec fn reward_state(
    pps: &PlayerPersistentState,
    maybe_gold: Option<Gold>,
    potion_left: Option<Potion>,
    cards: Seq<Card>,
    card_wanted: bool,
) -> RewardState {
    RewardState { gold: pps.gold, hp: pps.hp, hp_max: pps.hp_max, deck: pps.deck@, potions: pps.potions@, maybe_gold, potion_left, cards, card_wanted }
}

/// The gold and hit points after gaining `amount` gold: nothing with no gold or with
/// Ectoplasm; else the gold rises (saturating) and Bloody Idol heals 5.
pub open spec fn gold_gained(relics: Seq<Relic>, gold: u32, hp: u32, hp_max: u32, amount: u32) -> (u32, u32) {
    if amount == 0 || relics.contains(Relic::Ectoplasm) {
        (gold, hp)
    } else {
        (spec_saturating_add(gold, amount), if relics.contains(Relic::BloodyIdol) {
            spec_min(spec_saturating_add(hp, 5), hp_max)
        } else {
            hp
        })
    }
}

/// Whether anything is still to be taken: the gold, the potion with a slot free, or a card.
pub open spec fn rewards_open(s: RewardState) -> bool {
    s.maybe_gold is Some || (s.potion_left is Some && has_empty_slot(s.potions)) || (s.cards.len() > 0 && s.card_wanted)
}

/// The state after the option at `a` of the reward question was taken: a potion action empties
/// its slot (drinking heals as `health_after` says), a card joins the deck and no other may be
/// taken, the gold is gained (see `gold_gained`), the potion fills the first empty slot.
pub open spec fn reward_step(relics: Seq<Relic>, s: RewardState, a: int) -> RewardState {
    let offer = reward_choices(s.maybe_gold, s.potion_left, s.cards, s.card_wanted, s.potions);
    match offer[a] {
        Choice::PotionAction(act) => {
            let (hp, hp_max) = health_after(act, s.hp, s.hp_max);
            RewardState { potions: s.potions.update(action_slot(act) as int, None), hp, hp_max, ..s }
        },
        Choice::ObtainCard(c) => RewardState {
            deck: s.deck.push(c),
            cards: s.cards.remove(a - reward_prefix(s.maybe_gold, s.potion_left).len()),
            card_wanted: false,
            ..s
        },
        Choice::ObtainGold(g) => {
            let (gold, hp) = gold_gained(relics, s.gold, s.hp, s.hp_max, g);
            RewardState { gold, hp, maybe_gold: None, ..s }
        },
        Choice::ObtainPotion(p) => RewardState { potions: s.potions.update(first_empty(s.potions), Some(p)), potion_left: None, ..s },
        _ => s,
    }
}

/// Whether the option at `a` of the reward question ends the rewards (Skip).
pub open spec fn reward_ends(s: RewardState, a: int) -> bool {
    let offer = reward_choices(s.maybe_gold, s.potion_left, s.cards, s.card_wanted, s.potions);
    !(offer[a] is PotionAction || offer[a] is ObtainCard || offer[a] is ObtainGold || offer[a] is ObtainPotion)
}

/// What taking the rewards comes to for the client's `answers`, round after round: while
/// anything is still to be taken the client is asked (see `reward_choices`); an option taken
/// moves the state on (see `reward_step`), Skip ends with `Ok`, an answer naming no option ends
/// with `InvalidChoice`. `None` when the answers do not fit the rounds.
pub open spec fn reward_rounds(relics: Seq<Relic>, s: RewardState, answers: Seq<usize>) -> Option<(RewardState, Result<(), StsError>)>
    decreases answers.len(),
{
    if !rewards_open(s) {
        if answers.len() == 0 { Some((s, Ok(()))) } else { None }
    } else if answers.len() == 0 {
        None
    } else {
        let offer = reward_choices(s.maybe_gold, s.potion_left, s.cards, s.card_wanted, s.potions);
        let a = answers[0];
        let rest = answers.drop_first();
        if a >= offer.len() {
            if rest.len() == 0 { Some((s, Err(StsError::InvalidChoice))) } else { None }
        } else if reward_ends(s, a as int) {
            if rest.len() == 0 { Some((s, Ok(()))) } else { None }
        } else {
            reward_rounds(relics, reward_step(relics, s, a as int), rest)
        }
    }
}

/// One more answer taking an option moves the rounds on.
proof fn lemma_reward_round(relics: Seq<Relic>, s0: RewardState, done: Seq<usize>, s: RewardState, a: usize)
    requires
        forall|rest: Seq<usize>| #[trigger] reward_rounds(relics, s0, done + rest) == reward_rounds(relics, s, rest),
        rewards_open(s),
        a < reward_choices(s.maybe_gold, s.potion_left, s.cards, s.card_wanted, s.potions).len(),
        !reward_ends(s, a as int),
    ensures
        forall|rest: Seq<usize>| #[trigger] reward_rounds(relics, s0, done.push(a) + rest)
            == reward_rounds(relics, reward_step(relics, s, a as int), rest),
{
    assert forall|rest: Seq<usize>| #[trigger] reward_rounds(relics, s0, done.push(a) + rest)
        == reward_rounds(relics, reward_step(relics, s, a as int), rest) by {
        let longer = seq![a] + rest;
        assert(done + longer =~= done.push(a) + rest);
        assert(longer[0] == a);
        assert(longer.drop_first() =~= rest);
        assert(reward_rounds(relics, s0, done + longer) == reward_rounds(relics, s, longer));
    }
}

/// The last answer ends the rounds as `reward_rounds` says.
proof fn lemma_reward_last_round(relics: Seq<Relic>, s0: RewardState, done: Seq<usize>, s: RewardState, a: usize)
    requires
        forall|rest: Seq<usize>| #[trigger] reward_rounds(relics, s0, done + rest) == reward_rounds(relics, s, rest),
        rewards_open(s),
        a >= reward_choices(s.maybe_gold, s.potion_left, s.cards, s.card_wanted, s.potions).len() || reward_ends(s, a as int),
    ensures
        reward_rounds(relics, s0, done.push(a)) == Some((s,
            if a >= reward_choices(s.maybe_gold, s.potion_left, s.cards, s.card_wanted, s.potions).len() {
                Err::<(), StsError>(StsError::InvalidChoice)
            } else {
                Ok::<(), StsError>(())
            })),
{
    let longer = seq![a];
    assert(done + longer =~= done.push(a));
    assert(longer.drop_first().len() == 0);
    assert(reward_rounds(relics, s0, done + longer) == reward_rounds(relics, s, longer));
}

/// What each option offered for the rewards stands for.
proof fn lemma_reward_choice(
    maybe_gold: Option<Gold>,
    potion_left: Option<Potion>,
    cards: Seq<Card>,
    card_wanted: bool,
    potions: Seq<Option<Potion>>,
    index: int,
)
    requires
        0 <= index < reward_choices(maybe_gold, potion_left, cards, card_wanted, potions).len(),
        potions.len() <= usize::MAX,
    ensures
        ({
            let offset = reward_prefix(maybe_gold, potion_left).len() as int;
            match reward_choices(maybe_gold, potion_left, cards, card_wanted, potions)[index] {
                Choice::ObtainGold(g) => maybe_gold == Some(g),
                Choice::ObtainPotion(p) => potion_left == Some(p),
                Choice::ObtainCard(c) => card_wanted && 0 <= index - offset < cards.len() && cards[index - offset] == c,
                Choice::PotionAction(a) => names_held_potion(a, potions)
                    && (a matches PotionAction::Drink(_, p) ==> spec_can_drink_anywhere(p)),
                _ => true,
            }
        }),
{
    let prefix = reward_prefix(maybe_gold, potion_left);
    let offered = reward_cards_offered(cards, card_wanted);
    let actions = potion_actions(potions, false);
    let all = reward_choices(maybe_gold, potion_left, cards, card_wanted, potions);
    lemma_potion_actions_name_held(potions, false);
    let p = prefix.len() as int;
    let c = offered.len() as int;
    if index < p {
        assert(all[index] == prefix[index]);
    } else if index < p + c {
        assert(all[index] == offered[index - p]);
    } else if index < p + c + actions.len() {
        assert(all[index] == actions[index - p - c]);
    } else {
        assert(all[index] == Choice::Skip);
    }
}

/// Builds the options offered for the rewards (see `reward_choices`), and answers where the
/// cards start among them.
fn build_reward_choices(
    maybe_gold: Option<Gold>,
    potion_left: Option<Potion>,
    cards: &Vec<Card>,
    card_wanted: bool,
    pps: &PlayerPersistentState,
) -> (r: (Vec<Choice>, usize))
    ensures
        r.0@ == reward_choices(maybe_gold, potion_left, cards@, card_wanted, pps.potions@),
        r.1 == reward_prefix(maybe_gold, potion_left).len(),
{
    let mut choices: Vec<Choice> = Vec::new();
    if let Some(gold_to_obtain) = maybe_gold {
        choices.push(Choice::ObtainGold(gold_to_obtain));
    }
    if let Some(potion_to_obtain) = potion_left {
        choices.push(Choice::ObtainPotion(potion_to_obtain));
    }
    let ghost prefix = choices@;
    assert(prefix =~= reward_prefix(maybe_gold, potion_left));
    let cards_offset = choices.len();
    if card_wanted {
        let mut k: usize = 0;
        while k < cards.len()
            invariant
                k <= cards@.len(),
                choices@ == prefix + cards@.subrange(0, k as int).map_values(|c: Card| Choice::ObtainCard(c)),
            decreases cards@.len() - k,
        {
            choices.push(Choice::ObtainCard(cards[k]));
            proof {
                assert(cards@.subrange(0, k as int + 1).map_values(|c: Card| Choice::ObtainCard(c))
                    =~= cards@.subrange(0, k as int).map_values(|c: Card| Choice::ObtainCard(c)).push(
                    Choice::ObtainCard(cards@[k as int])));
            }
            k = k + 1;
        }
        assert(cards@.subrange(0, cards@.len() as int) == cards@);
    }
    assert(choices@ =~= prefix + reward_cards_offered(cards@, card_wanted));
    let _ = PotionSystem::extend_with_potion_actions(pps, false, &mut choices);
    choices.push(Choice::Skip);
    (choices, cards_offset)
}

impl MainScreenSystem {
    /// Tells the client the deck, the gold, the health, the potions and the relics, stopping
    /// at the first send that fails.
    pub fn notify_player(comms: &mut Comms, pps: &PlayerPersistentState) -> (r: Result<(), StsError>)
        ensures
            r is Ok ==> main_screen_shown(old(comms).sent(), final(comms).sent(), pps),
            main_screen_part(old(comms).sent(), final(comms).sent(), pps),
            r matches Err(e) ==> e == StsError::Disconnected,
            tallied(*old(comms), *final(comms), r is Err),
    {
        let ghost before = comms.sent();
        let ghost n = before.len() as int;
        let r1 = DeckSystem::notify_player(comms, pps);
        let ghost s1 = comms.sent();
        assert(s1.drop_last() == before);
        assert(s1.subrange(0, n) =~= before);
        if r1.is_err() {
            return r1;
        }
        let r2 = GoldSystem::notify_player(comms, pps);
        let ghost s2 = comms.sent();
        assert(s2.subrange(0, n) =~= before && s2[n] == s1[n]);
        if r2.is_err() {
            return r2;
        }
        let r3 = HealthSystem::notify_player(comms, pps);
        let ghost s3 = comms.sent();
        assert(s3.subrange(0, n) =~= before && s3[n] == s1[n] && s3[n + 1] == s2[n + 1]);
        if r3.is_err() {
            return r3;
        }
        let r4 = PotionSystem::notify_player(comms, pps);
        let ghost s4 = comms.sent();
        assert(s4.drop_last() == s3);
        assert(s4.subrange(0, n) =~= before && s4[n] == s1[n] && s4[n + 1] == s2[n + 1] && s4[n + 2] == s3[n + 2]);
        if r4.is_err() {
            return r4;
        }
        let r = RelicSystem::notify_player(comms, pps);
        proof {
            let after = comms.sent();
            assert(after.drop_last() == s4);
            assert(after.subrange(0, n) =~= before);
            assert(after[n] == s1[n] && after[n + 1] == s2[n + 1] && after[n + 2] == s3[n + 2] && after[n + 3] == s4[n + 3]);
        }
        r
    }

    /// Offers the rewards of a combat until they are taken or the client skips: the gold, the
    /// potion (while a slot is empty), one of the cards, and the actions on the potions held.
    #[verifier::rlimit(80)]
    #[verifier::spinoff_prover]
    pub fn choose_combat_rewards(
        comms: &mut Comms,
        pps: &mut PlayerPersistentState,
        available_gold: Gold,
        maybe_potion: Option<Potion>,
        available_cards: &[Card],
    ) -> (r: Result<(), StsError>)
        requires
            forall|i: int| 0 <= i < old(pps).potions@.len() ==> old(pps).potions@[i] != Some(Potion::EntropicBrew),
            maybe_potion != Some(Potion::EntropicBrew),
            maybe_potion is Some ==> has_empty_slot(old(pps).potions@),
        ensures
            final(pps).relics@ == old(pps).relics@,
            final(pps).gold >= old(pps).gold,
            final(pps).deck@ == old(pps).deck@
                || exists|i: int| 0 <= i < available_cards@.len() && final(pps).deck@ == old(pps).deck@.push(#[trigger] available_cards@[i]),
            final(pps).potions@.len() == old(pps).potions@.len(),
            forall|i: int| 0 <= i < final(pps).potions@.len() ==> kept_or_offered(
                #[trigger] final(pps).potions@[i],
                old(pps).potions@[i],
                offered_potions(maybe_potion),
            ),
            sent_more(old(comms).sent(), final(comms).sent()),
            asked(old(comms).sent(), final(comms).sent().subrange(0, old(comms).sent().len() as int + 1), Prompt::ChooseNext,
                reward_choices(Some(available_gold), maybe_potion, available_cards@, true, old(pps).potions@)),
            r matches Err(e) ==> e == StsError::Disconnected || e == StsError::InvalidChoice,
            exchanges_added(*old(comms), *final(comms)),
            (final(comms).hangups() > old(comms).hangups()) == (r == Err::<(), StsError>(StsError::Disconnected)),
            final(comms).hangups() == old(comms).hangups() ==> (reward_rounds(old(pps).relics@,
                reward_state(old(pps), Some(available_gold), maybe_potion, available_cards@, true),
                new_answers(*old(comms), *final(comms))) matches Some((s, res))
                && res == r && s.gold == final(pps).gold && s.hp == final(pps).hp && s.hp_max == final(pps).hp_max
                && s.deck == final(pps).deck@ && s.potions == final(pps).potions@),
    {
        let ghost s0 = comms.sent();
        let ghost c0 = *comms;
        let ghost relics = old(pps).relics@;
        let ghost init = reward_state(old(pps), Some(available_gold), maybe_potion, available_cards@, true);
        let ghost first_offer = reward_choices(Some(available_gold), maybe_potion, available_cards@, true, old(pps).potions@);
        assert(s0.subrange(0, s0.len() as int) =~= s0);
        let mut maybe_gold: Option<Gold> = Some(available_gold);
        let mut potion_left = maybe_potion;
        let mut available_card_vec: Vec<Card> = copy_cards(available_cards);
        let mut cards_left_to_choose: usize = 1;
        let slots = pps.potions.len();
        assert(pps.potions@.len() == slots);
        proof {
            assert(c0.received().subrange(0, c0.received().len() as int) =~= c0.received());
            assert forall|rest: Seq<usize>| #[trigger] reward_rounds(relics, init, new_answers(c0, *comms) + rest)
                == reward_rounds(relics, reward_state(pps, maybe_gold, potion_left, available_card_vec@, cards_left_to_choose > 0), rest) by {
                assert(new_answers(c0, *comms) + rest =~= rest);
                assert(reward_state(pps, maybe_gold, potion_left, available_card_vec@, cards_left_to_choose > 0) == init);
            }
        }
        loop
            invariant_except_break
                forall|rest: Seq<usize>| #[trigger] reward_rounds(relics, init, new_answers(c0, *comms) + rest)
                    == reward_rounds(relics, reward_state(pps, maybe_gold, potion_left, available_card_vec@, cards_left_to_choose > 0), rest),
            invariant
                c0 == *old(comms),
                relics == old(pps).relics@,
                init == reward_state(old(pps), Some(available_gold), maybe_potion, available_cards@, true),
                comms.hangups() == c0.hangups(),
                exchanges_added(c0, *comms),
                pps.potions@.len() == old(pps).potions@.len(),
                pps.potions@.len() <= usize::MAX,
                forall|i: int| 0 <= i < pps.potions@.len() ==> pps.potions@[i] != Some(Potion::EntropicBrew),
                forall|i: int| 0 <= i < pps.potions@.len() ==> kept_or_offered(
                    #[trigger] pps.potions@[i],
                    old(pps).potions@[i],
                    offered_potions(maybe_potion),
                ),
                potion_left is Some ==> potion_left == maybe_potion && has_empty_slot(pps.potions@),
                maybe_potion != Some(Potion::EntropicBrew),
                cards_left_to_choose <= 1,
                cards_left_to_choose == 1 ==> pps.deck@ == old(pps).deck@ && available_card_vec@ == available_cards@,
                cards_left_to_choose == 0 ==> exists|i: int| 0 <= i < available_cards@.len()
                    && pps.deck@ == old(pps).deck@.push(#[trigger] available_cards@[i]),
                maybe_gold is Some ==> pps.gold == old(pps).gold,
                pps.gold >= old(pps).gold,
                pps.relics@ == old(pps).relics@,
                s0 == old(comms).sent(),
                first_offer == reward_choices(Some(available_gold), maybe_potion, available_cards@, true, old(pps).potions@),
                sent_after(s0, comms.sent()),
                comms.sent().len() == s0.len() ==> maybe_gold == Some(available_gold) && potion_left == maybe_potion
                    && available_card_vec@ == available_cards@ && cards_left_to_choose == 1 && pps.potions@ == old(pps).potions@,
                comms.sent().len() > s0.len() ==> asked(s0, comms.sent().subrange(0, s0.len() as int + 1), Prompt::ChooseNext, first_offer),
            ensures
                comms.sent().len() > s0.len(),
                reward_rounds(relics, init, new_answers(c0, *comms)) matches Some((s, res)) && res == Ok::<(), StsError>(())
                    && s.gold == pps.gold && s.hp == pps.hp && s.hp_max == pps.hp_max && s.deck == pps.deck@ && s.potions == pps.potions@,
            decreases (if maybe_gold is Some { 1nat } else { 0nat }) + (if potion_left is Some { 2nat } else { 0nat })
                + cards_left_to_choose + held_count(pps.potions@),
        {
            let slot_available = PotionSystem::has_potion_slot_available(pps);
            if !(maybe_gold.is_some() || (potion_left.is_some() && slot_available)
                || (available_card_vec.len() > 0 && cards_left_to_choose > 0)) {
                proof {
                    let cur = reward_state(pps, maybe_gold, potion_left, available_card_vec@, cards_left_to_choose > 0);
                    assert(new_answers(c0, *comms) + Seq::<usize>::empty() =~= new_answers(c0, *comms));
                    assert(reward_rounds(relics, init, new_answers(c0, *comms) + Seq::<usize>::empty())
                        == reward_rounds(relics, cur, Seq::<usize>::empty()));
                }
                break;
            }
            let (choices, cards_offset) = build_reward_choices(
                maybe_gold,
                potion_left,
                &available_card_vec,
                cards_left_to_choose > 0,
                pps,
            );
            let ghost before_prompt = comms.sent();
            let ghost cb = *comms;
            let ghost cur = reward_state(pps, maybe_gold, potion_left, available_card_vec@, cards_left_to_choose > 0);
            let ghost offer = choices@;
            let prompted = comms.prompt_for_index(Prompt::ChooseNext, copy_vec(&choices));
            proof {
                if comms.hangups() == cb.hangups() {
                    let a = comms.received().last();
                    assert(new_answers(c0, *comms) =~= new_answers(c0, cb).push(a));
                    assert(comms.received().subrange(0, c0.received().len() as int) =~= c0.received());
                    assert(offer == reward_choices(cur.maybe_gold, cur.potion_left, cur.cards, cur.card_wanted, cur.potions));
                    if a >= offer.len() || reward_ends(cur, a as int) {
                        lemma_reward_last_round(relics, init, new_answers(c0, cb), cur, a);
                    } else {
                        lemma_reward_round(relics, init, new_answers(c0, cb), cur, a);
                    }
                }
                let after = comms.sent();
                assert(sent_after(before_prompt, after)) by {
                    assert(after.subrange(0, before_prompt.len() as int) =~= before_prompt);
                }
                lemma_sent_after_trans(s0, before_prompt, after);
                if before_prompt.len() == s0.len() {
                    assert(after.subrange(0, s0.len() as int + 1) =~= after);
                }
            }
            let index = match prompted {
                Ok(i) => i,
                Err(e) => { return Err(e); },
            };
            let choice = choices[index];
            proof {
                lemma_reward_choice(
                    maybe_gold,
                    potion_left,
                    available_card_vec@,
                    cards_left_to_choose > 0,
                    pps.potions@,
                    index as int,
                );
            }
            match choice {
                Choice::PotionAction(potion_action) => {
                    proof {
                        lemma_held_count_empty_slot(pps.potions@, action_slot(potion_action) as int);
                    }
                    let ghost before = pps.potions@;
                    let ghost before_call = comms.sent();
                    let expended = PotionSystem::expend_potion_out_of_combat(comms, pps, &potion_action);
                    proof {
                        assert(sent_after(before_call, comms.sent())) by {
                            assert(comms.sent().subrange(0, before_call.len() as int) =~= before_call);
                        }
                        lemma_sent_after_trans(s0, before_call, comms.sent());
                    }
                    if expended.is_err() {
                        return expended;
                    }
                    proof {
                        assert(health_after(potion_action, cur.hp, cur.hp_max) == (pps.hp, pps.hp_max));
                        assert(reward_state(pps, maybe_gold, potion_left, available_card_vec@, cards_left_to_choose > 0)
                            == reward_step(relics, cur, index as int));
                        if potion_left is Some {
                            let k = choose|k: int| 0 <= k < before.len() && before[k] is None;
                            assert(pps.potions@[k] is None);
                        }
                    }
                },
                Choice::ObtainCard(card) => {
                    let card_reward_index = index - cards_offset;
                    let card_to_obtain = available_card_vec.remove(card_reward_index);
                    proof {
                        assert(card_to_obtain == available_cards@[card_reward_index as int]);
                    }
                    let ghost before_call = comms.sent();
                    let obtained = DeckSystem::obtain_card(comms, pps, card_to_obtain);
                    proof {
                        lemma_sent_after_trans(s0, before_call, comms.sent());
                    }
                    if obtained.is_err() {
                        return obtained;
                    }
                    cards_left_to_choose = cards_left_to_choose - 1;
                    proof {
                        assert(available_card_vec@ =~= cur.cards.remove(index - reward_prefix(cur.maybe_gold, cur.potion_left).len()));
                        assert(reward_state(pps, maybe_gold, potion_left, available_card_vec@, cards_left_to_choose > 0)
                            == reward_step(relics, cur, index as int));
                    }
                },
                Choice::ObtainGold(gold_to_obtain) => {
                    let ghost before_call = comms.sent();
                    let gained = GoldSystem::increase_gold(comms, pps, gold_to_obtain);
                    proof {
                        lemma_sent_after_trans(s0, before_call, comms.sent());
                    }
                    if gained.is_err() {
                        return gained;
                    }
                    maybe_gold = None;
                    proof {
                        assert(reward_state(pps, maybe_gold, potion_left, available_card_vec@, cards_left_to_choose > 0)
                            == reward_step(relics, cur, index as int));
                    }
                },
                Choice::ObtainPotion(potion_to_obtain) => {
                    let ghost before = pps.potions@;
                    proof {
                        lemma_first_empty(before, 0);
                        lemma_held_count_fill_slot(before, first_empty(before), potion_to_obtain);
                    }
                    let ghost before_call = comms.sent();
                    let obtained = PotionSystem::obtain_potion(comms, pps, potion_to_obtain);
                    proof {
                        assert(sent_after(before_call, comms.sent())) by {
                            assert(comms.sent().subrange(0, before_call.len() as int) =~= before_call);
                        }
                        lemma_sent_after_trans(s0, before_call, comms.sent());
                        assert(offered_potions(maybe_potion)[0] == potion_to_obtain);
                        assert(offered_potions(maybe_potion).contains(potion_to_obtain));
                        assert forall|i: int| 0 <= i < pps.potions@.len() implies kept_or_offered(
                            #[trigger] pps.potions@[i],
                            old(pps).potions@[i],
                            offered_potions(maybe_potion),
                        ) by {
                            if i != first_empty(before) {
                                assert(pps.potions@[i] == before[i]);
                            }
                        }
                    }
                    if obtained.is_err() {
                        return obtained;
                    }
                    potion_left = None;
                    proof {
                        assert(reward_state(pps, maybe_gold, potion_left, available_card_vec@, cards_left_to_choose > 0)
                            == reward_step(relics, cur, index as int));
                    }
                },
                _ => {
                    break;
                },
            }
        }
        Ok(())
    }
}

/// A copy of the cards.
fn copy_cards(cards: &[Card]) -> (r: Vec<Card>)
    ensures
        r@ == cards@,
{
    let mut r: Vec<Card> = Vec::new();
    let mut i: usize = 0;
    while i < cards.len()
        invariant
            i <= cards@.len(),
            r@ == cards@.subrange(0, i as int),
        decreases cards@.len() - i,
    {
        r.push(cards[i]);
        i = i + 1;
    }
    r
}

} // verus!
