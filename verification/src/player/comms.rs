use vstd::prelude::*;

use crate::data::{Card, Debuff, EnemyType, NeowBlessing, Potion, Relic};
use crate::sim::enemy::{EnemyStatus, same_status};
use crate::types::{
    Block, ColumnIndex, DeckIndex, EnemyIndex, Energy, Gold, HandIndex, Health, Hp, StackCount,
};

use super::message::{copy_vec, slice_to_vec, Choice, PotionAction, Prompt, StsError, StsMessage};

verus! {

#[verifier::external_type_specification]
#[verifier::external_body]
#[verifier::reject_recursive_types(T)]
pub struct ExSender<T>(std::sync::mpsc::Sender<T>);

#[verifier::external_type_specification]
#[verifier::external_body]
#[verifier::reject_recursive_types(T)]
pub struct ExReceiver<T>(std::sync::mpsc::Receiver<T>);

/// What the player chose on the map screen.
#[derive(Clone, Copy, Debug, PartialEq, Eq, Structural)]
pub enum MainScreenAction {
    ClimbFloor(ColumnIndex),
    Potion(PotionAction),
}

/// The channels to the client: answers come in as option indices, messages go out. For the
/// proofs, `sent` records every message handed to the outgoing channel, `received` every
/// answer read from the incoming one, and `hangups` how many exchanges found a channel closed,
/// all in order.
pub struct Comms {
    from_client: std::sync::mpsc::Receiver<usize>,
    to_client: std::sync::mpsc::Sender<StsMessage>,
    sent: Ghost<Seq<StsMessage>>,
    received: Ghost<Seq<usize>>,
    hangups: Ghost<nat>,
}

/// `after` is `before` after sending only: no answer read, and one more closed channel found
/// exactly when a send failed.
pub open spec fn tallied(before: Comms, after: Comms, failed: bool) -> bool {
    &&& after.received() == before.received()
    &&& after.hangups() == before.hangups() + if failed { 1nat } else { 0nat }
}

/// `after` is `before` after one question: either a closed channel was found (and the result is
/// `Disconnected`), or one more answer was read and the result is the option at that index of
/// `choices`, or `InvalidChoice` when there is none.
pub open spec fn chose(before: Comms, after: Comms, choices: Seq<Choice>, r: Result<Choice, StsError>) -> bool {
    ||| after.received() == before.received() && after.hangups() == before.hangups() + 1
        && r == Err::<Choice, StsError>(StsError::Disconnected)
    ||| after.hangups() == before.hangups() && after.received().len() == before.received().len() + 1
        && after.received().drop_last() == before.received()
        && r == (if after.received().last() < choices.len() {
            Ok::<Choice, StsError>(choices[after.received().last() as int])
        } else {
            Err::<Choice, StsError>(StsError::InvalidChoice)
        })
}

/// `after` is `before` after questions whose outcome the answer decides: either a closed
/// channel was found (and the result is `Disconnected`), or one more answer `a` was read and
/// the result is `outcome(a)`.
pub open spec fn answered<T>(before: Comms, after: Comms, r: Result<T, StsError>, outcome: spec_fn(usize) -> Result<T, StsError>) -> bool {
    ||| after.received() == before.received() && after.hangups() == before.hangups() + 1
        && r == Err::<T, StsError>(StsError::Disconnected)
    ||| after.hangups() == before.hangups() && after.received().len() == before.received().len() + 1
        && after.received().drop_last() == before.received() && r == outcome(after.received().last())
}

/// What the answer `a` to the main-screen question over `columns` and `actions` stands for: a
/// column to climb into, an action on a potion, or no option.
pub open spec fn main_screen_answer(columns: Seq<ColumnIndex>, actions: Seq<PotionAction>, a: usize) -> Result<MainScreenAction, StsError> {
    if a < columns.len() {
        Ok(MainScreenAction::ClimbFloor(columns[a as int]))
    } else if a < columns.len() + actions.len() {
        Ok(MainScreenAction::Potion(actions[a - columns.len()]))
    } else {
        Err(StsError::InvalidChoice)
    }
}

/// What the answer `a` to the question offering Neow's `blessings` stands for: the blessing, or
/// no option.
pub open spec fn blessing_answer(blessings: Seq<NeowBlessing>, a: usize) -> Result<NeowBlessing, StsError> {
    if a < blessings.len() {
        Ok(blessings[a as int])
    } else {
        Err(StsError::InvalidChoice)
    }
}

/// What the answer `a` to a question offering `potions` and Skip stands for: the potion taken,
/// Skip (`None`), or no option.
pub open spec fn potion_answer(potions: Seq<Potion>, a: usize) -> Result<Option<Potion>, StsError> {
    if a < potions.len() {
        Ok(Some(potions[a as int]))
    } else if a == potions.len() {
        Ok(None)
    } else {
        Err(StsError::InvalidChoice)
    }
}

/// What the answer `a` to a question offering `cards` and Skip stands for: the card taken,
/// Skip (`None`), or no option.
pub open spec fn card_answer(cards: Seq<Card>, a: usize) -> Result<Option<Card>, StsError> {
    if a < cards.len() {
        Ok(Some(cards[a as int]))
    } else if a == cards.len() {
        Ok(None)
    } else {
        Err(StsError::InvalidChoice)
    }
}

/// What the answer `a` to the question offering the cards of `deck` for removal stands for:
/// the index of the card, or no option.
pub open spec fn removal_answer(deck: Seq<Card>, a: usize) -> Result<DeckIndex, StsError> {
    if a < deck.len() {
        Ok(a)
    } else {
        Err(StsError::InvalidChoice)
    }
}

/// What the answer `a` to the combat question over `playable` stands for: the hand index of a
/// card, End Turn (`None`), or no option.
pub open spec fn play_answer(playable: Seq<(HandIndex, Card)>, a: usize) -> Result<Option<HandIndex>, StsError> {
    if a < playable.len() {
        Ok(Some(playable[a as int].0))
    } else if a == playable.len() {
        Ok(None)
    } else {
        Err(StsError::InvalidChoice)
    }
}

/// What the answer `a` to the target question over `enemies` stands for: the index of a
/// living enemy, or no option.
pub open spec fn target_answer(enemies: Seq<Option<EnemyStatus>>, a: usize) -> Result<EnemyIndex, StsError> {
    let choices = target_choices(enemies, enemies.len() as int);
    if a < choices.len() {
        match choices[a as int] {
            Choice::TargetEnemy(i, _) => Ok(i),
            _ => Err(StsError::InvalidChoice),
        }
    } else {
        Err(StsError::InvalidChoice)
    }
}

/// The questions among `msgs`, in order: each prompt with its options.
pub open spec fn questions(msgs: Seq<StsMessage>) -> Seq<(Prompt, Seq<Choice>)>
    decreases msgs.len(),
{
    if msgs.len() == 0 {
        Seq::empty()
    } else {
        questions(msgs.drop_last()) + match msgs.last() {
            StsMessage::Choices(p, v) => seq![(p, v@)],
            _ => Seq::empty(),
        }
    }
}

/// No question is among the messages sent between `before` and `after`.
pub open spec fn no_questions_added(before: Seq<StsMessage>, after: Seq<StsMessage>) -> bool {
    forall|k: int| before.len() <= k < after.len() ==> !(#[trigger] after[k] is Choices)
}

/// Messages added that hold no question leave the questions as they were.
pub proof fn lemma_no_questions_added(before: Seq<StsMessage>, after: Seq<StsMessage>)
    requires
        sent_after(before, after),
        no_questions_added(before, after),
    ensures
        questions(after) == questions(before),
    decreases after.len(),
{
    if after.len() > before.len() {
        let shorter = after.drop_last();
        assert(shorter.subrange(0, before.len() as int) =~= after.subrange(0, before.len() as int));
        assert(!(after[after.len() - 1] is Choices));
        lemma_no_questions_added(before, shorter);
        assert(questions(after) =~= questions(shorter));
    } else {
        assert(after =~= after.subrange(0, before.len() as int));
    }
}

/// A question adds itself to the questions.
pub proof fn lemma_question_added(before: Seq<StsMessage>, after: Seq<StsMessage>, prompt: Prompt, choices: Seq<Choice>)
    requires
        asked(before, after, prompt, choices),
    ensures
        questions(after) == questions(before).push((prompt, choices)),
{
    assert(questions(after) =~= questions(before).push((prompt, choices)));
}

/// The answers read between `before` and `after`.
pub open spec fn new_answers(before: Comms, after: Comms) -> Seq<usize> {
    after.received().subrange(before.received().len() as int, after.received().len() as int)
}

/// Between `before` and `after` answers were only added, and at most one closed channel found.
pub open spec fn exchanges_added(before: Comms, after: Comms) -> bool {
    &&& after.received().len() >= before.received().len()
    &&& after.received().subrange(0, before.received().len() as int) == before.received()
    &&& before.hangups() <= after.hangups() <= before.hangups() + 1
}

/// As `chose`, for the index of the option picked.
pub open spec fn chose_index(before: Comms, after: Comms, n: nat, r: Result<usize, StsError>) -> bool {
    ||| after.received() == before.received() && after.hangups() == before.hangups() + 1
        && r == Err::<usize, StsError>(StsError::Disconnected)
    ||| after.hangups() == before.hangups() && after.received().len() == before.received().len() + 1
        && after.received().drop_last() == before.received()
        && r == (if after.received().last() < n {
            Ok::<usize, StsError>(after.received().last())
        } else {
            Err::<usize, StsError>(StsError::InvalidChoice)
        })
}

/// `after` is `before` with one more message.
pub open spec fn one_more(before: Seq<StsMessage>, after: Seq<StsMessage>) -> bool {
    after.len() == before.len() + 1 && after.drop_last() == before
}

/// The last message of `after` asks `prompt` with exactly `choices`, and it is the only
/// message added to `before`.
pub open spec fn asked(before: Seq<StsMessage>, after: Seq<StsMessage>, prompt: Prompt, choices: Seq<Choice>) -> bool {
    &&& one_more(before, after)
    &&& match after.last() {
        StsMessage::Choices(p, cs) => p == prompt && cs@ == choices,
        _ => false,
    }
}

/// `after` is `before` with the question `prompt` over `choices`, then the messages `rest`.
pub open spec fn asked_then(
    before: Seq<StsMessage>,
    after: Seq<StsMessage>,
    prompt: Prompt,
    choices: Seq<Choice>,
    rest: Seq<StsMessage>,
) -> bool {
    &&& after.len() == before.len() + 1 + rest.len()
    &&& asked(before, after.subrange(0, before.len() as int + 1), prompt, choices)
    &&& after.subrange(before.len() as int + 1, after.len() as int) == rest
}

/// `after` is `before` with at least one more message at its end.
pub open spec fn sent_more(before: Seq<StsMessage>, after: Seq<StsMessage>) -> bool {
    after.len() > before.len() && after.subrange(0, before.len() as int) == before
}

/// `after` is `before` with messages, perhaps none, added at its end.
pub open spec fn sent_after(before: Seq<StsMessage>, after: Seq<StsMessage>) -> bool {
    after.len() >= before.len() && after.subrange(0, before.len() as int) == before
}

/// Adding messages keeps the ones before.
pub proof fn lemma_sent_after_keeps(a: Seq<StsMessage>, b: Seq<StsMessage>)
    requires
        sent_after(a, b),
    ensures
        forall|j: int| 0 <= j < a.len() ==> #[trigger] b[j] == a[j],
{
    assert forall|j: int| 0 <= j < a.len() implies #[trigger] b[j] == a[j] by {
        assert(b.subrange(0, a.len() as int)[j] == b[j]);
    }
}

/// Messages added after messages added are messages added, and leave the start as it was.
pub proof fn lemma_sent_after_trans(a: Seq<StsMessage>, b: Seq<StsMessage>, c: Seq<StsMessage>)
    requires
        sent_after(a, b),
        sent_after(b, c),
    ensures
        sent_after(a, c),
        b.len() > a.len() ==> c.subrange(0, a.len() as int + 1) == b.subrange(0, a.len() as int + 1),
{
    assert(c.subrange(0, a.len() as int) =~= b.subrange(0, a.len() as int));
    if b.len() > a.len() {
        assert(c.subrange(0, a.len() as int + 1) =~= b.subrange(0, a.len() as int + 1));
    }
}

/// `after` is `before` with the first messages of `msgs`, at least one: sending `msgs` one
/// after the other stopped at a send that failed.
pub open spec fn sent_part(before: Seq<StsMessage>, after: Seq<StsMessage>, msgs: Seq<StsMessage>) -> bool {
    exists|k: int| 1 <= k <= msgs.len() && after == before + #[trigger] msgs.take(k)
}

/// Sending stopped within the first part of a longer list of messages.
pub proof fn lemma_sent_part_longer(before: Seq<StsMessage>, after: Seq<StsMessage>, msgs: Seq<StsMessage>, more: Seq<StsMessage>)
    requires
        sent_part(before, after, msgs),
    ensures
        sent_part(before, after, msgs + more),
{
    let k = choose|k: int| 1 <= k <= msgs.len() && after == before + #[trigger] msgs.take(k);
    assert((msgs + more).take(k) =~= msgs.take(k));
    assert(after == before + (msgs + more).take(k));
}

/// Sending that stopped within `msgs`, after `pre` was sent, stopped within `all` when `all`
/// starts with `pre` and then `msgs`.
pub proof fn lemma_sent_part_within(
    before: Seq<StsMessage>,
    after: Seq<StsMessage>,
    pre: Seq<StsMessage>,
    msgs: Seq<StsMessage>,
    all: Seq<StsMessage>,
)
    requires
        sent_part(before + pre, after, msgs),
        pre.len() + msgs.len() <= all.len(),
        all.take(pre.len() + msgs.len() as int) == pre + msgs,
    ensures
        sent_part(before, after, all),
{
    let k = choose|k: int| 1 <= k <= msgs.len() && after == (before + pre) + #[trigger] msgs.take(k);
    assert(all.take(pre.len() + k) =~= (pre + msgs).take(pre.len() + k));
    assert((pre + msgs).take(pre.len() + k) =~= pre + msgs.take(k));
    assert(after =~= before + all.take(pre.len() + k));
    lemma_sent_part(before, all, pre.len() + k);
}

/// A question followed by more messages is the question, then those messages.
pub proof fn lemma_asked_then(
    before: Seq<StsMessage>,
    mid: Seq<StsMessage>,
    prompt: Prompt,
    choices: Seq<Choice>,
    rest: Seq<StsMessage>,
)
    requires
        asked(before, mid, prompt, choices),
    ensures
        asked_then(before, mid + rest, prompt, choices, rest),
{
    assert((mid + rest).subrange(0, before.len() as int + 1) =~= mid);
    assert((mid + rest).subrange(before.len() as int + 1, (mid + rest).len() as int) =~= rest);
}

/// Sending stopped after the first `k` messages.
pub proof fn lemma_sent_part(before: Seq<StsMessage>, msgs: Seq<StsMessage>, k: int)
    requires
        1 <= k <= msgs.len(),
    ensures
        sent_part(before, before + msgs.take(k), msgs),
{
}

/// The prompt used to offer items: `ChooseOne` when at most one may be taken, else
/// `ChooseNext`.
pub open spec fn obtain_prompt(one_only: bool) -> Prompt {
    if one_only {
        Prompt::ChooseOne
    } else {
        Prompt::ChooseNext
    }
}

/// The options offered when choosing a card to obtain: one per card, then Skip.
pub open spec fn card_choices(cards: Seq<Card>) -> Seq<Choice> {
    cards.map_values(|c: Card| Choice::ObtainCard(c)).push(Choice::Skip)
}

/// The options offered when choosing a potion to obtain: one per potion, then Skip.
pub open spec fn potion_choices(potions: Seq<Potion>) -> Seq<Choice> {
    potions.map_values(|p: Potion| Choice::ObtainPotion(p)).push(Choice::Skip)
}

/// The options offered on the map screen: the columns, then the potion actions.
pub open spec fn main_screen_choices(columns: Seq<ColumnIndex>, actions: Seq<PotionAction>) -> Seq<Choice> {
    columns.map_values(|c: ColumnIndex| Choice::ClimbFloor(c)) + actions.map_values(
        |a: PotionAction| Choice::PotionAction(a),
    )
}

/// The options offered when removing a card: one per card of the deck, with its index.
pub open spec fn removal_choices(deck: Seq<Card>) -> Seq<Choice> {
    Seq::new(deck.len(), |i: int| Choice::RemoveCard(i as usize, deck[i]))
}

/// The options offered in combat: one per playable card, then End Turn.
pub open spec fn play_choices(playable: Seq<(HandIndex, Card)>) -> Seq<Choice> {
    playable.map_values(|p: (HandIndex, Card)| Choice::PlayCardFromHand(p.0, p.1)).push(Choice::EndTurn)
}

/// Two enemy slots hold the same information.
pub open spec fn same_slot(a: Option<EnemyStatus>, b: Option<EnemyStatus>) -> bool {
    match (a, b) {
        (Some(x), Some(y)) => same_status(x, y),
        (None, None) => true,
        _ => false,
    }
}

/// The options offered when targeting: one per living enemy, in order, with its index.
pub open spec fn target_choices(enemies: Seq<Option<EnemyStatus>>, i: int) -> Seq<Choice>
    decreases i,
{
    if i <= 0 {
        Seq::empty()
    } else {
        let before = target_choices(enemies, i - 1);
        match enemies[i - 1] {
            Some(e) => before.push(Choice::TargetEnemy((i - 1) as usize, e.enemy_type)),
            None => before,
        }
    }
}

/// Every option offered when targeting names a living enemy.
pub proof fn lemma_target_choices_living(enemies: Seq<Option<EnemyStatus>>, i: int)
    requires
        0 <= i <= enemies.len(),
        enemies.len() <= usize::MAX,
    ensures
        forall|k: int| 0 <= k < target_choices(enemies, i).len() ==> (match #[trigger] target_choices(enemies, i)[k] {
            Choice::TargetEnemy(idx, _) => idx < i && enemies[idx as int] is Some,
            _ => false,
        }),
    decreases i,
{
    if i > 0 {
        lemma_target_choices_living(enemies, i - 1);
        let before = target_choices(enemies, i - 1);
        assert forall|k: int| 0 <= k < target_choices(enemies, i).len() implies (match #[trigger] target_choices(enemies, i)[k] {
            Choice::TargetEnemy(idx, _) => idx < i && enemies[idx as int] is Some,
            _ => false,
        }) by {
            if k < before.len() {
                assert(target_choices(enemies, i)[k] == before[k]);
            } else {
                assert(enemies[i - 1] is Some);
            }
        }
    }
}

/// Hands a message to the outgoing channel (`Sender::send`). The message is recorded in
/// `sent` whether or not the client is still there; the result is `Err(Disconnected)` when
/// the receiving end is gone, which depends on the client and is not stated; such a failure is
/// counted in `hangups`.
#[verifier::external_body]
fn send_message(comms: &mut Comms, message: StsMessage) -> (r: Result<(), StsError>)
    ensures
        final(comms).sent@ == old(comms).sent@.push(message),
        final(comms).received@ == old(comms).received@,
        final(comms).hangups@ == old(comms).hangups@ + if r is Err { 1nat } else { 0nat },
        r matches Err(e) ==> e == StsError::Disconnected,
{
    match comms.to_client.send(message) {
        Ok(()) => Ok(()),
        Err(_) => Err(StsError::Disconnected),
    }
}

/// Waits for the client's answer (`Receiver::recv`). What the client answers is up to the
/// client and is not stated; an answer read is recorded in `received`. The error is
/// `Disconnected` when the sending end is gone, counted in `hangups`.
#[verifier::external_body]
fn receive_index(comms: &mut Comms) -> (r: Result<usize, StsError>)
    ensures
        final(comms).sent@ == old(comms).sent@,
        r matches Ok(i) ==> final(comms).received@ == old(comms).received@.push(i) && final(comms).hangups@ == old(comms).hangups@,
        r is Err ==> final(comms).received@ == old(comms).received@ && final(comms).hangups@ == old(comms).hangups@ + 1,
        r matches Err(e) ==> e == StsError::Disconnected,
{
    match comms.from_client.recv() {
        Ok(index) => Ok(index),
        Err(_) => Err(StsError::Disconnected),
    }
}

/// The option at `index` of `choices`, or `InvalidChoice` when there is none.
pub fn select_choice(choices: &[Choice], index: usize) -> (r: Result<Choice, StsError>)
    ensures
        index < choices@.len() ==> r == Ok::<Choice, StsError>(choices@[index as int]),
        index >= choices@.len() ==> r == Err::<Choice, StsError>(StsError::InvalidChoice),
{
    if index < choices.len() {
        Ok(choices[index])
    } else {
        Err(StsError::InvalidChoice)
    }
}

impl Comms {
    /// The messages sent so far.
    pub closed spec fn sent(&self) -> Seq<StsMessage> {
        self.sent@
    }

    /// The answers read so far.
    pub closed spec fn received(&self) -> Seq<usize> {
        self.received@
    }

    /// How many exchanges so far found a channel closed.
    pub closed spec fn hangups(&self) -> nat {
        self.hangups@
    }

    pub fn new(
        from_client: std::sync::mpsc::Receiver<usize>,
        to_client: std::sync::mpsc::Sender<StsMessage>,
    ) -> (r: Comms)
        ensures
            r.sent() == Seq::<StsMessage>::empty(),
            r.received() == Seq::<usize>::empty(),
            r.hangups() == 0,
    {
        Comms { from_client, to_client, sent: Ghost(Seq::empty()), received: Ghost(Seq::empty()), hangups: Ghost(0) }
    }

    /// Sends `choices` under `prompt` and returns the index of the option the client picks.
    pub(crate) fn prompt_for_index(&mut self, prompt: Prompt, choices: Vec<Choice>) -> (r: Result<usize, StsError>)
        ensures
            asked(old(self).sent(), final(self).sent(), prompt, choices@),
            r matches Ok(i) ==> i < choices@.len(),
            r matches Err(e) ==> e == StsError::Disconnected || e == StsError::InvalidChoice,
            chose_index(*old(self), *final(self), choices@.len(), r),
    {
        let n = choices.len();
        let ghost before = self.sent@;
        let sent = send_message(self, StsMessage::Choices(prompt, choices));
        assert(self.sent@.drop_last() =~= before);
        match sent {
            Err(e) => { return Err(e); },
            Ok(()) => {},
        }
        let ghost before_answer = self.received@;
        let index = match receive_index(self) {
            Ok(i) => i,
            Err(e) => { return Err(e); },
        };
        assert(self.received@.drop_last() =~= before_answer);
        if index < n {
            Ok(index)
        } else {
            Err(StsError::InvalidChoice)
        }
    }

    /// Sends `choices` under `prompt` and returns the option the client picks.
    fn prompt_for_choice(&mut self, prompt: Prompt, choices: Vec<Choice>) -> (r: Result<Choice, StsError>)
        ensures
            asked(old(self).sent(), final(self).sent(), prompt, choices@),
            r matches Ok(c) ==> choices@.contains(c),
            r matches Err(e) ==> e == StsError::Disconnected || e == StsError::InvalidChoice,
            chose(*old(self), *final(self), choices@, r),
    {
        let copy = copy_vec(&choices);
        let ghost before = self.sent@;
        let sent = send_message(self, StsMessage::Choices(prompt, copy));
        assert(self.sent@.drop_last() =~= before);
        match sent {
            Err(e) => { return Err(e); },
            Ok(()) => {},
        }
        let ghost before_answer = self.received@;
        let index = match receive_index(self) {
            Ok(i) => i,
            Err(e) => { return Err(e); },
        };
        assert(self.received@.drop_last() =~= before_answer);
        let r = select_choice(choices.as_slice(), index);
        proof {
            if index < choices@.len() {
                assert(choices@[index as int] == choices@[index as int]);
            }
        }
        r
    }

    /// Asks the client to pick one of Neow's blessings.
    pub fn choose_neow_blessing(&mut self, blessings: &[NeowBlessing]) -> (r: Result<NeowBlessing, StsError>)
        ensures
            asked(old(self).sent(), final(self).sent(), Prompt::ChooseNeow,
                blessings@.map_values(|b: NeowBlessing| Choice::NeowBlessing(b))),
            answered(*old(self), *final(self), r, |a: usize| blessing_answer(blessings@, a)),
            r matches Ok(b) ==> blessings@.contains(b),
            r matches Err(e) ==> e == StsError::Disconnected || e == StsError::InvalidChoice,
    {
        let mut choices: Vec<Choice> = Vec::new();
        let mut i: usize = 0;
        while i < blessings.len()
            invariant
                i <= blessings@.len(),
                choices@ == blessings@.subrange(0, i as int).map_values(|b: NeowBlessing| Choice::NeowBlessing(b)),
            decreases blessings@.len() - i,
        {
            choices.push(Choice::NeowBlessing(blessings[i]));
            i = i + 1;
        }
        assert(blessings@.subrange(0, blessings@.len() as int) == blessings@);
        let ghost offered = choices@;
        match self.prompt_for_choice(Prompt::ChooseNeow, choices) {
            Ok(Choice::NeowBlessing(b)) => {
                proof {
                    let k = choose|k: int| 0 <= k < offered.len() && offered[k] == Choice::NeowBlessing(b);
                    assert(blessings@[k] == b);
                }
                Ok(b)
            },
            Ok(_) => {
                proof {
                    assert(false) by {
                        let c = choose|c: Choice| offered.contains(c);
                    }
                }
                Err(StsError::InvalidChoice)
            },
            Err(e) => Err(e),
        }
    }

    /// Prompts the client to climb into one of `columns` on the next row, or to use or
    /// discard a potion; the prompt says whether potion actions are offered.
    pub fn choose_main_screen_action(
        &mut self,
        columns: &[ColumnIndex],
        potion_actions: &[PotionAction],
    ) -> (r: Result<MainScreenAction, StsError>)
        ensures
            asked(old(self).sent(), final(self).sent(),
                if potion_actions@.len() == 0 { Prompt::ClimbFloor } else { Prompt::ClimbFloorHasPotion },
                main_screen_choices(columns@, potion_actions@)),
            r matches Ok(MainScreenAction::ClimbFloor(c)) ==> columns@.contains(c),
            r matches Ok(MainScreenAction::Potion(a)) ==> potion_actions@.contains(a),
            r matches Err(e) ==> e == StsError::Disconnected || e == StsError::InvalidChoice,
            answered(*old(self), *final(self), r, |a: usize| main_screen_answer(columns@, potion_actions@, a)),
    {
        let mut choices: Vec<Choice> = Vec::new();
        let mut i: usize = 0;
        while i < columns.len()
            invariant
                i <= columns@.len(),
                choices@ == columns@.subrange(0, i as int).map_values(|c: ColumnIndex| Choice::ClimbFloor(c)),
            decreases columns@.len() - i,
        {
            choices.push(Choice::ClimbFloor(columns[i]));
            i = i + 1;
        }
        assert(columns@.subrange(0, columns@.len() as int) == columns@);
        let ghost climbs = choices@;
        let mut j: usize = 0;
        while j < potion_actions.len()
            invariant
                j <= potion_actions@.len(),
                climbs == columns@.map_values(|c: ColumnIndex| Choice::ClimbFloor(c)),
                choices@ == climbs + potion_actions@.subrange(0, j as int).map_values(|a: PotionAction| Choice::PotionAction(a)),
            decreases potion_actions@.len() - j,
        {
            choices.push(Choice::PotionAction(potion_actions[j]));
            proof {
                assert(potion_actions@.subrange(0, j as int + 1).map_values(|a: PotionAction| Choice::PotionAction(a))
                    =~= potion_actions@.subrange(0, j as int).map_values(|a: PotionAction| Choice::PotionAction(a)).push(Choice::PotionAction(potion_actions@[j as int])));
            }
            j = j + 1;
        }
        assert(potion_actions@.subrange(0, potion_actions@.len() as int) == potion_actions@);
        let prompt = if potion_actions.len() == 0 { Prompt::ClimbFloor } else { Prompt::ClimbFloorHasPotion };
        let ghost offered = choices@;
        match self.prompt_for_choice(prompt, choices) {
            Ok(Choice::ClimbFloor(c)) => {
                proof {
                    let k = choose|k: int| 0 <= k < offered.len() && offered[k] == Choice::ClimbFloor(c);
                    if k >= columns@.len() {
                        assert(offered[k] == Choice::PotionAction(potion_actions@[k - columns@.len()]));
                    }
                    assert(columns@[k] == c);
                }
                Ok(MainScreenAction::ClimbFloor(c))
            },
            Ok(Choice::PotionAction(a)) => {
                proof {
                    let k = choose|k: int| 0 <= k < offered.len() && offered[k] == Choice::PotionAction(a);
                    if k < columns@.len() {
                        assert(offered[k] == Choice::ClimbFloor(columns@[k]));
                    }
                    assert(potion_actions@[k - columns@.len()] == a);
                }
                Ok(MainScreenAction::Potion(a))
            },
            Ok(c) => {
                proof {
                    let k = choose|k: int| 0 <= k < offered.len() && offered[k] == c;
                    if k < columns@.len() {
                        assert(offered[k] == Choice::ClimbFloor(columns@[k]));
                    } else {
                        assert(offered[k] == Choice::PotionAction(potion_actions@[k - columns@.len()]));
                    }
                }
                Err(StsError::InvalidChoice)
            },
            Err(e) => Err(e),
        }
    }

    /// Offers `cards` and Skip; answers the card taken, or `None` for Skip.
    pub fn choose_card_to_obtain(&mut self, cards: &[Card], one_only: bool) -> (r: Result<Option<Card>, StsError>)
        ensures
            asked(old(self).sent(), final(self).sent(), obtain_prompt(one_only), card_choices(cards@)),
            answered(*old(self), *final(self), r, |a: usize| card_answer(cards@, a)),
            r matches Ok(Some(c)) ==> cards@.contains(c),
            r matches Err(e) ==> e == StsError::Disconnected || e == StsError::InvalidChoice,
    {
        let mut choices: Vec<Choice> = Vec::new();
        let mut i: usize = 0;
        while i < cards.len()
            invariant
                i <= cards@.len(),
                choices@ == cards@.subrange(0, i as int).map_values(|c: Card| Choice::ObtainCard(c)),
            decreases cards@.len() - i,
        {
            choices.push(Choice::ObtainCard(cards[i]));
            i = i + 1;
        }
        assert(cards@.subrange(0, cards@.len() as int) == cards@);
        choices.push(Choice::Skip);
        let prompt = if one_only { Prompt::ChooseOne } else { Prompt::ChooseNext };
        let ghost offered = choices@;
        match self.prompt_for_choice(prompt, choices) {
            Ok(Choice::ObtainCard(c)) => {
                proof {
                    let k = choose|k: int| 0 <= k < offered.len() && offered[k] == Choice::ObtainCard(c);
                    assert(cards@[k] == c);
                }
                Ok(Some(c))
            },
            Ok(Choice::Skip) => Ok(None),
            Ok(c) => {
                proof {
                    let k = choose|k: int| 0 <= k < offered.len() && offered[k] == c;
                }
                Err(StsError::InvalidChoice)
            },
            Err(e) => Err(e),
        }
    }

    /// Offers `potions` and Skip; answers the potion taken, or `None` for Skip.
    pub fn choose_potion_to_obtain(&mut self, potions: &[Potion], one_only: bool) -> (r: Result<Option<Potion>, StsError>)
        ensures
            asked(old(self).sent(), final(self).sent(), obtain_prompt(one_only), potion_choices(potions@)),
            answered(*old(self), *final(self), r, |a: usize| potion_answer(potions@, a)),
            r matches Ok(Some(p)) ==> potions@.contains(p),
            r matches Err(e) ==> e == StsError::Disconnected || e == StsError::InvalidChoice,
    {
        let mut choices: Vec<Choice> = Vec::new();
        let mut i: usize = 0;
        while i < potions.len()
            invariant
                i <= potions@.len(),
                choices@ == potions@.subrange(0, i as int).map_values(|p: Potion| Choice::ObtainPotion(p)),
            decreases potions@.len() - i,
        {
            choices.push(Choice::ObtainPotion(potions[i]));
            i = i + 1;
        }
        assert(potions@.subrange(0, potions@.len() as int) == potions@);
        choices.push(Choice::Skip);
        let prompt = if one_only { Prompt::ChooseOne } else { Prompt::ChooseNext };
        let ghost offered = choices@;
        match self.prompt_for_choice(prompt, choices) {
            Ok(Choice::ObtainPotion(p)) => {
                proof {
                    let k = choose|k: int| 0 <= k < offered.len() && offered[k] == Choice::ObtainPotion(p);
                    assert(potions@[k] == p);
                }
                Ok(Some(p))
            },
            Ok(Choice::Skip) => Ok(None),
            Ok(c) => {
                proof {
                    let k = choose|k: int| 0 <= k < offered.len() && offered[k] == c;
                }
                Err(StsError::InvalidChoice)
            },
            Err(e) => Err(e),
        }
    }

    /// Offers every card of `deck` for removal; answers the index of the card chosen.
    pub fn choose_card_to_remove(&mut self, deck: &[Card]) -> (r: Result<DeckIndex, StsError>)
        ensures
            asked(old(self).sent(), final(self).sent(), Prompt::RemoveCard, removal_choices(deck@)),
            answered(*old(self), *final(self), r, |a: usize| removal_answer(deck@, a)),
            r matches Ok(i) ==> i < deck@.len(),
            r matches Err(e) ==> e == StsError::Disconnected || e == StsError::InvalidChoice,
    {
        let mut choices: Vec<Choice> = Vec::new();
        let mut i: usize = 0;
        while i < deck.len()
            invariant
                i <= deck@.len(),
                choices@ == removal_choices(deck@).subrange(0, i as int),
            decreases deck@.len() - i,
        {
            choices.push(Choice::RemoveCard(i, deck[i]));
            proof {
                assert(removal_choices(deck@).subrange(0, i as int + 1) =~= removal_choices(deck@).subrange(0, i as int).push(Choice::RemoveCard(i, deck@[i as int])));
            }
            i = i + 1;
        }
        assert(removal_choices(deck@).subrange(0, deck@.len() as int) == removal_choices(deck@));
        let ghost offered = choices@;
        match self.prompt_for_choice(Prompt::RemoveCard, choices) {
            Ok(Choice::RemoveCard(index, card)) => {
                proof {
                    let k = choose|k: int| 0 <= k < offered.len() && offered[k] == Choice::RemoveCard(index, card);
                }
                Ok(index)
            },
            Ok(c) => {
                proof {
                    let k = choose|k: int| 0 <= k < offered.len() && offered[k] == c;
                }
                Err(StsError::InvalidChoice)
            },
            Err(e) => Err(e),
        }
    }

    /// Offers the playable cards of the hand, given with their hand indices, and End Turn;
    /// answers the hand index of the card to play, or `None` to end the turn.
    pub fn choose_card_to_play(&mut self, playable_cards: &[(HandIndex, Card)]) -> (r: Result<Option<HandIndex>, StsError>)
        ensures
            asked(old(self).sent(), final(self).sent(), Prompt::CombatAction, play_choices(playable_cards@)),
            r matches Ok(Some(i)) ==> exists|k: int| 0 <= k < playable_cards@.len() && #[trigger] playable_cards@[k].0 == i,
            r matches Err(e) ==> e == StsError::Disconnected || e == StsError::InvalidChoice,
            answered(*old(self), *final(self), r, |a: usize| play_answer(playable_cards@, a)),
    {
        let mut choices: Vec<Choice> = Vec::new();
        let mut i: usize = 0;
        while i < playable_cards.len()
            invariant
                i <= playable_cards@.len(),
                choices@ == playable_cards@.subrange(0, i as int).map_values(|p: (HandIndex, Card)| Choice::PlayCardFromHand(p.0, p.1)),
            decreases playable_cards@.len() - i,
        {
            let (index, card) = playable_cards[i];
            choices.push(Choice::PlayCardFromHand(index, card));
            i = i + 1;
        }
        assert(playable_cards@.subrange(0, playable_cards@.len() as int) == playable_cards@);
        choices.push(Choice::EndTurn);
        let ghost offered = choices@;
        match self.prompt_for_choice(Prompt::CombatAction, choices) {
            Ok(Choice::PlayCardFromHand(index, card)) => {
                proof {
                    let k = choose|k: int| 0 <= k < offered.len() && offered[k] == Choice::PlayCardFromHand(index, card);
                    assert(playable_cards@[k].0 == index);
                }
                Ok(Some(index))
            },
            Ok(Choice::EndTurn) => Ok(None),
            Ok(c) => {
                proof {
                    let k = choose|k: int| 0 <= k < offered.len() && offered[k] == c;
                }
                Err(StsError::InvalidChoice)
            },
            Err(e) => Err(e),
        }
    }

    /// Offers the living enemies as targets; answers the index of the enemy chosen.
    pub fn choose_enemy_to_target(&mut self, enemies: &[Option<EnemyStatus>]) -> (r: Result<EnemyIndex, StsError>)
        ensures
            asked(old(self).sent(), final(self).sent(), Prompt::TargetEnemy, target_choices(enemies@, enemies@.len() as int)),
            r matches Ok(i) ==> i < enemies@.len() && enemies@[i as int] is Some,
            r matches Err(e) ==> e == StsError::Disconnected || e == StsError::InvalidChoice,
            answered(*old(self), *final(self), r, |a: usize| target_answer(enemies@, a)),
    {
        let mut choices: Vec<Choice> = Vec::new();
        let mut i: usize = 0;
        while i < enemies.len()
            invariant
                i <= enemies@.len(),
                choices@ == target_choices(enemies@, i as int),
            decreases enemies@.len() - i,
        {
            match &enemies[i] {
                Some(e) => {
                    choices.push(Choice::TargetEnemy(i, e.enemy_type));
                },
                None => {},
            }
            i = i + 1;
        }
        proof {
            lemma_target_choices_living(enemies@, enemies@.len() as int);
        }
        let ghost offered = choices@;
        match self.prompt_for_choice(Prompt::TargetEnemy, choices) {
            Ok(Choice::TargetEnemy(index, t)) => {
                proof {
                    let k = choose|k: int| 0 <= k < offered.len() && offered[k] == Choice::TargetEnemy(index, t);
                }
                Ok(index)
            },
            Ok(c) => {
                proof {
                    let k = choose|k: int| 0 <= k < offered.len() && offered[k] == c;
                }
                Err(StsError::InvalidChoice)
            },
            Err(e) => Err(e),
        }
    }

    /// Sends `Hp(hp)`.
    pub fn send_hp(&mut self, hp: Hp) -> (r: Result<(), StsError>)
        ensures
            final(self).sent() == old(self).sent().push(StsMessage::Hp(hp)),
            r matches Err(e) ==> e == StsError::Disconnected,
            tallied(*old(self), *final(self), r is Err),
    {
        send_message(self, StsMessage::Hp(hp))
    }

    /// Sends `Dexterity(dexterity)`.
    pub fn send_dexterity(&mut self, dexterity: crate::types::Dexterity) -> (r: Result<(), StsError>)
        ensures
            final(self).sent() == old(self).sent().push(StsMessage::Dexterity(dexterity)),
            r matches Err(e) ==> e == StsError::Disconnected,
            tallied(*old(self), *final(self), r is Err),
    {
        send_message(self, StsMessage::Dexterity(dexterity))
    }

    /// Sends `Conditions(conditions)`.
    pub fn send_conditions(&mut self, conditions: &[crate::data::PlayerCondition]) -> (r: Result<(), StsError>)
        ensures
            one_more(old(self).sent(), final(self).sent()),
            final(self).sent().last() matches StsMessage::Conditions(v) && v@ == conditions@,
            r matches Err(e) ==> e == StsError::Disconnected,
            tallied(*old(self), *final(self), r is Err),
    {
        let copy = slice_to_vec(conditions);
        let ghost before = self.sent@;
        let r = send_message(self, StsMessage::Conditions(copy));
        assert(self.sent@.drop_last() =~= before);
        r
    }

    /// Sends `Strength(strength)`.
    pub fn send_strength(&mut self, strength: crate::types::Strength) -> (r: Result<(), StsError>)
        ensures
            final(self).sent() == old(self).sent().push(StsMessage::Strength(strength)),
            r matches Err(e) ==> e == StsError::Disconnected,
            tallied(*old(self), *final(self), r is Err),
    {
        send_message(self, StsMessage::Strength(strength))
    }

    /// Sends `PotionObtained(index, potion)`.
    pub fn send_potion_obtained(&mut self, index: usize, potion: Potion) -> (r: Result<(), StsError>)
        ensures
            final(self).sent() == old(self).sent().push(StsMessage::PotionObtained(index, potion)),
            r matches Err(e) ==> e == StsError::Disconnected,
            tallied(*old(self), *final(self), r is Err),
    {
        send_message(self, StsMessage::PotionObtained(index, potion))
    }

    /// Sends `Block(amount)`.
    pub fn send_block(&mut self, amount: Block) -> (r: Result<(), StsError>)
        ensures
            final(self).sent() == old(self).sent().push(StsMessage::Block(amount)),
            r matches Err(e) ==> e == StsError::Disconnected,
            tallied(*old(self), *final(self), r is Err),
    {
        send_message(self, StsMessage::Block(amount))
    }

    /// Sends `BlockGained(amount)`.
    pub fn send_block_gained(&mut self, amount: Block) -> (r: Result<(), StsError>)
        ensures
            final(self).sent() == old(self).sent().push(StsMessage::BlockGained(amount)),
            r matches Err(e) ==> e == StsError::Disconnected,
            tallied(*old(self), *final(self), r is Err),
    {
        send_message(self, StsMessage::BlockGained(amount))
    }

    /// Sends `BlockLost(amount)`.
    pub fn send_block_lost(&mut self, amount: Block) -> (r: Result<(), StsError>)
        ensures
            final(self).sent() == old(self).sent().push(StsMessage::BlockLost(amount)),
            r matches Err(e) ==> e == StsError::Disconnected,
            tallied(*old(self), *final(self), r is Err),
    {
        send_message(self, StsMessage::BlockLost(amount))
    }

    /// Sends `CardDiscarded(hand_index, card)`.
    pub fn send_card_discarded(&mut self, hand_index: HandIndex, card: Card) -> (r: Result<(), StsError>)
        ensures
            final(self).sent() == old(self).sent().push(StsMessage::CardDiscarded(hand_index, card)),
            r matches Err(e) ==> e == StsError::Disconnected,
            tallied(*old(self), *final(self), r is Err),
    {
        send_message(self, StsMessage::CardDiscarded(hand_index, card))
    }

    /// Sends `CardDrawn(hand_index, card)`.
    pub fn send_card_drawn(&mut self, hand_index: HandIndex, card: Card) -> (r: Result<(), StsError>)
        ensures
            final(self).sent() == old(self).sent().push(StsMessage::CardDrawn(hand_index, card)),
            r matches Err(e) ==> e == StsError::Disconnected,
            tallied(*old(self), *final(self), r is Err),
    {
        send_message(self, StsMessage::CardDrawn(hand_index, card))
    }

    /// Sends `CardExhausted(hand_index, card)`.
    pub fn send_card_exhausted(&mut self, hand_index: HandIndex, card: Card) -> (r: Result<(), StsError>)
        ensures
            final(self).sent() == old(self).sent().push(StsMessage::CardExhausted(hand_index, card)),
            r matches Err(e) ==> e == StsError::Disconnected,
            tallied(*old(self), *final(self), r is Err),
    {
        send_message(self, StsMessage::CardExhausted(hand_index, card))
    }

    /// Sends `CardObtained(card)`.
    pub fn send_card_obtained(&mut self, card: Card) -> (r: Result<(), StsError>)
        ensures
            final(self).sent() == old(self).sent().push(StsMessage::CardObtained(card)),
            r matches Err(e) ==> e == StsError::Disconnected,
            tallied(*old(self), *final(self), r is Err),
    {
        send_message(self, StsMessage::CardObtained(card))
    }

    /// Sends `CardRemoved(card)`.
    pub fn send_card_removed(&mut self, card: Card) -> (r: Result<(), StsError>)
        ensures
            final(self).sent() == old(self).sent().push(StsMessage::CardRemoved(card)),
            r matches Err(e) ==> e == StsError::Disconnected,
            tallied(*old(self), *final(self), r is Err),
    {
        send_message(self, StsMessage::CardRemoved(card))
    }

    /// Sends `DamageBlocked(amount)`.
    pub fn send_damage_blocked(&mut self, amount: Hp) -> (r: Result<(), StsError>)
        ensures
            final(self).sent() == old(self).sent().push(StsMessage::DamageBlocked(amount)),
            r matches Err(e) ==> e == StsError::Disconnected,
            tallied(*old(self), *final(self), r is Err),
    {
        send_message(self, StsMessage::DamageBlocked(amount))
    }

    /// Sends `DamageTaken(amount)`.
    pub fn send_damage_taken(&mut self, amount: Hp) -> (r: Result<(), StsError>)
        ensures
            final(self).sent() == old(self).sent().push(StsMessage::DamageTaken(amount)),
            r matches Err(e) ==> e == StsError::Disconnected,
            tallied(*old(self), *final(self), r is Err),
    {
        send_message(self, StsMessage::DamageTaken(amount))
    }

    /// Sends `EndingCombat`.
    pub fn send_ending_combat(&mut self) -> (r: Result<(), StsError>)
        ensures
            final(self).sent() == old(self).sent().push(StsMessage::EndingCombat),
            r matches Err(e) ==> e == StsError::Disconnected,
            tallied(*old(self), *final(self), r is Err),
    {
        send_message(self, StsMessage::EndingCombat)
    }

    /// Sends `EnemyDied(index, enemy_type)`.
    pub fn send_enemy_died(&mut self, index: EnemyIndex, enemy_type: EnemyType) -> (r: Result<(), StsError>)
        ensures
            final(self).sent() == old(self).sent().push(StsMessage::EnemyDied(index, enemy_type)),
            r matches Err(e) ==> e == StsError::Disconnected,
            tallied(*old(self), *final(self), r is Err),
    {
        send_message(self, StsMessage::EnemyDied(index, enemy_type))
    }

    /// Sends `EnemyStatus(index, status)`.
    pub fn send_enemy_status(&mut self, index: EnemyIndex, status: EnemyStatus) -> (r: Result<(), StsError>)
        ensures
            final(self).sent() == old(self).sent().push(StsMessage::EnemyStatus(index, status)),
            r matches Err(e) ==> e == StsError::Disconnected,
            tallied(*old(self), *final(self), r is Err),
    {
        send_message(self, StsMessage::EnemyStatus(index, status))
    }

    /// Sends `Energy(energy)`.
    pub fn send_energy(&mut self, energy: Energy) -> (r: Result<(), StsError>)
        ensures
            final(self).sent() == old(self).sent().push(StsMessage::Energy(energy)),
            r matches Err(e) ==> e == StsError::Disconnected,
            tallied(*old(self), *final(self), r is Err),
    {
        send_message(self, StsMessage::Energy(energy))
    }

    /// Sends `GameOver(victory)`.
    pub fn send_game_over(&mut self, victory: bool) -> (r: Result<(), StsError>)
        ensures
            final(self).sent() == old(self).sent().push(StsMessage::GameOver(victory)),
            r matches Err(e) ==> e == StsError::Disconnected,
            tallied(*old(self), *final(self), r is Err),
    {
        send_message(self, StsMessage::GameOver(victory))
    }

    /// Sends `Gold(gold)`.
    pub fn send_gold_changed(&mut self, gold: Gold) -> (r: Result<(), StsError>)
        ensures
            final(self).sent() == old(self).sent().push(StsMessage::Gold(gold)),
            r matches Err(e) ==> e == StsError::Disconnected,
            tallied(*old(self), *final(self), r is Err),
    {
        send_message(self, StsMessage::Gold(gold))
    }

    /// Sends `HandDiscarded`.
    pub fn send_hand_discarded(&mut self) -> (r: Result<(), StsError>)
        ensures
            final(self).sent() == old(self).sent().push(StsMessage::HandDiscarded),
            r matches Err(e) ==> e == StsError::Disconnected,
            tallied(*old(self), *final(self), r is Err),
    {
        send_message(self, StsMessage::HandDiscarded)
    }

    /// Sends `Health(health)`.
    pub fn send_health_changed(&mut self, health: Health) -> (r: Result<(), StsError>)
        ensures
            final(self).sent() == old(self).sent().push(StsMessage::Health(health)),
            r matches Err(e) ==> e == StsError::Disconnected,
            tallied(*old(self), *final(self), r is Err),
    {
        send_message(self, StsMessage::Health(health))
    }

    /// Sends `MapText(map_string)`.
    pub fn send_map_string(&mut self, map_string: String) -> (r: Result<(), StsError>)
        ensures
            final(self).sent() == old(self).sent().push(StsMessage::MapText(map_string)),
            r matches Err(e) ==> e == StsError::Disconnected,
            tallied(*old(self), *final(self), r is Err),
    {
        send_message(self, StsMessage::MapText(map_string))
    }

    /// Sends `RelicObtained(relic)`.
    pub fn send_relic_obtained(&mut self, relic: Relic) -> (r: Result<(), StsError>)
        ensures
            final(self).sent() == old(self).sent().push(StsMessage::RelicObtained(relic)),
            r matches Err(e) ==> e == StsError::Disconnected,
            tallied(*old(self), *final(self), r is Err),
    {
        send_message(self, StsMessage::RelicObtained(relic))
    }

    /// Sends `ShufflingDiscardToDraw`.
    pub fn send_shuffling_discard_to_draw(&mut self) -> (r: Result<(), StsError>)
        ensures
            final(self).sent() == old(self).sent().push(StsMessage::ShufflingDiscardToDraw),
            r matches Err(e) ==> e == StsError::Disconnected,
            tallied(*old(self), *final(self), r is Err),
    {
        send_message(self, StsMessage::ShufflingDiscardToDraw)
    }

    /// Sends `StartingCombat`.
    pub fn send_starting_combat(&mut self) -> (r: Result<(), StsError>)
        ensures
            final(self).sent() == old(self).sent().push(StsMessage::StartingCombat),
            r matches Err(e) ==> e == StsError::Disconnected,
            tallied(*old(self), *final(self), r is Err),
    {
        send_message(self, StsMessage::StartingCombat)
    }

    /// Sends `AddToDiscardPile` with a copy of `cards`.
    pub fn send_add_to_discard_pile(&mut self, cards: &[Card]) -> (r: Result<(), StsError>)
        ensures
            one_more(old(self).sent(), final(self).sent()),
            final(self).sent().last() matches StsMessage::AddToDiscardPile(v) && v@ == cards@,
            r matches Err(e) ==> e == StsError::Disconnected,
            tallied(*old(self), *final(self), r is Err),
    {
        let ghost before = self.sent@;
        let r = send_message(self, StsMessage::AddToDiscardPile(slice_to_vec(cards)));
        assert(self.sent@.drop_last() =~= before);
        r
    }

    /// Sends `Debuffs` with a copy of `debuffs`.
    pub fn send_debuffs(&mut self, debuffs: &[(Debuff, StackCount)]) -> (r: Result<(), StsError>)
        ensures
            one_more(old(self).sent(), final(self).sent()),
            final(self).sent().last() matches StsMessage::Debuffs(v) && v@ == debuffs@,
            r matches Err(e) ==> e == StsError::Disconnected,
            tallied(*old(self), *final(self), r is Err),
    {
        let ghost before = self.sent@;
        let r = send_message(self, StsMessage::Debuffs(slice_to_vec(debuffs)));
        assert(self.sent@.drop_last() =~= before);
        r
    }

    /// Sends `Deck` with a copy of `deck`.
    pub fn send_deck(&mut self, deck: &[Card]) -> (r: Result<(), StsError>)
        ensures
            one_more(old(self).sent(), final(self).sent()),
            final(self).sent().last() matches StsMessage::Deck(v) && v@ == deck@,
            r matches Err(e) ==> e == StsError::Disconnected,
            tallied(*old(self), *final(self), r is Err),
    {
        let ghost before = self.sent@;
        let r = send_message(self, StsMessage::Deck(slice_to_vec(deck)));
        assert(self.sent@.drop_last() =~= before);
        r
    }

    /// Sends `Potions` with a copy of `potions`.
    pub fn send_potions(&mut self, potions: &[Option<Potion>]) -> (r: Result<(), StsError>)
        ensures
            one_more(old(self).sent(), final(self).sent()),
            final(self).sent().last() matches StsMessage::Potions(v) && v@ == potions@,
            r matches Err(e) ==> e == StsError::Disconnected,
            tallied(*old(self), *final(self), r is Err),
    {
        let ghost before = self.sent@;
        let r = send_message(self, StsMessage::Potions(slice_to_vec(potions)));
        assert(self.sent@.drop_last() =~= before);
        r
    }

    /// Sends `Relics` with a copy of `relics`.
    pub fn send_relics(&mut self, relics: &[Relic]) -> (r: Result<(), StsError>)
        ensures
            one_more(old(self).sent(), final(self).sent()),
            final(self).sent().last() matches StsMessage::Relics(v) && v@ == relics@,
            r matches Err(e) ==> e == StsError::Disconnected,
            tallied(*old(self), *final(self), r is Err),
    {
        let ghost before = self.sent@;
        let r = send_message(self, StsMessage::Relics(slice_to_vec(relics)));
        assert(self.sent@.drop_last() =~= before);
        r
    }

    /// Sends `EnemyParty` with a copy of the statuses of the enemy slots.
    pub fn send_enemy_statuses(&mut self, enemies: &[Option<EnemyStatus>]) -> (r: Result<(), StsError>)
        ensures
            one_more(old(self).sent(), final(self).sent()),
            final(self).sent().last() matches StsMessage::EnemyParty(v) && v@.len() == enemies@.len()
                && forall|i: int| 0 <= i < enemies@.len() ==> same_slot(#[trigger] v@[i], enemies@[i]),
            r matches Err(e) ==> e == StsError::Disconnected,
            tallied(*old(self), *final(self), r is Err),
    {
        let mut copies: Vec<Option<EnemyStatus>> = Vec::new();
        let mut i: usize = 0;
        while i < enemies.len()
            invariant
                i <= enemies@.len(),
                copies@.len() == i,
                forall|k: int| 0 <= k < i ==> same_slot(#[trigger] copies@[k], enemies@[k]),
            decreases enemies@.len() - i,
        {
            let copy = match &enemies[i] {
                Some(e) => Some(e.copy()),
                None => None,
            };
            copies.push(copy);
            i = i + 1;
        }
        let ghost before = self.sent@;
        let r = send_message(self, StsMessage::EnemyParty(copies));
        assert(self.sent@.drop_last() =~= before);
        r
    }
}

} // verus!
