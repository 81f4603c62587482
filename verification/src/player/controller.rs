use vstd::prelude::*;

use crate::data::{spec_can_drink_anywhere, spec_cost, Card, Character, Debuff, EnemyType, NeowBlessing, Potion, Relic};
use crate::rng::java::{java_initial_scramble, java_shuffle};
use crate::rng::sts::{rng_step, RngState, StsRandom};
use crate::sim::enemy::EnemyStatus;
use crate::types::{AttackDamage, Block, ColumnIndex, EnemyIndex, Gold, HandIndex, Hp, HpMax, StackCount};

use super::action::{has_card_details, spec_card_details, CardDetails, Target};
use super::comms::{
    blessing_answer, card_answer, main_screen_answer, removal_answer, tallied,
    answered, asked, asked_then, card_choices, exchanges_added, lemma_asked_then, new_answers, one_more, play_answer, target_answer, lemma_sent_part, lemma_sent_part_longer, main_screen_choices,
    obtain_prompt, play_choices, potion_choices, removal_choices, same_slot, sent_more, sent_part, target_choices, Comms,
    MainScreenAction,
};
use super::message::{Choice, PotionAction, Prompt, StsError, StsMessage};
use crate::systems::base::potion_system::{action_slot, health_after, index_from, lemma_index_from};
use super::state::{
    first_empty_slot, has_debuff_in, has_empty_slot, lemma_first_empty_slot, potions_after_obtaining, spec_min, spec_saturating_add, spec_saturating_sub,
    CombatState, PlayerState, PlayerStateView,
};

verus! {

/// The player between combats: their state and the channels to the client.
pub struct PlayerController {
    state: PlayerState,
    comms: Comms,
}

/// The player during a combat: the combat state, the card being played, and the player's
/// persistent state and channels, handed back when the combat ends.
pub struct CombatController {
    combat_state: CombatState,
    card_just_played: Option<HandIndex>,
    state: PlayerState,
    comms: Comms,
}

/// What the player chose to do in combat.
#[derive(Debug)]
pub enum CombatAction {
    EndTurn,
    PlayCard(Card, CardDetails),
    PlayCardAgainstEnemy(Card, CardDetails, EnemyIndex),
    Potion(PotionAction),
}

/// The number of filled potion slots among the first `n`.
pub open spec fn filled_slots(potions: Seq<Option<Potion>>, n: int) -> nat
    decreases n,
{
    if n <= 0 {
        0
    } else {
        filled_slots(potions, n - 1) + if potions[n - 1] is Some { 1nat } else { 0nat }
    }
}

/// Emptying a filled slot leaves one filled slot fewer.
pub proof fn lemma_emptying_a_slot(potions: Seq<Option<Potion>>, i: int, n: int)
    requires
        0 <= i < n <= potions.len(),
        potions[i] is Some,
    ensures
        filled_slots(potions.update(i, None), n) + 1 == filled_slots(potions, n),
    decreases n,
{
    if n - 1 > i {
        lemma_emptying_a_slot(potions, i, n - 1);
    } else {
        lemma_same_prefix_same_count(potions, potions.update(i, None), i);
    }
}

/// Equal prefixes have the same number of filled slots.
pub proof fn lemma_same_prefix_same_count(a: Seq<Option<Potion>>, b: Seq<Option<Potion>>, n: int)
    requires
        0 <= n <= a.len(),
        n <= b.len(),
        forall|k: int| 0 <= k < n ==> a[k] == b[k],
    ensures
        filled_slots(a, n) == filled_slots(b, n),
    decreases n,
{
    if n > 0 {
        lemma_same_prefix_same_count(a, b, n - 1);
    }
}

/// The potion actions offered on the map screen for the first `n` slots: discard for every
/// potion, and drink for those that can be drunk outside of combat.
pub open spec fn map_potion_actions(potions: Seq<Option<Potion>>, n: int) -> Seq<PotionAction>
    decreases n,
{
    if n <= 0 {
        Seq::empty()
    } else {
        let before = map_potion_actions(potions, n - 1);
        match potions[n - 1] {
            Some(p) => if spec_can_drink_anywhere(p) {
                before.push(PotionAction::Discard((n - 1) as usize, p)).push(PotionAction::Drink((n - 1) as usize, p))
            } else {
                before.push(PotionAction::Discard((n - 1) as usize, p))
            },
            None => before,
        }
    }
}

/// Every action offered names a slot that holds that potion, and drinks only potions that can
/// be drunk outside of combat.
pub proof fn lemma_map_potion_actions(potions: Seq<Option<Potion>>, n: int)
    requires
        0 <= n <= potions.len(),
        potions.len() <= usize::MAX,
    ensures
        forall|k: int| 0 <= k < map_potion_actions(potions, n).len() ==> (match #[trigger] map_potion_actions(potions, n)[k] {
            PotionAction::Discard(i, p) => i < n && potions[i as int] == Some(p),
            PotionAction::Drink(i, p) => i < n && potions[i as int] == Some(p) && spec_can_drink_anywhere(p),
        }),
    decreases n,
{
    if n > 0 {
        lemma_map_potion_actions(potions, n - 1);
        let before = map_potion_actions(potions, n - 1);
        assert forall|k: int| 0 <= k < map_potion_actions(potions, n).len() implies (match #[trigger] map_potion_actions(potions, n)[k] {
            PotionAction::Discard(i, p) => i < n && potions[i as int] == Some(p),
            PotionAction::Drink(i, p) => i < n && potions[i as int] == Some(p) && spec_can_drink_anywhere(p),
        }) by {
            if k < before.len() {
                assert(map_potion_actions(potions, n)[k] == before[k]);
            }
        }
    }
}

/// The potion actions for the current slots.
fn potion_actions_for(potions: &[Option<Potion>]) -> (r: Vec<PotionAction>)
    ensures
        r@ == map_potion_actions(potions@, potions@.len() as int),
{
    let mut r: Vec<PotionAction> = Vec::new();
    let mut i: usize = 0;
    while i < potions.len()
        invariant
            i <= potions@.len(),
            r@ == map_potion_actions(potions@, i as int),
        decreases potions@.len() - i,
    {
        match potions[i] {
            Some(p) => {
                r.push(PotionAction::Discard(i, p));
                if p.can_drink_anywhere() {
                    r.push(PotionAction::Drink(i, p));
                }
            },
            None => {},
        }
        i = i + 1;
    }
    r
}

/// What choosing up to `count` potions comes to for the client's `answers`, round after round:
/// while a slot is free, potions remain and `count` may still be taken, the client is offered
/// the `remaining` potions and Skip; an answer naming a potion puts it in the first free slot,
/// takes its first occurrence off the offer and lowers the count, Skip ends with `Ok`, an
/// answer naming no option ends with `InvalidChoice`. Gives the slots and the result, or
/// `None` when the answers do not fit the rounds.
pub open spec fn counted_rounds(held: Seq<Option<Potion>>, remaining: Seq<Potion>, count: nat, answers: Seq<usize>)
    -> Option<(Seq<Option<Potion>>, Result<(), StsError>)>
    decreases answers.len(),
{
    if !(has_empty_slot(held) && remaining.len() > 0 && count > 0) {
        if answers.len() == 0 { Some((held, Ok(()))) } else { None }
    } else if answers.len() == 0 {
        None
    } else {
        let a = answers[0];
        let rest = answers.drop_first();
        if a >= remaining.len() {
            if rest.len() == 0 {
                Some((held, if a == remaining.len() { Ok(()) } else { Err(StsError::InvalidChoice) }))
            } else {
                None
            }
        } else {
            let p = remaining[a as int];
            counted_rounds(potions_after_obtaining(held, p), remaining.remove(index_from(remaining, p, 0)), (count - 1) as nat, rest)
        }
    }
}

/// At most `count` potions are taken: the rounds fill no more than `count` slots, keep the
/// number of slots, and leave every filled slot as it was.
pub proof fn law_at_most_count_potions_are_taken(held: Seq<Option<Potion>>, remaining: Seq<Potion>, count: nat, answers: Seq<usize>)
    ensures
        counted_rounds(held, remaining, count, answers) matches Some((h, _)) ==> h.len() == held.len()
            && filled_slots(h, h.len() as int) <= filled_slots(held, held.len() as int) + count
            && forall|i: int| 0 <= i < held.len() && held[i] is Some ==> h[i] == held[i],
    decreases answers.len(),
{
    if has_empty_slot(held) && remaining.len() > 0 && count > 0 && answers.len() > 0 {
        let a = answers[0];
        if a < remaining.len() {
            let p = remaining[a as int];
            let after = potions_after_obtaining(held, p);
            lemma_first_empty_slot(held, 0);
            let slot = first_empty_slot(held, 0);
            assert(after == held.update(slot, Some(p)));
            assert(after.update(slot, None) =~= held);
            lemma_emptying_a_slot(after, slot, after.len() as int);
            law_at_most_count_potions_are_taken(after, remaining.remove(index_from(remaining, p, 0)), (count - 1) as nat, answers.drop_first());
        }
    }
}

/// One more answer naming a potion moves the rounds on.
proof fn lemma_counted_round(
    held0: Seq<Option<Potion>>, rem0: Seq<Potion>, count0: nat, done: Seq<usize>,
    held: Seq<Option<Potion>>, rem: Seq<Potion>, count: nat, a: usize,
)
    requires
        forall|rest: Seq<usize>| #[trigger] counted_rounds(held0, rem0, count0, done + rest) == counted_rounds(held, rem, count, rest),
        has_empty_slot(held) && rem.len() > 0 && count > 0,
        a < rem.len(),
    ensures
        forall|rest: Seq<usize>| #[trigger] counted_rounds(held0, rem0, count0, done.push(a) + rest)
            == counted_rounds(potions_after_obtaining(held, rem[a as int]), rem.remove(index_from(rem, rem[a as int], 0)),
                (count - 1) as nat, rest),
{
    assert forall|rest: Seq<usize>| #[trigger] counted_rounds(held0, rem0, count0, done.push(a) + rest)
        == counted_rounds(potions_after_obtaining(held, rem[a as int]), rem.remove(index_from(rem, rem[a as int], 0)),
            (count - 1) as nat, rest) by {
        let longer = seq![a] + rest;
        assert(done + longer =~= done.push(a) + rest);
        assert(longer[0] == a);
        assert(longer.drop_first() =~= rest);
        assert(counted_rounds(held0, rem0, count0, done + longer) == counted_rounds(held, rem, count, longer));
    }
}

/// The last answer ends the rounds as `counted_rounds` says.
proof fn lemma_counted_last_round(
    held0: Seq<Option<Potion>>, rem0: Seq<Potion>, count0: nat, done: Seq<usize>,
    held: Seq<Option<Potion>>, rem: Seq<Potion>, count: nat, a: usize,
)
    requires
        forall|rest: Seq<usize>| #[trigger] counted_rounds(held0, rem0, count0, done + rest) == counted_rounds(held, rem, count, rest),
        has_empty_slot(held) && rem.len() > 0 && count > 0,
        a >= rem.len(),
    ensures
        counted_rounds(held0, rem0, count0, done.push(a))
            == Some((held, if a == rem.len() { Ok::<(), StsError>(()) } else { Err::<(), StsError>(StsError::InvalidChoice) })),
{
    let longer = seq![a];
    assert(done + longer =~= done.push(a));
    assert(longer.drop_first().len() == 0);
    assert(counted_rounds(held0, rem0, count0, done + longer) == counted_rounds(held, rem, count, longer));
}

/// What climbing comes to for the client's `answers`, round after round: the client is asked
/// for a column of `options` or an action on the potions held (see `main_screen_answer`); a
/// potion action empties its slot (drinking heals as `health_after` says) and asks again; a
/// column ends with it, an answer naming no option ends with `InvalidChoice`. Gives the slots,
/// the hit points and maximum, and the result, or `None` when the answers do not fit.
pub open spec fn climb_rounds(held: Seq<Option<Potion>>, hp: u32, hp_max: u32, options: Seq<ColumnIndex>, answers: Seq<usize>)
    -> Option<(Seq<Option<Potion>>, u32, u32, Result<ColumnIndex, StsError>)>
    decreases answers.len(),
{
    if answers.len() == 0 {
        None
    } else {
        let rest = answers.drop_first();
        match main_screen_answer(options, map_potion_actions(held, held.len() as int), answers[0]) {
            Ok(MainScreenAction::Potion(act)) => {
                let (hp2, max2) = health_after(act, hp, hp_max);
                climb_rounds(held.update(action_slot(act) as int, None), hp2, max2, options, rest)
            },
            Ok(MainScreenAction::ClimbFloor(c)) => if rest.len() == 0 { Some((held, hp, hp_max, Ok(c))) } else { None },
            Err(e) => if rest.len() == 0 { Some((held, hp, hp_max, Err(e))) } else { None },
        }
    }
}

/// One more answer naming a potion action moves the rounds on; one naming a column or no
/// option ends them.
proof fn lemma_climb_round(
    held0: Seq<Option<Potion>>, hp0: u32, max0: u32, options: Seq<ColumnIndex>, done: Seq<usize>,
    held: Seq<Option<Potion>>, hp: u32, hp_max: u32, a: usize,
)
    requires
        forall|rest: Seq<usize>| #[trigger] climb_rounds(held0, hp0, max0, options, done + rest) == climb_rounds(held, hp, hp_max, options, rest),
    ensures
        main_screen_answer(options, map_potion_actions(held, held.len() as int), a) matches Ok(MainScreenAction::Potion(act)) ==>
            forall|rest: Seq<usize>| #[trigger] climb_rounds(held0, hp0, max0, options, done.push(a) + rest)
                == climb_rounds(held.update(action_slot(act) as int, None), health_after(act, hp, hp_max).0, health_after(act, hp, hp_max).1,
                    options, rest),
        main_screen_answer(options, map_potion_actions(held, held.len() as int), a) matches Ok(MainScreenAction::ClimbFloor(c)) ==>
            climb_rounds(held0, hp0, max0, options, done.push(a)) == Some((held, hp, hp_max, Ok::<ColumnIndex, StsError>(c))),
        main_screen_answer(options, map_potion_actions(held, held.len() as int), a) matches Err(e) ==>
            climb_rounds(held0, hp0, max0, options, done.push(a)) == Some((held, hp, hp_max, Err::<ColumnIndex, StsError>(e))),
{
    assert forall|rest: Seq<usize>| #[trigger] climb_rounds(held0, hp0, max0, options, done.push(a) + rest)
        == climb_rounds(held, hp, hp_max, options, seq![a] + rest) by {
        assert(done + (seq![a] + rest) =~= done.push(a) + rest);
    }
    assert forall|rest: Seq<usize>| (seq![a] + rest)[0] == a && #[trigger] (seq![a] + rest).drop_first() == rest by {
        assert((seq![a] + rest).drop_first() =~= rest);
    }
    assert(climb_rounds(held0, hp0, max0, options, done.push(a) + Seq::<usize>::empty()) == climb_rounds(held, hp, hp_max, options, seq![a] + Seq::<usize>::empty()));
    assert(done.push(a) + Seq::<usize>::empty() =~= done.push(a));
    assert((seq![a] + Seq::<usize>::empty()).drop_first() =~= Seq::<usize>::empty());
}

/// The index of the first occurrence of `x` in `s`, which must occur.
fn position_of(s: &Vec<Potion>, x: Potion) -> (r: usize)
    requires
        s@.contains(x),
    ensures
        r < s@.len(),
        s@[r as int] == x,
        forall|k: int| 0 <= k < r ==> s@[k] != x,
{
    let mut i: usize = 0;
    while i < s.len()
        invariant
            i <= s@.len(),
            s@.contains(x),
            forall|k: int| 0 <= k < i ==> s@[k] != x,
        decreases s@.len() - i,
    {
        if s[i] == x {
            return i;
        }
        i = i + 1;
    }
    proof {
        let k = choose|k: int| 0 <= k < s@.len() && s@[k] == x;
    }
    0
}

/// After the question offering `deck` for removal, the client was told that the card at `i` was
/// removed and then, unless that failed, was sent the deck without it.
pub open spec fn told_removed(before: Seq<StsMessage>, after: Seq<StsMessage>, deck: Seq<Card>, i: int) -> bool {
    let rest = after.subrange(before.len() as int + 1, after.len() as int);
    &&& after.len() == before.len() + 2 || after.len() == before.len() + 3
    &&& asked(before, after.subrange(0, before.len() as int + 1), Prompt::RemoveCard, removal_choices(deck))
    &&& rest[0] == StsMessage::CardRemoved(deck[i])
    &&& rest.len() == 2 ==> (rest[1] matches StsMessage::Deck(v) && v@ == deck.remove(i))
}

/// The prompt of the map screen: whether potion actions are offered with the columns.
pub open spec fn climb_prompt(potions: Seq<Option<Potion>>) -> Prompt {
    if map_potion_actions(potions, potions.len() as int).len() == 0 {
        Prompt::ClimbFloor
    } else {
        Prompt::ClimbFloorHasPotion
    }
}

impl PlayerController {
    /// The player's state.
    pub closed spec fn state(&self) -> PlayerStateView {
        self.state@
    }

    /// The messages sent to the client so far.
    pub closed spec fn sent(&self) -> Seq<StsMessage> {
        self.comms.sent()
    }

    /// The channels to the client, with what was sent and read.
    pub closed spec fn comms(&self) -> Comms {
        self.comms
    }

    /// A new player of `character` talking over the given channels.
    pub fn new(
        character: Character,
        from_client: std::sync::mpsc::Receiver<usize>,
        to_client: std::sync::mpsc::Sender<StsMessage>,
    ) -> (r: PlayerController)
        ensures
            r.state().hp == crate::data::spec_starting_hp(character),
            r.state().hp_max == crate::data::spec_starting_hp(character),
            r.state().gold == 99,
            r.state().relics == seq![crate::data::spec_starting_relic(character)],
            r.state().deck == crate::data::spec_starting_deck(character),
            r.state().potions == seq![None::<Potion>, None, None],
            r.sent() == Seq::<StsMessage>::empty(),
    {
        PlayerController { state: PlayerState::new(character), comms: Comms::new(from_client, to_client) }
    }

    pub fn hp(&self) -> (r: Hp)
        ensures
            r == self.state().hp,
    {
        self.state.hp()
    }

    pub fn hp_max(&self) -> (r: HpMax)
        ensures
            r == self.state().hp_max,
    {
        self.state.hp_max()
    }

    pub fn gold(&self) -> (r: Gold)
        ensures
            r == self.state().gold,
    {
        self.state.gold()
    }

    /// Heals up to the maximum and tells the client the new health.
    pub fn increase_hp(&mut self, amount: Hp) -> (r: Result<(), StsError>)
        ensures
            final(self).state() == (PlayerStateView { hp: spec_min(spec_saturating_add(old(self).state().hp, amount), old(self).state().hp_max), ..old(self).state() }),
            final(self).sent() == old(self).sent().push(StsMessage::Health((final(self).state().hp, final(self).state().hp_max))),
            r matches Err(e) ==> e == StsError::Disconnected,
            tallied(old(self).comms(), final(self).comms(), r is Err),
    {
        self.state.increase_hp(amount);
        let health = self.state.health();
        self.comms.send_health_changed(health)
    }

    /// Loses hit points and tells the client the new health.
    pub fn decrease_hp(&mut self, amount: Hp) -> (r: Result<(), StsError>)
        ensures
            final(self).state() == (PlayerStateView { hp: spec_saturating_sub(old(self).state().hp, amount), ..old(self).state() }),
            final(self).sent() == old(self).sent().push(StsMessage::Health((final(self).state().hp, final(self).state().hp_max))),
            r matches Err(e) ==> e == StsError::Disconnected,
            tallied(old(self).comms(), final(self).comms(), r is Err),
    {
        self.state.decrease_hp(amount);
        let health = self.state.health();
        self.comms.send_health_changed(health)
    }

    /// Raises maximum and current hit points and tells the client the new health.
    pub fn increase_hp_max(&mut self, amount: HpMax) -> (r: Result<(), StsError>)
        ensures
            final(self).state() == (PlayerStateView {
                hp: spec_saturating_add(old(self).state().hp, amount),
                hp_max: spec_saturating_add(old(self).state().hp_max, amount),
                ..old(self).state()
            }),
            final(self).sent() == old(self).sent().push(StsMessage::Health((final(self).state().hp, final(self).state().hp_max))),
            r matches Err(e) ==> e == StsError::Disconnected,
            tallied(old(self).comms(), final(self).comms(), r is Err),
    {
        self.state.increase_hp_max(amount);
        let health = self.state.health();
        self.comms.send_health_changed(health)
    }

    /// Lowers the maximum (and hit points to stay within it) and tells the client.
    pub fn decrease_hp_max(&mut self, amount: HpMax) -> (r: Result<(), StsError>)
        ensures
            final(self).state() == (PlayerStateView {
                hp: spec_min(old(self).state().hp, spec_saturating_sub(old(self).state().hp_max, amount)),
                hp_max: spec_saturating_sub(old(self).state().hp_max, amount),
                ..old(self).state()
            }),
            final(self).sent() == old(self).sent().push(StsMessage::Health((final(self).state().hp, final(self).state().hp_max))),
            r matches Err(e) ==> e == StsError::Disconnected,
            tallied(old(self).comms(), final(self).comms(), r is Err),
    {
        self.state.decrease_hp_max(amount);
        let health = self.state.health();
        self.comms.send_health_changed(health)
    }

    /// Gains gold and tells the client the new amount.
    pub fn increase_gold(&mut self, amount: u32) -> (r: Result<(), StsError>)
        ensures
            final(self).state() == (PlayerStateView { gold: spec_saturating_add(old(self).state().gold, amount), ..old(self).state() }),
            final(self).sent() == old(self).sent().push(StsMessage::Gold(final(self).state().gold)),
            r matches Err(e) ==> e == StsError::Disconnected,
            tallied(old(self).comms(), final(self).comms(), r is Err),
    {
        self.state.increase_gold(amount);
        let gold = self.state.gold();
        self.comms.send_gold_changed(gold)
    }

    /// Loses gold and tells the client the new amount.
    pub fn decrease_gold(&mut self, amount: u32) -> (r: Result<(), StsError>)
        ensures
            final(self).state() == (PlayerStateView { gold: spec_saturating_sub(old(self).state().gold, amount), ..old(self).state() }),
            final(self).sent() == old(self).sent().push(StsMessage::Gold(final(self).state().gold)),
            r matches Err(e) ==> e == StsError::Disconnected,
            tallied(old(self).comms(), final(self).comms(), r is Err),
    {
        self.state.decrease_gold(amount);
        let gold = self.state.gold();
        self.comms.send_gold_changed(gold)
    }

    /// Sends health, gold, deck, potions and relics, stopping at the first failure.
    pub fn send_full_player_state(&mut self) -> (r: Result<(), StsError>)
        ensures
            final(self).state() == old(self).state(),
            sent_more(old(self).sent(), final(self).sent()),
            final(self).sent().len() <= old(self).sent().len() + 5,
            r is Ok ==> final(self).sent().len() == old(self).sent().len() + 5,
            r matches Err(e) ==> e == StsError::Disconnected,
            ({
                let k = old(self).sent().len() as int;
                let s = final(self).sent();
                &&& s[k] == StsMessage::Health((old(self).state().hp, old(self).state().hp_max))
                &&& s.len() > k + 1 ==> s[k + 1] == StsMessage::Gold(old(self).state().gold)
                &&& s.len() > k + 2 ==> (s[k + 2] matches StsMessage::Deck(v) && v@ == old(self).state().deck)
                &&& s.len() > k + 3 ==> (s[k + 3] matches StsMessage::Potions(v) && v@ == old(self).state().potions)
                &&& s.len() > k + 4 ==> (s[k + 4] matches StsMessage::Relics(v) && v@ == old(self).state().relics)
            }),
            tallied(old(self).comms(), final(self).comms(), r is Err),
    {
        let ghost s0 = self.comms.sent();
        let ghost k = s0.len() as int;
        let r1 = self.comms.send_health_changed(self.state.health());
        let ghost s1 = self.comms.sent();
        assert(s1.subrange(0, k) =~= s0);
        if r1.is_err() {
            return r1;
        }
        let r2 = self.comms.send_gold_changed(self.state.gold());
        let ghost s2 = self.comms.sent();
        assert(s2.subrange(0, k) =~= s0 && s2[k] == s1[k]);
        if r2.is_err() {
            return r2;
        }
        let r3 = self.comms.send_deck(self.state.deck());
        let ghost s3 = self.comms.sent();
        assert(s3.drop_last() == s2);
        assert(s3.subrange(0, k) =~= s0 && s3[k] == s2[k] && s3[k + 1] == s2[k + 1]);
        if r3.is_err() {
            return r3;
        }
        let r4 = self.comms.send_potions(self.state.potions());
        let ghost s4 = self.comms.sent();
        assert(s4.drop_last() == s3);
        assert(s4.subrange(0, k) =~= s0 && s4[k] == s3[k] && s4[k + 1] == s3[k + 1] && s4[k + 2] == s3[k + 2]);
        if r4.is_err() {
            return r4;
        }
        let r = self.comms.send_relics(self.state.relics());
        proof {
            let s5 = self.comms.sent();
            assert(s5.drop_last() == s4);
            assert(s5.subrange(0, k) =~= s0);
            assert(s5[k] == s4[k] && s5[k + 1] == s4[k + 1] && s5[k + 2] == s4[k + 2] && s5[k + 3] == s4[k + 3]);
        }
        r
    }

    /// Tells the client the game is over: a victory when the player is alive.
    pub fn send_game_over(&mut self) -> (r: Result<(), StsError>)
        ensures
            final(self).state() == old(self).state(),
            final(self).sent() == old(self).sent().push(StsMessage::GameOver(old(self).state().hp > 0)),
            r matches Err(e) ==> e == StsError::Disconnected,
            tallied(old(self).comms(), final(self).comms(), r is Err),
    {
        let alive = self.state.hp() > 0;
        self.comms.send_game_over(alive)
    }

    /// Sends the map, drawn as text.
    pub fn send_map_string(&mut self, map_string: String) -> (r: Result<(), StsError>)
        ensures
            final(self).state() == old(self).state(),
            final(self).sent() == old(self).sent().push(StsMessage::MapText(map_string)),
            r matches Err(e) ==> e == StsError::Disconnected,
            tallied(old(self).comms(), final(self).comms(), r is Err),
    {
        self.comms.send_map_string(map_string)
    }

    /// Adds the card to the deck and tells the client.
    pub fn obtain_card(&mut self, card: Card) -> (r: Result<(), StsError>)
        ensures
            final(self).state() == (PlayerStateView { deck: old(self).state().deck.push(card), ..old(self).state() }),
            final(self).sent() == old(self).sent().push(StsMessage::CardObtained(card)),
            r matches Err(e) ==> e == StsError::Disconnected,
            tallied(old(self).comms(), final(self).comms(), r is Err),
    {
        self.state.obtain_card(card);
        self.comms.send_card_obtained(card)
    }

    /// Offers the cards (at most one may be taken) and adds the chosen one to the deck.
    pub fn choose_card_to_obtain(&mut self, cards: &[Card]) -> (r: Result<(), StsError>)
        ensures
            final(self).state() == old(self).state()
                && asked_then(old(self).sent(), final(self).sent(), Prompt::ChooseOne, card_choices(cards@), Seq::empty())
                || exists|c: Card| cards@.contains(c)
                    && final(self).state() == (PlayerStateView { deck: old(self).state().deck.push(c), ..old(self).state() })
                    && asked_then(old(self).sent(), final(self).sent(), Prompt::ChooseOne, card_choices(cards@),
                        seq![StsMessage::CardObtained(c)]),
            r matches Err(e) ==> e == StsError::Disconnected || e == StsError::InvalidChoice,
            exchanges_added(old(self).comms(), final(self).comms()),
            final(self).comms().received() == old(self).comms().received()
                ==> r == Err::<(), StsError>(StsError::Disconnected) && final(self).state() == old(self).state(),
            final(self).comms().received() != old(self).comms().received() ==> final(self).comms().received()
                == old(self).comms().received().push(final(self).comms().received().last())
                && match card_answer(cards@, final(self).comms().received().last()) {
                    Ok(Some(c)) => final(self).state() == (PlayerStateView { deck: old(self).state().deck.push(c), ..old(self).state() })
                        && (r is Ok || r == Err::<(), StsError>(StsError::Disconnected)),
                    Ok(None) => final(self).state() == old(self).state() && r is Ok,
                    Err(e) => final(self).state() == old(self).state() && r == Err::<(), StsError>(e),
                },
    {
        let ghost s0 = self.comms.sent();
        let chosen = self.comms.choose_card_to_obtain(cards, true);
        let ghost s1 = self.comms.sent();
        proof {
            assert(self.comms.received().subrange(0, old(self).comms.received().len() as int) =~= old(self).comms.received());
            assert(old(self).comms.received().subrange(0, old(self).comms.received().len() as int) =~= old(self).comms.received());
        }
        proof {
            lemma_asked_then(s0, s1, Prompt::ChooseOne, card_choices(cards@), Seq::empty());
            assert(s1 + Seq::<StsMessage>::empty() =~= s1);
        }
        match chosen {
            Ok(Some(card)) => {
                let r = self.obtain_card(card);
                proof {
                    lemma_asked_then(s0, s1, Prompt::ChooseOne, card_choices(cards@), seq![StsMessage::CardObtained(card)]);
                    assert(s1 + seq![StsMessage::CardObtained(card)] =~= self.comms.sent());
                }
                r
            },
            Ok(None) => Ok(()),
            Err(e) => Err(e),
        }
    }

    /// Adds the relic and tells the client.
    pub fn obtain_relic(&mut self, relic: Relic) -> (r: Result<(), StsError>)
        ensures
            final(self).state() == (PlayerStateView { relics: old(self).state().relics.push(relic), ..old(self).state() }),
            final(self).sent() == old(self).sent().push(StsMessage::RelicObtained(relic)),
            r matches Err(e) ==> e == StsError::Disconnected,
            tallied(old(self).comms(), final(self).comms(), r is Err),
    {
        self.state.obtain_relic(relic);
        self.comms.send_relic_obtained(relic)
    }

    /// Asks the client to pick one of Neow's blessings.
    pub fn choose_neow_blessing(&mut self, blessings: &[NeowBlessing]) -> (r: Result<NeowBlessing, StsError>)
        ensures
            final(self).state() == old(self).state(),
            asked(old(self).sent(), final(self).sent(), Prompt::ChooseNeow,
                blessings@.map_values(|b: NeowBlessing| Choice::NeowBlessing(b))),
            r matches Ok(b) ==> blessings@.contains(b),
            r matches Err(e) ==> e == StsError::Disconnected || e == StsError::InvalidChoice,
            answered(old(self).comms(), final(self).comms(), r, |a: usize| blessing_answer(blessings@, a)),
    {
        self.comms.choose_neow_blessing(blessings)
    }

    /// Drinks a potion out of combat: a Blood Potion heals a fifth of the maximum hit points
    /// and a Fruit Juice raises the maximum by 5.
    fn consume_potion(&mut self, potion: Potion) -> (r: Result<(), StsError>)
        requires
            potion == Potion::BloodPotion || potion == Potion::FruitJuice,
        ensures
            potion == Potion::BloodPotion ==> final(self).state() == (PlayerStateView {
                hp: spec_min(spec_saturating_add(old(self).state().hp, old(self).state().hp_max / 5), old(self).state().hp_max),
                ..old(self).state()
            }),
            potion == Potion::FruitJuice ==> final(self).state() == (PlayerStateView {
                hp: spec_saturating_add(old(self).state().hp, 5),
                hp_max: spec_saturating_add(old(self).state().hp_max, 5),
                ..old(self).state()
            }),
            final(self).sent() == old(self).sent().push(StsMessage::Health((final(self).state().hp, final(self).state().hp_max))),
            r matches Err(e) ==> e == StsError::Disconnected,
            tallied(old(self).comms(), final(self).comms(), r is Err),
    {
        if potion == Potion::BloodPotion {
            let amount = self.hp_max() / 5;
            self.increase_hp(amount)
        } else {
            self.increase_hp_max(5)
        }
    }

    /// Lets the client climb into one of `climb_options`, using or discarding potions first
    /// as often as they like; answers the column chosen. Every potion action empties a slot,
    /// so this ends.
    pub fn climb_floor(&mut self, climb_options: &[ColumnIndex]) -> (r: Result<ColumnIndex, StsError>)
        requires
            forall|i: int| 0 <= i < old(self).state().potions.len() ==> old(self).state().potions[i] != Some(Potion::EntropicBrew),
        ensures
            r matches Ok(c) ==> climb_options@.contains(c),
            final(self).state().deck == old(self).state().deck,
            final(self).state().gold == old(self).state().gold,
            final(self).state().relics == old(self).state().relics,
            final(self).state().potions.len() == old(self).state().potions.len(),
            forall|i: int| 0 <= i < old(self).state().potions.len() ==> final(self).state().potions[i] == old(self).state().potions[i]
                || final(self).state().potions[i] is None,
            sent_more(old(self).sent(), final(self).sent()),
            asked(old(self).sent(), final(self).sent().subrange(0, old(self).sent().len() as int + 1),
                climb_prompt(old(self).state().potions), main_screen_choices(climb_options@,
                    map_potion_actions(old(self).state().potions, old(self).state().potions.len() as int))),
            r is Ok ==> asked(final(self).sent().drop_last(), final(self).sent(), climb_prompt(final(self).state().potions),
                main_screen_choices(climb_options@, map_potion_actions(final(self).state().potions, final(self).state().potions.len() as int))),
            r matches Err(e) ==> e == StsError::Disconnected || e == StsError::InvalidChoice,
            exchanges_added(old(self).comms(), final(self).comms()),
            (final(self).comms().hangups() > old(self).comms().hangups()) == (r == Err::<ColumnIndex, StsError>(StsError::Disconnected)),
            final(self).comms().hangups() == old(self).comms().hangups() ==> climb_rounds(old(self).state().potions,
                old(self).state().hp, old(self).state().hp_max, climb_options@, new_answers(old(self).comms(), final(self).comms()))
                == Some((final(self).state().potions, final(self).state().hp, final(self).state().hp_max, r)),
    {
        let ghost s0 = self.comms.sent();
        let ghost c0 = self.comms;
        let ghost init = self.state();
        proof {
            assert(c0.received().subrange(0, c0.received().len() as int) =~= c0.received());
            assert forall|rest: Seq<usize>| #[trigger] climb_rounds(init.potions, init.hp, init.hp_max, climb_options@, new_answers(c0, self.comms) + rest)
                == climb_rounds(self.state().potions, self.state().hp, self.state().hp_max, climb_options@, rest) by {
                assert(new_answers(c0, self.comms) + rest =~= rest);
            }
        }
        loop
            invariant
                c0 == old(self).comms,
                init == old(self).state(),
                self.comms.hangups() == c0.hangups(),
                exchanges_added(c0, self.comms),
                forall|rest: Seq<usize>| #[trigger] climb_rounds(init.potions, init.hp, init.hp_max, climb_options@, new_answers(c0, self.comms) + rest)
                    == climb_rounds(self.state().potions, self.state().hp, self.state().hp_max, climb_options@, rest),
                forall|i: int| 0 <= i < self.state().potions.len() ==> self.state().potions[i] != Some(Potion::EntropicBrew),
                self.state().deck == old(self).state().deck,
                self.state().gold == old(self).state().gold,
                self.state().relics == old(self).state().relics,
                self.state().potions.len() == old(self).state().potions.len(),
                forall|i: int| 0 <= i < old(self).state().potions.len() ==> self.state().potions[i] == old(self).state().potions[i]
                    || self.state().potions[i] is None,
                s0 == old(self).sent(),
                self.comms.sent().len() >= s0.len(),
                self.comms.sent().len() == s0.len() ==> self.comms.sent() == s0 && self.state().potions == old(self).state().potions,
                self.comms.sent().len() > s0.len() ==> sent_more(s0, self.comms.sent())
                    && asked(s0, self.comms.sent().subrange(0, s0.len() as int + 1), climb_prompt(old(self).state().potions),
                        main_screen_choices(climb_options@, map_potion_actions(old(self).state().potions, old(self).state().potions.len() as int))),
            decreases filled_slots(self.state().potions, self.state().potions.len() as int),
        {
            let current = self.state.potions();
            let slot_count = current.len();
            let potion_options = potion_actions_for(current);
            proof {
                assert(slot_count == self.state@.potions.len());
                lemma_map_potion_actions(self.state@.potions, self.state@.potions.len() as int);
            }
            let ghost before = self.state@;
            let ghost before_prompt = self.comms.sent();
            let ghost cb = self.comms;
            let chosen = self.comms.choose_main_screen_action(climb_options, potion_options.as_slice());
            proof {
                if self.comms.hangups() == cb.hangups() {
                    let a = self.comms.received().last();
                    assert(new_answers(c0, self.comms) =~= new_answers(c0, cb).push(a));
                    assert(self.comms.received().subrange(0, c0.received().len() as int) =~= c0.received());
                    lemma_climb_round(init.potions, init.hp, init.hp_max, climb_options@, new_answers(c0, cb), before.potions, before.hp, before.hp_max, a);
                }
                let after = self.comms.sent();
                if before_prompt.len() > s0.len() {
                    assert(after.subrange(0, s0.len() as int) =~= before_prompt.subrange(0, s0.len() as int));
                    assert(after.subrange(0, s0.len() as int + 1) =~= before_prompt.subrange(0, s0.len() as int + 1));
                } else {
                    assert(after.subrange(0, s0.len() as int) =~= s0);
                    assert(after.subrange(0, s0.len() as int + 1) =~= after);
                }
            }
            let action = match chosen {
                Ok(a) => a,
                Err(e) => { return Err(e); },
            };
            match action {
                MainScreenAction::ClimbFloor(index) => {
                    return Ok(index);
                },
                MainScreenAction::Potion(PotionAction::Discard(index, p)) => {
                    proof {
                        let k = choose|k: int| 0 <= k < potion_options@.len() && potion_options@[k] == PotionAction::Discard(index, p);
                        assert(potion_options@[k] == map_potion_actions(before.potions, before.potions.len() as int)[k]);
                        lemma_emptying_a_slot(before.potions, index as int, before.potions.len() as int);
                    }
                    self.state.discard_potion(index);
                    let ghost before_send = self.comms.sent();
                    let told = self.comms.send_potions(self.state.potions());
                    proof {
                        let after = self.comms.sent();
                        assert(after.subrange(0, s0.len() as int) =~= before_send.subrange(0, s0.len() as int));
                        assert(after.subrange(0, s0.len() as int + 1) =~= before_send.subrange(0, s0.len() as int + 1));
                    }
                    match told {
                        Ok(()) => {},
                        Err(e) => { return Err(e); },
                    }
                },
                MainScreenAction::Potion(PotionAction::Drink(index, potion)) => {
                    proof {
                        let k = choose|k: int| 0 <= k < potion_options@.len() && potion_options@[k] == PotionAction::Drink(index, potion);
                        assert(potion_options@[k] == map_potion_actions(before.potions, before.potions.len() as int)[k]);
                        lemma_emptying_a_slot(before.potions, index as int, before.potions.len() as int);
                    }
                    self.state.discard_potion(index);
                    let ghost before_send = self.comms.sent();
                    let told = self.comms.send_potions(self.state.potions());
                    proof {
                        let after = self.comms.sent();
                        assert(after.subrange(0, s0.len() as int) =~= before_send.subrange(0, s0.len() as int));
                        assert(after.subrange(0, s0.len() as int + 1) =~= before_send.subrange(0, s0.len() as int + 1));
                    }
                    match told {
                        Ok(()) => {},
                        Err(e) => { return Err(e); },
                    }
                    let ghost before_drink = self.comms.sent();
                    let drunk = self.consume_potion(potion);
                    proof {
                        let after = self.comms.sent();
                        assert(after.subrange(0, s0.len() as int) =~= before_drink.subrange(0, s0.len() as int));
                        assert(after.subrange(0, s0.len() as int + 1) =~= before_drink.subrange(0, s0.len() as int + 1));
                    }
                    match drunk {
                        Ok(()) => {},
                        Err(e) => { return Err(e); },
                    }
                },
            }
        }
    }

    /// Offers `potions` while a slot is free, potions remain and fewer than `choice_count`
    /// were taken; each potion taken fills the first empty slot and leaves the offer.
    pub fn choose_potions_to_obtain(&mut self, potions: &[Potion], choice_count: usize) -> (r: Result<(), StsError>)
        ensures
            final(self).state().deck == old(self).state().deck,
            final(self).state().gold == old(self).state().gold,
            final(self).state().hp == old(self).state().hp,
            final(self).state().hp_max == old(self).state().hp_max,
            final(self).state().relics == old(self).state().relics,
            final(self).state().potions.len() == old(self).state().potions.len(),
            forall|i: int| 0 <= i < old(self).state().potions.len() && old(self).state().potions[i] is Some
                ==> final(self).state().potions[i] == old(self).state().potions[i],
            forall|i: int| 0 <= i < old(self).state().potions.len() && old(self).state().potions[i] is None
                && final(self).state().potions[i] is Some ==> potions@.contains(final(self).state().potions[i]->0),
            has_empty_slot(old(self).state().potions) && potions@.len() > 0 && choice_count > 0 ==> sent_more(old(self).sent(), final(self).sent())
                && asked(old(self).sent(), final(self).sent().subrange(0, old(self).sent().len() as int + 1),
                    obtain_prompt(choice_count == 1), potion_choices(potions@)),
            !(has_empty_slot(old(self).state().potions) && potions@.len() > 0 && choice_count > 0) ==> r is Ok
                && final(self).state() == old(self).state() && final(self).sent() == old(self).sent(),
            r matches Err(e) ==> e == StsError::Disconnected || e == StsError::InvalidChoice,
            exchanges_added(old(self).comms(), final(self).comms()),
            (final(self).comms().hangups() > old(self).comms().hangups()) == (r == Err::<(), StsError>(StsError::Disconnected)),
            final(self).comms().hangups() == old(self).comms().hangups() ==> counted_rounds(old(self).state().potions, potions@,
                choice_count as nat, new_answers(old(self).comms(), final(self).comms())) == Some((final(self).state().potions, r)),
    {
        let ghost offer = potions@;
        let ghost s0 = self.comms.sent();
        let ghost count0 = choice_count;
        let ghost c0 = self.comms;
        let ghost init_held = self.state().potions;
        let mut potion_vec = super::message::slice_to_vec(potions);
        let mut left = choice_count;
        proof {
            assert(c0.received().subrange(0, c0.received().len() as int) =~= c0.received());
            assert forall|rest: Seq<usize>| #[trigger] counted_rounds(init_held, offer, count0 as nat, new_answers(c0, self.comms) + rest)
                == counted_rounds(self.state().potions, potion_vec@, left as nat, rest) by {
                assert(new_answers(c0, self.comms) + rest =~= rest);
            }
            assert(new_answers(c0, self.comms) + Seq::<usize>::empty() =~= new_answers(c0, self.comms));
        }
        while self.state.has_potion_slot_available() && potion_vec.len() > 0 && left > 0
            invariant_except_break
                forall|rest: Seq<usize>| #[trigger] counted_rounds(init_held, offer, count0 as nat, new_answers(c0, self.comms) + rest)
                    == counted_rounds(self.state().potions, potion_vec@, left as nat, rest),
                counted_rounds(init_held, offer, count0 as nat, new_answers(c0, self.comms))
                    == counted_rounds(self.state().potions, potion_vec@, left as nat, Seq::<usize>::empty()),
            invariant
                c0 == old(self).comms,
                init_held == old(self).state().potions,
                self.comms.hangups() == c0.hangups(),
                exchanges_added(c0, self.comms),
                self.comms.sent().len() == s0.len() ==> self.state() == old(self).state()
                    && self.comms.sent() == s0 && potion_vec@ == offer && left == count0,
                self.comms.sent().len() > s0.len() ==> sent_more(s0, self.comms.sent())
                    && has_empty_slot(old(self).state().potions) && offer.len() > 0 && count0 > 0
                    && asked(s0, self.comms.sent().subrange(0, s0.len() as int + 1), obtain_prompt(count0 == 1), potion_choices(offer)),
                self.comms.sent().len() >= s0.len(),
                s0 == old(self).sent(),
                offer == potions@,
                count0 == choice_count,
                forall|k: int| 0 <= k < potion_vec@.len() ==> offer.contains(#[trigger] potion_vec@[k]),
                forall|i: int| 0 <= i < old(self).state().potions.len() && old(self).state().potions[i] is Some
                    ==> self.state().potions[i] == old(self).state().potions[i],
                forall|i: int| 0 <= i < old(self).state().potions.len() && old(self).state().potions[i] is None
                    && self.state().potions[i] is Some ==> offer.contains(self.state().potions[i]->0),
                self.state().deck == old(self).state().deck,
                self.state().gold == old(self).state().gold,
                self.state().hp == old(self).state().hp,
                self.state().hp_max == old(self).state().hp_max,
                self.state().relics == old(self).state().relics,
                self.state().potions.len() == old(self).state().potions.len(),
            ensures
                self.comms.sent().len() == s0.len() ==> !(has_empty_slot(old(self).state().potions) && offer.len() > 0 && count0 > 0),
                counted_rounds(init_held, offer, count0 as nat, new_answers(c0, self.comms)) == Some((self.state().potions, Ok::<(), StsError>(()))),
            decreases left,
        {
            let ghost before_prompt = self.comms.sent();
            let ghost cb = self.comms;
            let ghost cur_held = self.state().potions;
            let ghost cur_rem = potion_vec@;
            let ghost cur_left = left as nat;
            let chosen = self.comms.choose_potion_to_obtain(potion_vec.as_slice(), left == 1);
            proof {
                if self.comms.hangups() == cb.hangups() {
                    let a = self.comms.received().last();
                    assert(new_answers(c0, self.comms) =~= new_answers(c0, cb).push(a));
                    assert(self.comms.received().subrange(0, c0.received().len() as int) =~= c0.received());
                    if a >= cur_rem.len() {
                        lemma_counted_last_round(init_held, offer, count0 as nat, new_answers(c0, cb), cur_held, cur_rem, cur_left, a);
                    } else {
                        lemma_counted_round(init_held, offer, count0 as nat, new_answers(c0, cb), cur_held, cur_rem, cur_left, a);
                    }
                }
                let after = self.comms.sent();
                assert(after.subrange(0, s0.len() as int) =~= s0) by {
                    if before_prompt.len() > s0.len() {
                        assert(after.subrange(0, s0.len() as int) =~= before_prompt.subrange(0, s0.len() as int));
                    }
                }
                if before_prompt.len() > s0.len() {
                    assert(after.subrange(0, s0.len() as int + 1) =~= before_prompt.subrange(0, s0.len() as int + 1));
                } else {
                    assert(after.subrange(0, s0.len() as int + 1) =~= after);
                }
            }
            let chosen = match chosen {
                Ok(c) => c,
                Err(e) => { return Err(e); },
            };
            match chosen {
                Some(potion) => {
                    let ghost before = self.state@.potions;
                    proof {
                        lemma_first_empty_slot(before, 0);
                        assert(offer.contains(potion));
                    }
                    self.state.obtain_potion(potion);
                    let ghost before_send = self.comms.sent();
                    let told = self.comms.send_potions(self.state.potions());
                    proof {
                        let after = self.comms.sent();
                        assert(after.subrange(0, s0.len() as int) =~= before_send.subrange(0, s0.len() as int));
                        assert(after.subrange(0, s0.len() as int + 1) =~= before_send.subrange(0, s0.len() as int + 1));
                    }
                    match told {
                        Ok(()) => {},
                        Err(e) => { return Err(e); },
                    }
                    let potion_index = position_of(&potion_vec, potion);
                    proof {
                        lemma_index_from(potion_vec@, potion, 0, potion_index as int);
                    }
                    let ghost before_remove = potion_vec@;
                    potion_vec.remove(potion_index);
                    proof {
                        assert forall|k: int| 0 <= k < potion_vec@.len() implies offer.contains(#[trigger] potion_vec@[k]) by {
                            if k < potion_index {
                                assert(potion_vec@[k] == before_remove[k]);
                            } else {
                                assert(potion_vec@[k] == before_remove[k + 1]);
                            }
                        }
                    }
                    left = left - 1;
                    proof {
                        assert(new_answers(c0, self.comms) + Seq::<usize>::empty() =~= new_answers(c0, self.comms));
                        assert(counted_rounds(init_held, offer, count0 as nat, new_answers(c0, self.comms) + Seq::<usize>::empty())
                            == counted_rounds(self.state().potions, potion_vec@, left as nat, Seq::<usize>::empty()));
                    }
                },
                None => {
                    break;
                },
            }
        }
        Ok(())
    }

    /// Lets the client pick a card of the deck to remove, removes it and tells the client.
    pub fn choose_card_to_remove(&mut self) -> (r: Result<(), StsError>)
        ensures
            final(self).state() == old(self).state()
                && asked_then(old(self).sent(), final(self).sent(), Prompt::RemoveCard, removal_choices(old(self).state().deck), Seq::empty())
                || exists|i: int| 0 <= i < old(self).state().deck.len()
                    && final(self).state() == (PlayerStateView { deck: #[trigger] old(self).state().deck.remove(i), ..old(self).state() })
                    && told_removed(old(self).sent(), final(self).sent(), old(self).state().deck, i)
                    && (r is Ok ==> final(self).sent().len() == old(self).sent().len() + 3),
            r matches Err(e) ==> e == StsError::Disconnected || e == StsError::InvalidChoice,
            exchanges_added(old(self).comms(), final(self).comms()),
            final(self).comms().received() == old(self).comms().received()
                ==> r == Err::<(), StsError>(StsError::Disconnected) && final(self).state() == old(self).state(),
            final(self).comms().received() != old(self).comms().received() ==> final(self).comms().received()
                == old(self).comms().received().push(final(self).comms().received().last())
                && match removal_answer(old(self).state().deck, final(self).comms().received().last()) {
                    Ok(i) => final(self).state() == (PlayerStateView { deck: old(self).state().deck.remove(i as int), ..old(self).state() })
                        && (r is Ok || r == Err::<(), StsError>(StsError::Disconnected)),
                    Err(e) => final(self).state() == old(self).state() && r == Err::<(), StsError>(e),
                },
    {
        let ghost s0 = self.comms.sent();
        let ghost deck0 = self.state@.deck;
        let chosen = self.comms.choose_card_to_remove(self.state.deck());
        let ghost s1 = self.comms.sent();
        proof {
            assert(self.comms.received().subrange(0, old(self).comms.received().len() as int) =~= old(self).comms.received());
            assert(old(self).comms.received().subrange(0, old(self).comms.received().len() as int) =~= old(self).comms.received());
        }
        let deck_index = match chosen {
            Ok(i) => i,
            Err(e) => {
                proof {
                    lemma_asked_then(s0, s1, Prompt::RemoveCard, removal_choices(deck0), Seq::empty());
                    assert(s1 + Seq::<StsMessage>::empty() =~= s1);
                }
                return Err(e);
            },
        };
        let card = self.state.remove_card(deck_index);
        let sent = self.comms.send_card_removed(card);
        proof {
            let s2 = self.comms.sent();
            assert(s2.subrange(0, s0.len() as int + 1) =~= s1);
            assert(s2.subrange(s0.len() as int + 1, s2.len() as int)[0] == s2[s0.len() as int + 1]);
        }
        match sent {
            Err(e) => { return Err(e); },
            Ok(()) => {},
        }
        let ghost s2 = self.comms.sent();
        let r = self.comms.send_deck(self.state.deck());
        proof {
            let s3 = self.comms.sent();
            assert(s3.subrange(0, s0.len() as int + 1) =~= s1);
            assert(s3.subrange(s0.len() as int + 1, s3.len() as int)[0] == s3[s0.len() as int + 1]);
            assert(s3.subrange(s0.len() as int + 1, s3.len() as int)[1] == s3[s0.len() as int + 2]);
        }
        r
    }

    /// Starts a combat: the deck is shuffled into a draw pile with one draw of `shuffle_rng`.
    pub fn start_combat(self, shuffle_rng: StsRandom) -> (r: CombatController)
        requires
            self.state().deck.len() <= 0x8000_0000,
        ensures
            r.state() == self.state(),
            r.sent() == self.sent(),
            r.combat().energy == 3,
            r.combat().block == 0,
            r.combat().hand@.len() == 0,
            r.combat().draw_pile@.to_multiset() == self.state().deck.to_multiset(),
            r.card_just_played() is None,
    {
        let PlayerController { state, comms } = self;
        CombatController::new(shuffle_rng, state, comms)
    }
}

/// The piles after drawing one card: the top of the draw pile goes to the hand; when the draw
/// pile is empty, the discard pile is shuffled (one draw of the shuffle generator) and becomes
/// the draw pile first. Nothing is drawn when both are empty.
pub open spec fn draw_one(piles: (Seq<Card>, Seq<Card>, Seq<Card>, RngState)) -> (Seq<Card>, Seq<Card>, Seq<Card>, RngState) {
    let (hand, draw, discard, rng) = piles;
    if draw.len() > 0 {
        (hand.push(draw.last()), draw.drop_last(), discard, rng)
    } else {
        let (next_rng, raw) = rng_step(rng);
        let shuffled = java_shuffle(discard, java_initial_scramble(raw), discard.len()).0;
        if shuffled.len() > 0 {
            (hand.push(shuffled.last()), shuffled.drop_last(), Seq::empty(), next_rng)
        } else {
            (hand, shuffled, Seq::empty(), next_rng)
        }
    }
}

/// What the client is told when one card is drawn into `hand_index`: the shuffle of the
/// discard pile into the draw pile when the draw pile is empty, then the card drawn, if any.
pub open spec fn draw_one_messages(piles: (Seq<Card>, Seq<Card>, Seq<Card>, RngState), hand_index: HandIndex) -> Seq<StsMessage> {
    let after = draw_one(piles);
    if piles.1.len() > 0 {
        seq![StsMessage::CardDrawn(hand_index, piles.1.last())]
    } else if after.0.len() > piles.0.len() {
        seq![StsMessage::ShufflingDiscardToDraw, StsMessage::CardDrawn(hand_index, after.0.last())]
    } else {
        seq![StsMessage::ShufflingDiscardToDraw]
    }
}

/// What the client is told when `n` cards are drawn one by one, the `k`-th into hand index `k`.
pub open spec fn draw_many_messages(piles: (Seq<Card>, Seq<Card>, Seq<Card>, RngState), n: nat) -> Seq<StsMessage>
    decreases n,
{
    if n == 0 {
        Seq::empty()
    } else {
        draw_many_messages(piles, (n - 1) as nat) + draw_one_messages(draw_many(piles, (n - 1) as nat), (n - 1) as usize)
    }
}

/// The messages of fewer draws come first among those of more draws.
pub proof fn lemma_draw_many_messages_prefix(piles: (Seq<Card>, Seq<Card>, Seq<Card>, RngState), j: nat, n: nat)
    requires
        j <= n,
    ensures
        draw_many_messages(piles, j).len() + (n - j) <= draw_many_messages(piles, n).len(),
        draw_many_messages(piles, n).take(draw_many_messages(piles, j).len() as int) == draw_many_messages(piles, j),
    decreases n,
{
    if j < n {
        lemma_draw_many_messages_prefix(piles, j, (n - 1) as nat);
        let a = draw_many_messages(piles, (n - 1) as nat);
        let b = draw_one_messages(draw_many(piles, (n - 1) as nat), (n - 1) as usize);
        assert((a + b).take(draw_many_messages(piles, j).len() as int) =~= a.take(draw_many_messages(piles, j).len() as int));
    } else {
        assert(draw_many_messages(piles, n).take(draw_many_messages(piles, n).len() as int) =~= draw_many_messages(piles, n));
    }
}

/// The piles after drawing `n` cards one by one.
pub open spec fn draw_many(piles: (Seq<Card>, Seq<Card>, Seq<Card>, RngState), n: nat) -> (Seq<Card>, Seq<Card>, Seq<Card>, RngState)
    decreases n,
{
    if n == 0 {
        piles
    } else {
        draw_one(draw_many(piles, (n - 1) as nat))
    }
}

/// Drawing never creates or loses cards: the hand, draw and discard piles hold the same cards
/// between them before and after.
pub proof fn law_drawing_keeps_cards(piles: (Seq<Card>, Seq<Card>, Seq<Card>, RngState), n: nat)
    requires
        piles.2.len() <= 0x8000_0000,
    ensures
        ({
            let after = draw_many(piles, n);
            (after.0 + after.1 + after.2).to_multiset() == (piles.0 + piles.1 + piles.2).to_multiset()
        }),
        draw_many(piles, n).2.len() <= piles.2.len(),
    decreases n,
{
    broadcast use vstd::seq_lib::group_to_multiset_ensures;
    if n > 0 {
        law_drawing_keeps_cards(piles, (n - 1) as nat);
        let p = draw_many(piles, (n - 1) as nat);
        let (hand, draw, discard, rng) = p;
        vstd::seq_lib::lemma_multiset_commutative(hand + draw, discard);
        vstd::seq_lib::lemma_multiset_commutative(hand, draw);
        if draw.len() > 0 {
            let h2 = hand.push(draw.last());
            let d2 = draw.drop_last();
            vstd::seq_lib::lemma_multiset_commutative(h2 + d2, discard);
            vstd::seq_lib::lemma_multiset_commutative(h2, d2);
            assert(draw == d2.push(draw.last()));
            assert((h2 + d2 + discard).to_multiset() =~= (hand + draw + discard).to_multiset());
        } else {
            let (next_rng, raw) = rng_step(rng);
            crate::rng::java::lemma_java_shuffle_keeps_multiset(discard, java_initial_scramble(raw), discard.len());
            let shuffled = java_shuffle(discard, java_initial_scramble(raw), discard.len()).0;
            let empty = Seq::<Card>::empty();
            if shuffled.len() > 0 {
                let h2 = hand.push(shuffled.last());
                let d2 = shuffled.drop_last();
                vstd::seq_lib::lemma_multiset_commutative(h2 + d2, empty);
                vstd::seq_lib::lemma_multiset_commutative(h2, d2);
                assert(shuffled == d2.push(shuffled.last()));
                assert(draw =~= empty);
                assert((h2 + d2 + empty).to_multiset() =~= (hand + draw + discard).to_multiset());
            } else {
                vstd::seq_lib::lemma_multiset_commutative(hand + shuffled, empty);
                vstd::seq_lib::lemma_multiset_commutative(hand, shuffled);
                assert(draw =~= empty);
                assert((hand + shuffled + empty).to_multiset() =~= (hand + draw + discard).to_multiset());
            }
        }
    }
}

/// The cards among the first `n` of the hand that the energy pays for, with their hand indices.
pub open spec fn playable_in(hand: Seq<Card>, energy: u32, n: int) -> Seq<(HandIndex, Card)>
    decreases n,
{
    if n <= 0 {
        Seq::empty()
    } else {
        let before = playable_in(hand, energy, n - 1);
        if spec_cost(hand[n - 1]) <= energy {
            before.push(((n - 1) as usize, hand[n - 1]))
        } else {
            before
        }
    }
}

/// What choosing the next action in combat gives for the answers read: the answer to the
/// combat question over the affordable cards picks a card (which becomes the card just played)
/// or ends the turn; a card that needs a target takes a second answer, to the target question;
/// an answer that names no option gives `InvalidChoice`.
pub open spec fn next_action_outcome(
    hand: Seq<Card>,
    energy: u32,
    enemies: Seq<Option<EnemyStatus>>,
    answers: Seq<usize>,
    played: Option<HandIndex>,
    r: Result<CombatAction, StsError>,
) -> bool {
    &&& answers.len() >= 1
    &&& match play_answer(playable_in(hand, energy, hand.len() as int), answers[0]) {
        Err(e) => answers.len() == 1 && r == Err::<CombatAction, StsError>(e),
        Ok(None) => answers.len() == 1 && r matches Ok(CombatAction::EndTurn),
        Ok(Some(i)) => {
            &&& played == Some(i)
            &&& i < hand.len()
            &&& if spec_card_details(hand[i as int]).2 == Target::OneEnemy {
                &&& answers.len() == 2
                &&& match target_answer(enemies, answers[1]) {
                    Err(e) => r == Err::<CombatAction, StsError>(e),
                    Ok(t) => r matches Ok(CombatAction::PlayCardAgainstEnemy(c, d, e)) && c == hand[i as int] && e == t
                        && (d.cost, d.effects@, d.target) == spec_card_details(c),
                }
            } else {
                &&& answers.len() == 1
                &&& r matches Ok(CombatAction::PlayCard(c, d)) && c == hand[i as int]
                    && (d.cost, d.effects@, d.target) == spec_card_details(c)
            }
        },
    }
}

/// What the client is told when the player, with `block` block and `hp` of `hp_max` hit points,
/// takes `amount` of damage: what was blocked, the block lost and the new block, then the
/// damage that got through and the new health.
pub open spec fn damage_messages(block: Block, hp: Hp, hp_max: HpMax, amount: AttackDamage) -> Seq<StsMessage> {
    if amount <= block {
        seq![StsMessage::DamageBlocked(amount), StsMessage::BlockLost(amount), StsMessage::Block((block - amount) as u32)]
    } else if block > 0 {
        let rest = (amount - block) as u32;
        seq![
            StsMessage::DamageBlocked(amount),
            StsMessage::BlockLost(block),
            StsMessage::Block(0),
            StsMessage::DamageTaken(rest),
            StsMessage::Health((spec_saturating_sub(hp, rest), hp_max)),
        ]
    } else {
        seq![StsMessage::DamageTaken(amount), StsMessage::Health((spec_saturating_sub(hp, amount), hp_max))]
    }
}

/// The debuffs after one turn: every stack count goes down by one and those at zero are
/// dropped.
pub open spec fn tick_debuffs(debuffs: Seq<(Debuff, StackCount)>) -> Seq<(Debuff, StackCount)> {
    debuffs.map_values(|d: (Debuff, StackCount)| (d.0, spec_saturating_sub(d.1, 1))).filter(
        |d: (Debuff, StackCount)| d.1 > 0,
    )
}

/// The debuffs after applying `stacks` of `debuff`: added to the first entry for it, or
/// appended when there is none.
pub open spec fn add_debuff(debuffs: Seq<(Debuff, StackCount)>, debuff: Debuff, stacks: StackCount) -> Seq<(Debuff, StackCount)> {
    if exists|i: int| 0 <= i < debuffs.len() && debuffs[i].0 == debuff {
        let i = choose|i: int| 0 <= i < debuffs.len() && debuffs[i].0 == debuff
            && forall|k: int| 0 <= k < i ==> debuffs[k].0 != debuff;
        debuffs.update(i, (debuff, (debuffs[i].1 + stacks) as StackCount))
    } else {
        debuffs.push((debuff, stacks))
    }
}

/// What the client is told when a turn starts: the five cards drawn, then the new block
/// when there was some.
pub open spec fn start_turn_messages(combat: CombatState) -> Seq<StsMessage> {
    draw_many_messages((combat.hand@, combat.draw_pile@, combat.discard_pile@, combat.shuffle_rng@), 5)
        + if combat.block > 0 { seq![StsMessage::Block(0)] } else { Seq::empty() }
}

/// The index of the first entry for `debuff`, if there is one.
fn debuff_position(debuffs: &Vec<(Debuff, StackCount)>, debuff: Debuff) -> (r: Option<usize>)
    ensures
        r matches Some(i) ==> i < debuffs@.len() && debuffs@[i as int].0 == debuff
            && forall|k: int| 0 <= k < i ==> debuffs@[k].0 != debuff,
        r is None ==> forall|k: int| 0 <= k < debuffs@.len() ==> debuffs@[k].0 != debuff,
{
    let mut i: usize = 0;
    while i < debuffs.len()
        invariant
            i <= debuffs@.len(),
            forall|k: int| 0 <= k < i ==> debuffs@[k].0 != debuff,
        decreases debuffs@.len() - i,
    {
        if debuffs[i].0 == debuff {
            return Some(i);
        }
        i = i + 1;
    }
    None
}

impl CombatController {
    /// The player's persistent state.
    pub closed spec fn state(&self) -> PlayerStateView {
        self.state@
    }

    /// The messages sent to the client so far.
    pub closed spec fn sent(&self) -> Seq<StsMessage> {
        self.comms.sent()
    }

    /// The combat state.
    pub closed spec fn combat(&self) -> CombatState {
        self.combat_state
    }

    /// The hand index of the card being played, if any.
    pub closed spec fn card_just_played(&self) -> Option<HandIndex> {
        self.card_just_played
    }

    /// The channels to the client, with what was sent and read.
    pub closed spec fn comms(&self) -> Comms {
        self.comms
    }

    /// Starts a combat for `state`: its deck shuffled into the draw pile.
    pub fn new(shuffle_rng: StsRandom, state: PlayerState, comms: Comms) -> (r: CombatController)
        requires
            state@.deck.len() <= 0x8000_0000,
        ensures
            r.state() == state@,
            r.sent() == comms.sent(),
            r.combat().energy == 3,
            r.combat().block == 0,
            r.combat().hand@.len() == 0,
            r.combat().discard_pile@.len() == 0,
            r.combat().debuffs@.len() == 0,
            r.combat().draw_pile@.to_multiset() == state@.deck.to_multiset(),
            r.combat().shuffle_rng@ == rng_step(shuffle_rng@).0,
            r.card_just_played() is None,
    {
        let combat_state = CombatState::new(state.deck(), shuffle_rng);
        CombatController { combat_state, card_just_played: None, state, comms }
    }

    pub fn hp(&self) -> (r: Hp)
        ensures
            r == self.state().hp,
    {
        self.state.hp()
    }

    /// Tells the client a combat starts.
    pub fn start_combat(&mut self) -> (r: Result<(), StsError>)
        ensures
            final(self).state() == old(self).state(),
            final(self).combat() == old(self).combat(),
            final(self).sent() == old(self).sent().push(StsMessage::StartingCombat),
            tallied(old(self).comms(), final(self).comms(), r is Err),
    {
        self.comms.send_starting_combat()
    }

    /// Ends the combat and hands the player back, with the result of telling the client.
    pub fn end_combat(self) -> (r: (PlayerController, Result<(), StsError>))
        ensures
            r.0.state() == self.state(),
            r.0.sent() == self.sent().push(StsMessage::EndingCombat),
    {
        let CombatController { combat_state: _, card_just_played: _, state, mut comms } = self;
        let sent = comms.send_ending_combat();
        (PlayerController { state, comms }, sent)
    }

    /// Starts the player's turn: energy back to 3, five cards drawn, block back to 0.
    pub fn start_turn(&mut self) -> (r: Result<(), StsError>)
        requires
            old(self).combat().discard_pile@.len() <= 0x8000_0000,
        ensures
            final(self).state() == old(self).state(),
            final(self).combat().energy == 3,
            r is Ok ==> final(self).combat().block == 0
                && (final(self).combat().hand@, final(self).combat().draw_pile@, final(self).combat().discard_pile@,
                    final(self).combat().shuffle_rng@) == draw_many(
                        (old(self).combat().hand@, old(self).combat().draw_pile@, old(self).combat().discard_pile@,
                            old(self).combat().shuffle_rng@), 5),
            r is Ok ==> final(self).sent() == old(self).sent() + start_turn_messages(old(self).combat()),
            r matches Err(e) ==> e == StsError::Disconnected
                && sent_part(old(self).sent(), final(self).sent(), start_turn_messages(old(self).combat())),
            tallied(old(self).comms(), final(self).comms(), r is Err),
    {
        let ghost s0 = self.comms.sent();
        let ghost msgs = start_turn_messages(self.combat_state);
        let ghost start = (self.combat_state.hand@, self.combat_state.draw_pile@, self.combat_state.discard_pile@,
            self.combat_state.shuffle_rng@);
        self.combat_state.energy = 3;
        let drawn = self.draw_cards();
        match drawn {
            Ok(()) => {},
            Err(e) => {
                proof {
                    lemma_sent_part_longer(s0, self.comms.sent(), draw_many_messages(start, 5),
                        if self.combat_state.block > 0 { seq![StsMessage::Block(0)] } else { Seq::empty() });
                }
                return Err(e);
            },
        }
        if self.combat_state.block > 0 {
            self.combat_state.block = 0;
            let r = self.comms.send_block(0);
            proof {
                assert(self.comms.sent() =~= s0 + msgs.take(msgs.len() as int));
                assert(msgs.take(msgs.len() as int) =~= msgs);
                lemma_draw_many_messages_prefix(start, 0, 5);
                lemma_sent_part(s0, msgs, msgs.len() as int);
            }
            match r {
                Ok(()) => {},
                Err(e) => { return Err(e); },
            }
        } else {
            assert(msgs =~= draw_many_messages(start, 5));
        }
        Ok(())
    }

    /// Ends the player's turn: the hand is discarded and debuffs tick down.
    pub fn end_turn(&mut self) -> (r: Result<(), StsError>)
        ensures
            final(self).state() == old(self).state(),
            final(self).combat().hand@.len() == 0,
            final(self).combat().discard_pile@ == old(self).combat().discard_pile@ + old(self).combat().hand@.reverse(),
            final(self).combat().debuffs@ == tick_debuffs(old(self).combat().debuffs@)
                || r is Err && final(self).combat().debuffs@ == old(self).combat().debuffs@,
            r is Ok ==> final(self).combat().debuffs@ == tick_debuffs(old(self).combat().debuffs@),
            sent_more(old(self).sent(), final(self).sent()),
            final(self).sent()[old(self).sent().len() as int] == StsMessage::HandDiscarded,
            final(self).sent().len() <= old(self).sent().len() + 2,
            final(self).sent().len() == old(self).sent().len() + 2 ==> (final(self).sent().last() matches StsMessage::Debuffs(v)
                && v@ == tick_debuffs(old(self).combat().debuffs@)),
            r is Ok ==> final(self).sent().len() == old(self).sent().len() + 2,
            r matches Err(e) ==> e == StsError::Disconnected,
            tallied(old(self).comms(), final(self).comms(), r is Err),
    {
        let ghost s0 = self.comms.sent();
        let discarded = self.discard_hand();
        assert(self.comms.sent().subrange(0, s0.len() as int) =~= s0);
        match discarded {
            Ok(()) => {},
            Err(e) => { return Err(e); },
        }
        let mut ticked: Vec<(Debuff, StackCount)> = Vec::new();
        let mut i: usize = 0;
        let ghost start = self.combat_state.debuffs@;
        while i < self.combat_state.debuffs.len()
            invariant
                i <= self.combat_state.debuffs@.len(),
                self.combat_state.debuffs@ == start,
                ticked@ == start.subrange(0, i as int).map_values(|d: (Debuff, StackCount)| (d.0, spec_saturating_sub(d.1, 1))).filter(
                    |d: (Debuff, StackCount)| d.1 > 0),
            decreases self.combat_state.debuffs@.len() - i,
        {
            let (d, stacks) = self.combat_state.debuffs[i];
            let left = stacks.saturating_sub(1);
            proof {
                let s = start.subrange(0, i as int + 1).map_values(|d: (Debuff, StackCount)| (d.0, spec_saturating_sub(d.1, 1)));
                assert(s.drop_last() =~= start.subrange(0, i as int).map_values(|d: (Debuff, StackCount)| (d.0, spec_saturating_sub(d.1, 1))));
                assert(s.last() == (d, left));
                reveal_with_fuel(Seq::filter, 1);
            }
            if left > 0 {
                ticked.push((d, left));
            }
            i = i + 1;
        }
        assert(start.subrange(0, start.len() as int) == start);
        self.combat_state.debuffs = ticked;
        let ghost s1 = self.comms.sent();
        let r = self.comms.send_debuffs(self.combat_state.debuffs.as_slice());
        proof {
            let s2 = self.comms.sent();
            assert(s2.drop_last() == s1);
            assert(s2.subrange(0, s0.len() as int) =~= s0);
            assert(s2[s0.len() as int] == s1[s0.len() as int]);
        }
        r
    }

    /// Blocks what it can of `amount`, loses the rest in hit points, and tells the client.
    pub fn take_damage(&mut self, amount: AttackDamage) -> (r: Result<(), StsError>)
        ensures
            final(self).combat() == (CombatState { block: final(self).combat().block, ..old(self).combat() }),
            final(self).card_just_played() == old(self).card_just_played(),
            r is Ok ==> final(self).combat().block == spec_saturating_sub(old(self).combat().block, amount),
            r is Ok ==> final(self).state() == (PlayerStateView {
                hp: spec_saturating_sub(old(self).state().hp, spec_saturating_sub(amount, old(self).combat().block)),
                ..old(self).state()
            }),
            r is Ok ==> final(self).sent() == old(self).sent() + damage_messages(old(self).combat().block, old(self).state().hp,
                old(self).state().hp_max, amount),
            r matches Err(e) ==> e == StsError::Disconnected && sent_part(old(self).sent(), final(self).sent(),
                damage_messages(old(self).combat().block, old(self).state().hp, old(self).state().hp_max, amount)),
            final(self).combat().block == old(self).combat().block
                || final(self).combat().block == spec_saturating_sub(old(self).combat().block, amount),
            final(self).state() == old(self).state() || final(self).state() == (PlayerStateView {
                hp: spec_saturating_sub(old(self).state().hp, spec_saturating_sub(amount, old(self).combat().block)),
                ..old(self).state()
            }),
            tallied(old(self).comms(), final(self).comms(), r is Err),
    {
        let ghost s0 = self.comms.sent();
        let ghost msgs = damage_messages(self.combat_state.block, self.state@.hp, self.state@.hp_max, amount);
        if amount <= self.combat_state.block {
            self.combat_state.block = self.combat_state.block - amount;
            let r1 = self.comms.send_damage_blocked(amount);
            if r1.is_err() {
                proof { assert(self.comms.sent() =~= s0 + msgs.take(1)); lemma_sent_part(s0, msgs, 1); }
                return r1;
            }
            let r2 = self.comms.send_block_lost(amount);
            if r2.is_err() {
                proof { assert(self.comms.sent() =~= s0 + msgs.take(2)); lemma_sent_part(s0, msgs, 2); }
                return r2;
            }
            let r3 = self.comms.send_block(self.combat_state.block);
            proof { assert(self.comms.sent() =~= s0 + msgs.take(3)); assert(msgs.take(3) =~= msgs); lemma_sent_part(s0, msgs, 3); }
            r3
        } else if self.combat_state.block > 0 {
            let remaining_damage = amount - self.combat_state.block;
            let r1 = self.comms.send_damage_blocked(amount);
            if r1.is_err() {
                proof { assert(self.comms.sent() =~= s0 + msgs.take(1)); lemma_sent_part(s0, msgs, 1); }
                return r1;
            }
            let r2 = self.comms.send_block_lost(self.combat_state.block);
            if r2.is_err() {
                proof { assert(self.comms.sent() =~= s0 + msgs.take(2)); lemma_sent_part(s0, msgs, 2); }
                return r2;
            }
            self.combat_state.block = 0;
            let r3 = self.comms.send_block(0);
            if r3.is_err() {
                proof { assert(self.comms.sent() =~= s0 + msgs.take(3)); lemma_sent_part(s0, msgs, 3); }
                return r3;
            }
            let r4 = self.comms.send_damage_taken(remaining_damage);
            if r4.is_err() {
                proof { assert(self.comms.sent() =~= s0 + msgs.take(4)); lemma_sent_part(s0, msgs, 4); }
                return r4;
            }
            self.state.decrease_hp(remaining_damage);
            let r5 = self.comms.send_health_changed(self.state.health());
            proof { assert(self.comms.sent() =~= s0 + msgs.take(5)); assert(msgs.take(5) =~= msgs); lemma_sent_part(s0, msgs, 5); }
            r5
        } else {
            self.state.decrease_hp(amount);
            let r1 = self.comms.send_damage_taken(amount);
            if r1.is_err() {
                proof { assert(self.comms.sent() =~= s0 + msgs.take(1)); lemma_sent_part(s0, msgs, 1); }
                return r1;
            }
            let r2 = self.comms.send_health_changed(self.state.health());
            proof { assert(self.comms.sent() =~= s0 + msgs.take(2)); assert(msgs.take(2) =~= msgs); lemma_sent_part(s0, msgs, 2); }
            r2
        }
    }

    /// Draws one card, shuffling the discard pile into the draw pile when it is empty.
    fn draw_one_card(&mut self, hand_index: HandIndex) -> (r: Result<(), StsError>)
        requires
            old(self).combat().discard_pile@.len() <= 0x8000_0000,
        ensures
            final(self).state() == old(self).state(),
            final(self).combat().energy == old(self).combat().energy,
            final(self).combat().block == old(self).combat().block,
            final(self).combat().debuffs == old(self).combat().debuffs,
            final(self).combat().discard_pile@.len() <= old(self).combat().discard_pile@.len(),
            ({
                let piles = (old(self).combat().hand@, old(self).combat().draw_pile@, old(self).combat().discard_pile@,
                    old(self).combat().shuffle_rng@);
                let now = (final(self).combat().hand@, final(self).combat().draw_pile@, final(self).combat().discard_pile@,
                    final(self).combat().shuffle_rng@);
                &&& r is Ok ==> now == draw_one(piles) && final(self).sent() == old(self).sent() + draw_one_messages(piles, hand_index)
                &&& r is Err ==> now == draw_one(piles) && final(self).sent() == old(self).sent() + draw_one_messages(piles, hand_index)
                    || piles.1.len() == 0 && now == piles && final(self).sent() == old(self).sent().push(StsMessage::ShufflingDiscardToDraw)
            }),
            r matches Err(e) ==> e == StsError::Disconnected,
            tallied(old(self).comms(), final(self).comms(), r is Err),
    {
        let ghost s0 = self.comms.sent();
        match self.combat_state.draw_pile.pop() {
            Some(card) => {
                self.combat_state.hand.push(card);
                let r = self.comms.send_card_drawn(hand_index, card);
                assert(self.comms.sent() =~= s0 + seq![StsMessage::CardDrawn(hand_index, card)]);
                r
            },
            None => {
                let shuffled = self.comms.send_shuffling_discard_to_draw();
                match shuffled {
                    Ok(()) => {},
                    Err(e) => { return Err(e); },
                }
                proof {
                    crate::rng::java::lemma_java_shuffle_keeps_multiset(
                        self.combat_state.discard_pile@,
                        java_initial_scramble(rng_step(self.combat_state.shuffle_rng@).1),
                        self.combat_state.discard_pile@.len(),
                    );
                }
                self.combat_state.shuffle();
                self.combat_state.draw_pile.append(&mut self.combat_state.discard_pile);
                match self.combat_state.draw_pile.pop() {
                    Some(card) => {
                        self.combat_state.hand.push(card);
                        let r = self.comms.send_card_drawn(hand_index, card);
                        assert(self.comms.sent() =~= s0 + seq![StsMessage::ShufflingDiscardToDraw, StsMessage::CardDrawn(hand_index, card)]);
                        r
                    },
                    None => {
                        assert(self.comms.sent() =~= s0 + seq![StsMessage::ShufflingDiscardToDraw]);
                        Ok(())
                    },
                }
            },
        }
    }

    /// Draws five cards.
    pub fn draw_cards(&mut self) -> (r: Result<(), StsError>)
        requires
            old(self).combat().discard_pile@.len() <= 0x8000_0000,
        ensures
            final(self).state() == old(self).state(),
            final(self).combat().energy == old(self).combat().energy,
            final(self).combat().block == old(self).combat().block,
            ({
                let piles = (old(self).combat().hand@, old(self).combat().draw_pile@, old(self).combat().discard_pile@,
                    old(self).combat().shuffle_rng@);
                let now = (final(self).combat().hand@, final(self).combat().draw_pile@, final(self).combat().discard_pile@,
                    final(self).combat().shuffle_rng@);
                &&& r is Ok ==> now == draw_many(piles, 5) && final(self).sent() == old(self).sent() + draw_many_messages(piles, 5)
                &&& r is Err ==> (exists|k: nat| k <= 5 && now == #[trigger] draw_many(piles, k))
                    && sent_part(old(self).sent(), final(self).sent(), draw_many_messages(piles, 5))
            }),
            r matches Err(e) ==> e == StsError::Disconnected,
            tallied(old(self).comms(), final(self).comms(), r is Err),
    {
        let ghost s0 = self.comms.sent();
        let ghost start = (self.combat_state.hand@, self.combat_state.draw_pile@, self.combat_state.discard_pile@,
            self.combat_state.shuffle_rng@);
        let mut i: usize = 0;
        while i < 5
            invariant
                i <= 5,
                self.combat().discard_pile@.len() <= 0x8000_0000,
                self.state() == old(self).state(),
                self.combat().energy == old(self).combat().energy,
                self.combat().block == old(self).combat().block,
                (self.combat().hand@, self.combat().draw_pile@, self.combat().discard_pile@,
                    self.combat().shuffle_rng@) == draw_many(start, i as nat),
                self.comms.sent() == s0 + draw_many_messages(start, i as nat),
                tallied(old(self).comms, self.comms, false),
                s0 == old(self).sent(),
                start == (old(self).combat().hand@, old(self).combat().draw_pile@, old(self).combat().discard_pile@,
                    old(self).combat().shuffle_rng@),
            decreases 5 - i,
        {
            let ghost before = self.comms.sent();
            let drawn = self.draw_one_card(i);
            proof {
                assert(draw_many(start, (i + 1) as nat) == draw_one(draw_many(start, i as nat)));
                lemma_draw_many_messages_prefix(start, (i + 1) as nat, 5);
                lemma_draw_many_messages_prefix(start, i as nat, (i + 1) as nat);
            }
            match drawn {
                Ok(()) => {
                    assert(self.comms.sent() =~= s0 + draw_many_messages(start, (i + 1) as nat));
                },
                Err(e) => {
                    proof {
                        let a = draw_many_messages(start, i as nat);
                        let all = draw_many_messages(start, 5);
                        let next = draw_many_messages(start, (i + 1) as nat);
                        let now = (self.combat().hand@, self.combat().draw_pile@, self.combat().discard_pile@,
                            self.combat().shuffle_rng@);
                        if now == draw_many(start, (i + 1) as nat) {
                            assert(self.comms.sent() =~= s0 + next);
                            assert(all.take(next.len() as int) == next);
                            lemma_sent_part(s0, all, next.len() as int);
                        } else {
                            assert(now == draw_many(start, i as nat));
                            assert(all.take(a.len() as int + 1) =~= next.take(a.len() as int + 1));
                            assert(next.take(a.len() as int + 1) =~= a.push(StsMessage::ShufflingDiscardToDraw));
                            assert(self.comms.sent() =~= s0 + all.take(a.len() as int + 1));
                            lemma_sent_part(s0, all, a.len() as int + 1);
                        }
                    }
                    return Err(e);
                },
            }
            i = i + 1;
        }
        Ok(())
    }

    /// Puts the cards on the discard pile and tells the client.
    pub fn add_to_discard_pile(&mut self, cards: &[Card]) -> (r: Result<(), StsError>)
        ensures
            final(self).state() == old(self).state(),
            final(self).combat().discard_pile@ == old(self).combat().discard_pile@ + cards@,
            final(self).combat().hand == old(self).combat().hand,
            final(self).combat().draw_pile == old(self).combat().draw_pile,
            one_more(old(self).sent(), final(self).sent()),
            final(self).sent().last() matches StsMessage::AddToDiscardPile(v) && v@ == cards@,
            r matches Err(e) ==> e == StsError::Disconnected,
            tallied(old(self).comms(), final(self).comms(), r is Err),
    {
        let mut i: usize = 0;
        let ghost start = self.combat_state.discard_pile@;
        while i < cards.len()
            invariant
                i <= cards@.len(),
                self.combat_state.discard_pile@ == start + cards@.subrange(0, i as int),
                self.state() == old(self).state(),
                self.sent() == old(self).sent(),
                self.comms == old(self).comms,
                self.combat().hand == old(self).combat().hand,
                self.combat().draw_pile == old(self).combat().draw_pile,
            decreases cards@.len() - i,
        {
            self.combat_state.discard_pile.push(cards[i]);
            proof {
                assert(start + cards@.subrange(0, i as int + 1) =~= (start + cards@.subrange(0, i as int)).push(cards@[i as int]));
            }
            i = i + 1;
        }
        assert(cards@.subrange(0, cards@.len() as int) == cards@);
        self.comms.send_add_to_discard_pile(cards)
    }

    /// Moves the hand to the discard pile, last card first, as the game does.
    fn discard_hand(&mut self) -> (r: Result<(), StsError>)
        ensures
            final(self).sent() == old(self).sent().push(StsMessage::HandDiscarded),
            r matches Err(e) ==> e == StsError::Disconnected,
            final(self).state() == old(self).state(),
            final(self).combat().hand@.len() == 0,
            final(self).combat().discard_pile@ == old(self).combat().discard_pile@ + old(self).combat().hand@.reverse(),
            final(self).combat().debuffs == old(self).combat().debuffs,
            final(self).combat().draw_pile == old(self).combat().draw_pile,
            tallied(old(self).comms(), final(self).comms(), r is Err),
    {
        let ghost hand = self.combat_state.hand@;
        let ghost discard = self.combat_state.discard_pile@;
        while self.combat_state.hand.len() > 0
            invariant
                hand.len() >= self.combat_state.hand@.len(),
                self.combat_state.hand@ == hand.subrange(0, self.combat_state.hand@.len() as int),
                self.combat_state.discard_pile@ == discard + hand.subrange(self.combat_state.hand@.len() as int, hand.len() as int).reverse(),
                self.state() == old(self).state(),
                self.sent() == old(self).sent(),
                self.comms == old(self).comms,
                self.combat().debuffs == old(self).combat().debuffs,
                self.combat().draw_pile == old(self).combat().draw_pile,
            decreases self.combat_state.hand@.len(),
        {
            let n = self.combat_state.hand.len();
            match self.combat_state.hand.pop() {
                Some(card) => {
                    self.combat_state.discard_pile.push(card);
                    proof {
                        assert(hand.subrange(n - 1, hand.len() as int).reverse() =~= hand.subrange(n as int, hand.len() as int).reverse().push(hand[n - 1]));
                    }
                },
                None => {},
            }
        }
        assert(hand.subrange(0, hand.len() as int) == hand);
        self.comms.send_hand_discarded()
    }

    /// Tells the client an enemy died.
    pub fn enemy_died(&mut self, index: EnemyIndex, enemy_type: EnemyType) -> (r: Result<(), StsError>)
        ensures
            final(self).state() == old(self).state(),
            final(self).combat() == old(self).combat(),
            final(self).sent() == old(self).sent().push(StsMessage::EnemyDied(index, enemy_type)),
            r matches Err(e) ==> e == StsError::Disconnected,
            tallied(old(self).comms(), final(self).comms(), r is Err),
    {
        self.comms.send_enemy_died(index, enemy_type)
    }

    /// Sends the enemies and the energy, then lets the client play an affordable card (and pick
    /// its target when it has one) or end the turn.
    pub fn choose_next_action(&mut self, enemies: &[Option<EnemyStatus>]) -> (r: Result<CombatAction, StsError>)
        requires
            forall|i: int| 0 <= i < old(self).combat().hand@.len() ==> has_card_details(#[trigger] old(self).combat().hand@[i]),
        ensures
            final(self).state() == old(self).state(),
            final(self).combat() == old(self).combat(),
            r matches Ok(CombatAction::PlayCard(card, details)) ==> ({
                &&& final(self).card_just_played() matches Some(i)
                &&& i < old(self).combat().hand@.len()
                &&& old(self).combat().hand@[i as int] == card
                &&& spec_cost(card) <= old(self).combat().energy
                &&& (details.cost, details.effects@, details.target) == spec_card_details(card)
                &&& details.target != Target::OneEnemy
                &&& final(self).sent().len() == old(self).sent().len() + 3
            }),
            r matches Ok(CombatAction::PlayCardAgainstEnemy(card, details, e)) ==> ({
                &&& final(self).card_just_played() matches Some(i)
                &&& i < old(self).combat().hand@.len()
                &&& old(self).combat().hand@[i as int] == card
                &&& spec_cost(card) <= old(self).combat().energy
                &&& (details.cost, details.effects@, details.target) == spec_card_details(card)
                &&& details.target == Target::OneEnemy
                &&& e < enemies@.len() && enemies@[e as int] is Some
                &&& final(self).sent().len() == old(self).sent().len() + 4
            }),
            r matches Ok(CombatAction::EndTurn) ==> final(self).card_just_played() == old(self).card_just_played()
                && final(self).sent().len() == old(self).sent().len() + 3,
            r matches Ok(CombatAction::Potion(_)) ==> false,
            r matches Err(e) ==> e == StsError::Disconnected || e == StsError::InvalidChoice,
            exchanges_added(old(self).comms(), final(self).comms()),
            (final(self).comms().hangups() > old(self).comms().hangups()) == (r == Err::<CombatAction, StsError>(StsError::Disconnected)),
            final(self).comms().hangups() == old(self).comms().hangups() ==> next_action_outcome(old(self).combat().hand@,
                old(self).combat().energy, enemies@, new_answers(old(self).comms(), final(self).comms()), final(self).card_just_played(), r),
            sent_more(old(self).sent(), final(self).sent()),
            final(self).sent().len() <= old(self).sent().len() + 4,
            ({
                let k = old(self).sent().len() as int;
                let s = final(self).sent();
                &&& s[k] matches StsMessage::EnemyParty(v) && v@.len() == enemies@.len()
                    && forall|i: int| 0 <= i < enemies@.len() ==> same_slot(#[trigger] v@[i], enemies@[i])
                &&& s.len() > k + 1 ==> s[k + 1] == StsMessage::Energy(old(self).combat().energy)
                &&& s.len() > k + 2 ==> asked(s.subrange(0, k + 2), s.subrange(0, k + 3), Prompt::CombatAction,
                    play_choices(playable_in(old(self).combat().hand@, old(self).combat().energy, old(self).combat().hand@.len() as int)))
                &&& s.len() > k + 3 ==> asked(s.subrange(0, k + 3), s, Prompt::TargetEnemy, target_choices(enemies@, enemies@.len() as int))
            }),
    {
        let ghost s0 = self.comms.sent();
        let ghost c0 = self.comms;
        let ghost k = s0.len() as int;
        assert(c0.received().subrange(0, c0.received().len() as int) =~= c0.received());
        let told = self.comms.send_enemy_statuses(enemies);
        let ghost s1 = self.comms.sent();
        assert(s1.subrange(0, k) =~= s0);
        match told {
            Ok(()) => {},
            Err(e) => { return Err(e); },
        }
        let told = self.comms.send_energy(self.combat_state.energy);
        let ghost s2 = self.comms.sent();
        let ghost c2 = self.comms;
        assert(s2.subrange(0, k) =~= s0 && s2[k] == s1[k]);
        match told {
            Ok(()) => {},
            Err(e) => { return Err(e); },
        }
        let mut playable_cards: Vec<(HandIndex, Card)> = Vec::new();
        let mut i: usize = 0;
        while i < self.combat_state.hand.len()
            invariant
                i <= self.combat_state.hand@.len(),
                self.combat() == old(self).combat(),
                self.state() == old(self).state(),
                self.comms.sent() == s2,
                self.comms == c2,
                playable_cards@ == playable_in(self.combat_state.hand@, self.combat_state.energy, i as int),
                forall|k: int| 0 <= k < playable_cards@.len() ==> ({
                    let (h, c) = #[trigger] playable_cards@[k];
                    &&& h < self.combat_state.hand@.len()
                    &&& self.combat_state.hand@[h as int] == c
                    &&& spec_cost(c) <= self.combat_state.energy
                }),
            decreases self.combat_state.hand@.len() - i,
        {
            let card = self.combat_state.hand[i];
            if card.cost() <= self.combat_state.energy {
                playable_cards.push((i, card));
            }
            i = i + 1;
        }
        let chosen = self.comms.choose_card_to_play(playable_cards.as_slice());
        let ghost s3 = self.comms.sent();
        let ghost c3 = self.comms;
        proof {
            assert(s3.subrange(0, k) =~= s0 && s3[k] == s1[k] && s3[k + 1] == s2[k + 1]);
            assert(s3.subrange(0, k + 2) =~= s2);
            assert(s3.subrange(0, k + 3) =~= s3);
            assert(c3.received().subrange(0, c0.received().len() as int) =~= c0.received());
            if c3.hangups() == c0.hangups() {
                assert(new_answers(c0, c3) =~= seq![c3.received().last()]);
            }
        }
        match chosen {
            Ok(Some(hand_index)) => {
                self.card_just_played = Some(hand_index);
                let card = self.combat_state.hand[hand_index];
                let card_details = CardDetails::for_card(card);
                if card_details.target == Target::OneEnemy {
                    let target = self.comms.choose_enemy_to_target(enemies);
                    proof {
                        let c4 = self.comms;
                        assert(c4.received().subrange(0, c0.received().len() as int) =~= c0.received());
                        if c4.hangups() == c0.hangups() {
                            assert(new_answers(c0, c4) =~= seq![c3.received().last(), c4.received().last()]);
                        }
                        let s4 = self.comms.sent();
                        assert(s4.subrange(0, k) =~= s0 && s4[k] == s1[k] && s4[k + 1] == s2[k + 1]);
                        assert(s4.subrange(0, k + 2) =~= s2);
                        assert(s4.subrange(0, k + 3) =~= s3);
                    }
                    match target {
                        Ok(enemy_index) => Ok(CombatAction::PlayCardAgainstEnemy(card, card_details, enemy_index)),
                        Err(e) => Err(e),
                    }
                } else {
                    Ok(CombatAction::PlayCard(card, card_details))
                }
            },
            Ok(None) => Ok(CombatAction::EndTurn),
            Err(e) => Err(e),
        }
    }

    /// Pays for the card just played and moves it from the hand to the exhaust pile or the
    /// discard pile, telling the client.
    pub fn dispose_card_just_played(&mut self) -> (r: Result<(), StsError>)
        requires
            old(self).card_just_played() matches Some(i) ==> i < old(self).combat().hand@.len(),
        ensures
            final(self).state() == old(self).state(),
            old(self).card_just_played() is None ==> final(self).combat() == old(self).combat(),
            old(self).card_just_played() matches Some(i) ==> ({
                let card = old(self).combat().hand@[i as int];
                &&& final(self).combat().hand@ == old(self).combat().hand@.remove(i as int)
                &&& final(self).combat().energy == spec_saturating_sub(old(self).combat().energy, spec_cost(card))
                &&& if crate::data::spec_exhausts(card) {
                    final(self).combat().exhaust_pile@ == old(self).combat().exhaust_pile@.push(card)
                        && final(self).combat().discard_pile == old(self).combat().discard_pile
                } else {
                    final(self).combat().discard_pile@ == old(self).combat().discard_pile@.push(card)
                        && final(self).combat().exhaust_pile == old(self).combat().exhaust_pile
                }
                &&& final(self).sent() == old(self).sent().push(if crate::data::spec_exhausts(card) {
                    StsMessage::CardExhausted(i, card)
                } else {
                    StsMessage::CardDiscarded(i, card)
                })
            }),
            old(self).card_just_played() is None ==> r is Ok && final(self).sent() == old(self).sent(),
            r matches Err(e) ==> e == StsError::Disconnected,
            tallied(old(self).comms(), final(self).comms(), r is Err),
    {
        match self.card_just_played {
            Some(hand_index) => {
                let card = self.combat_state.hand.remove(hand_index);
                self.combat_state.energy = self.combat_state.energy.saturating_sub(card.cost());
                if card.exhausts() {
                    self.combat_state.exhaust_pile.push(card);
                    self.comms.send_card_exhausted(hand_index, card)
                } else {
                    self.combat_state.discard_pile.push(card);
                    self.comms.send_card_discarded(hand_index, card)
                }
            },
            None => Ok(()),
        }
    }

    /// Moves the card just played from the hand to the discard pile, telling the client.
    pub fn discard_card_just_played(&mut self) -> (r: Result<(), StsError>)
        requires
            old(self).card_just_played() matches Some(i) ==> i < old(self).combat().hand@.len(),
        ensures
            final(self).state() == old(self).state(),
            old(self).card_just_played() is None ==> final(self).combat() == old(self).combat(),
            old(self).card_just_played() matches Some(i) ==> final(self).combat().hand@ == old(self).combat().hand@.remove(i as int)
                && final(self).combat().discard_pile@ == old(self).combat().discard_pile@.push(old(self).combat().hand@[i as int])
                && final(self).sent() == old(self).sent().push(StsMessage::CardDiscarded(i, old(self).combat().hand@[i as int])),
            old(self).card_just_played() is None ==> r is Ok && final(self).sent() == old(self).sent(),
            r matches Err(e) ==> e == StsError::Disconnected,
            tallied(old(self).comms(), final(self).comms(), r is Err),
    {
        match self.card_just_played {
            Some(hand_index) => {
                let card = self.combat_state.hand.remove(hand_index);
                self.combat_state.discard_pile.push(card);
                self.comms.send_card_discarded(hand_index, card)
            },
            None => Ok(()),
        }
    }

    /// Adds `stacks` of `debuff` to the player and tells the client the debuffs.
    pub fn apply_debuff(&mut self, debuff: Debuff, stacks: StackCount) -> (r: Result<(), StsError>)
        requires
            forall|i: int| 0 <= i < old(self).combat().debuffs@.len() ==> old(self).combat().debuffs@[i].1 + stacks <= u32::MAX,
        ensures
            final(self).state() == old(self).state(),
            final(self).combat().debuffs@ == add_debuff(old(self).combat().debuffs@, debuff, stacks),
            one_more(old(self).sent(), final(self).sent()),
            final(self).sent().last() matches StsMessage::Debuffs(v) && v@ == final(self).combat().debuffs@,
            r matches Err(e) ==> e == StsError::Disconnected,
            tallied(old(self).comms(), final(self).comms(), r is Err),
    {
        match debuff_position(&self.combat_state.debuffs, debuff) {
            Some(i) => {
                let (d, c) = self.combat_state.debuffs[i];
                proof {
                    let debuffs = self.combat_state.debuffs@;
                    let j = choose|j: int| 0 <= j < debuffs.len() && debuffs[j].0 == debuff
                        && forall|k: int| 0 <= k < j ==> debuffs[k].0 != debuff;
                    if j < i {
                        assert(debuffs[j].0 != debuff);
                    }
                    if j > i {
                        assert(debuffs[i as int].0 != debuff);
                    }
                    assert(debuffs == old(self).combat().debuffs@);
                    assert(old(self).combat().debuffs@[i as int].1 + stacks <= u32::MAX);
                }
                self.combat_state.debuffs.set(i, (d, c + stacks));
            },
            None => {
                self.combat_state.debuffs.push((debuff, stacks));
            },
        }
        self.comms.send_debuffs(self.combat_state.debuffs.as_slice())
    }

    /// Gains block (capped at `u32::MAX`) and tells the client.
    pub fn gain_block(&mut self, amount: Block) -> (r: Result<(), StsError>)
        ensures
            final(self).state() == old(self).state(),
            final(self).combat() == (CombatState { block: final(self).combat().block, ..old(self).combat() }),
            final(self).card_just_played() == old(self).card_just_played(),
            final(self).combat().block == spec_saturating_add(old(self).combat().block, amount)
                && final(self).sent() == old(self).sent().push(StsMessage::BlockGained(amount))
                    .push(StsMessage::Block(spec_saturating_add(old(self).combat().block, amount)))
                || r is Err && final(self).combat().block == old(self).combat().block
                    && final(self).sent() == old(self).sent().push(StsMessage::BlockGained(amount)),
            r is Ok ==> final(self).sent().len() == old(self).sent().len() + 2,
            r matches Err(e) ==> e == StsError::Disconnected,
            tallied(old(self).comms(), final(self).comms(), r is Err),
    {
        self.comms.send_block_gained(amount)?;
        self.combat_state.block = self.combat_state.block.saturating_add(amount);
        self.comms.send_block(self.combat_state.block)
    }

    /// Tells the client an enemy's new status.
    pub fn update_enemy_status(&mut self, index: EnemyIndex, status: EnemyStatus) -> (r: Result<(), StsError>)
        ensures
            final(self).state() == old(self).state(),
            final(self).combat() == old(self).combat(),
            final(self).sent() == old(self).sent().push(StsMessage::EnemyStatus(index, status)),
            r matches Err(e) ==> e == StsError::Disconnected,
            tallied(old(self).comms(), final(self).comms(), r is Err),
    {
        self.comms.send_enemy_status(index, status)
    }

    pub fn has_debuff(&self, debuff: Debuff) -> (r: bool)
        ensures
            r == has_debuff_in(self.combat().debuffs@, debuff),
    {
        self.combat_state.has_debuff(debuff)
    }

    /// Whether the player's hit points are zero.
    pub fn is_dead(&self) -> (r: bool)
        ensures
            r == (self.state().hp == 0),
    {
        self.hp() == 0
    }

    pub fn is_frail(&self) -> (r: bool)
        ensures
            r == has_debuff_in(self.combat().debuffs@, Debuff::Frail),
    {
        self.has_debuff(Debuff::Frail)
    }

    pub fn is_vulnerable(&self) -> (r: bool)
        ensures
            r == has_debuff_in(self.combat().debuffs@, Debuff::Vulnerable),
    {
        self.has_debuff(Debuff::Vulnerable)
    }

    pub fn is_weak(&self) -> (r: bool)
        ensures
            r == has_debuff_in(self.combat().debuffs@, Debuff::Weak),
    {
        self.has_debuff(Debuff::Weak)
    }

    /// Tells the client an enemy died.
    pub fn send_enemy_died(&mut self, index: EnemyIndex, enemy_type: EnemyType) -> (r: Result<(), StsError>)
        ensures
            final(self).state() == old(self).state(),
            final(self).combat() == old(self).combat(),
            final(self).sent() == old(self).sent().push(StsMessage::EnemyDied(index, enemy_type)),
            r matches Err(e) ==> e == StsError::Disconnected,
            tallied(old(self).comms(), final(self).comms(), r is Err),
    {
        self.comms.send_enemy_died(index, enemy_type)
    }

    /// Tells the client an enemy's new status.
    pub fn send_enemy_status(&mut self, index: EnemyIndex, status: EnemyStatus) -> (r: Result<(), StsError>)
        ensures
            final(self).state() == old(self).state(),
            final(self).combat() == old(self).combat(),
            final(self).sent() == old(self).sent().push(StsMessage::EnemyStatus(index, status)),
            r matches Err(e) ==> e == StsError::Disconnected,
            tallied(old(self).comms(), final(self).comms(), r is Err),
    {
        self.comms.send_enemy_status(index, status)
    }
}

} // verus!
