use vstd::prelude::*;

use crate::components::{PlayerCombatState, PlayerPersistentState};
use crate::data::{spec_can_drink_anywhere, Potion};
use crate::player::comms::{
    asked, exchanges_added, lemma_no_questions_added, lemma_question_added, lemma_sent_after_trans, new_answers, no_questions_added,
    one_more, questions, sent_after, sent_more, tallied, Comms,
};
use crate::player::message::{Choice, PotionAction, Prompt, StsError, StsMessage};
use crate::player::state::{spec_min, spec_saturating_add};

use super::health_system::{health_changed, health_message, HealthSystem};

verus! {

/// The potions the player holds, the actions offered on them, and what drinking them does.
pub struct PotionSystem;

/// The actions offered on the potions held: for each potion, in slot order, discarding it,
/// then drinking it when in combat or when it can be drunk anywhere.
pub open spec fn potion_actions(potions: Seq<Option<Potion>>, in_combat: bool) -> Seq<Choice>
    decreases potions.len(),
{
    if potions.len() == 0 {
        Seq::empty()
    } else {
        let before = potion_actions(potions.drop_last(), in_combat);
        let index = (potions.len() - 1) as usize;
        match potions.last() {
            Some(p) => {
                let with_discard = before.push(Choice::PotionAction(PotionAction::Discard(index, p)));
                if in_combat || spec_can_drink_anywhere(p) {
                    with_discard.push(Choice::PotionAction(PotionAction::Drink(index, p)))
                } else {
                    with_discard
                }
            },
            None => before,
        }
    }
}

/// Whether some potion slot is empty.
pub open spec fn has_empty_slot(potions: Seq<Option<Potion>>) -> bool {
    exists|i: int| 0 <= i < potions.len() && potions[i] is None
}

/// The first empty slot at or after `i` (the number of slots when there is none).
pub open spec fn first_empty_from(potions: Seq<Option<Potion>>, i: int) -> int
    decreases potions.len() - i,
{
    if i >= potions.len() {
        potions.len() as int
    } else if potions[i] is None {
        i
    } else {
        first_empty_from(potions, i + 1)
    }
}

/// The first empty slot.
pub open spec fn first_empty(potions: Seq<Option<Potion>>) -> int {
    first_empty_from(potions, 0)
}

/// The number of potions held.
pub open spec fn held_count(potions: Seq<Option<Potion>>) -> nat
    decreases potions.len(),
{
    if potions.len() == 0 {
        0
    } else {
        held_count(potions.drop_last()) + if potions.last() is Some {
            1nat
        } else {
            0nat
        }
    }
}

/// The action names a slot that holds the potion it names.
pub open spec fn names_held_potion(action: PotionAction, potions: Seq<Option<Potion>>) -> bool {
    match action {
        PotionAction::Discard(i, p) => i < potions.len() && potions[i as int] == Some(p),
        PotionAction::Drink(i, p) => i < potions.len() && potions[i as int] == Some(p),
    }
}

/// The slot an action is about.
pub open spec fn action_slot(action: PotionAction) -> usize {
    match action {
        PotionAction::Discard(i, _) => i,
        PotionAction::Drink(i, _) => i,
    }
}

/// Every action offered names a potion held; drinking is offered only in combat or for
/// potions that can be drunk anywhere.
pub proof fn lemma_potion_actions_name_held(potions: Seq<Option<Potion>>, in_combat: bool)
    requires
        potions.len() <= usize::MAX,
    ensures
        forall|k: int| 0 <= k < potion_actions(potions, in_combat).len() ==> {
            &&& #[trigger] potion_actions(potions, in_combat)[k] matches Choice::PotionAction(a)
            &&& names_held_potion(a, potions)
            &&& (a matches PotionAction::Drink(_, p) ==> in_combat || spec_can_drink_anywhere(p))
        },
    decreases potions.len(),
{
    if potions.len() > 0 {
        let rest = potions.drop_last();
        lemma_potion_actions_name_held(rest, in_combat);
        let before = potion_actions(rest, in_combat);
        assert forall|k: int| 0 <= k < potion_actions(potions, in_combat).len() implies {
            &&& #[trigger] potion_actions(potions, in_combat)[k] matches Choice::PotionAction(a)
            &&& names_held_potion(a, potions)
            &&& (a matches PotionAction::Drink(_, p) ==> in_combat || spec_can_drink_anywhere(p))
        } by {
            if k < before.len() {
                assert(potion_actions(potions, in_combat)[k] == before[k]);
                let c = before[k];
                if let Choice::PotionAction(a) = c {
                    assert(names_held_potion(a, rest));
                    assert(rest[action_slot(a) as int] == potions[action_slot(a) as int]);
                }
            }
        }
    }
}

/// Emptying a slot that holds a potion leaves one potion fewer.
pub proof fn lemma_held_count_empty_slot(potions: Seq<Option<Potion>>, i: int)
    requires
        0 <= i < potions.len(),
        potions[i] is Some,
    ensures
        held_count(potions.update(i, None)) + 1 == held_count(potions),
    decreases potions.len(),
{
    let after = potions.update(i, None);
    if i < potions.len() - 1 {
        lemma_held_count_empty_slot(potions.drop_last(), i);
        assert(after.drop_last() == potions.drop_last().update(i, None));
    } else {
        assert(after.drop_last() == potions.drop_last());
    }
}

/// Filling an empty slot leaves one potion more.
pub proof fn lemma_held_count_fill_slot(potions: Seq<Option<Potion>>, i: int, p: Potion)
    requires
        0 <= i < potions.len(),
        potions[i] is None,
    ensures
        held_count(potions.update(i, Some(p))) == held_count(potions) + 1,
    decreases potions.len(),
{
    let after = potions.update(i, Some(p));
    if i < potions.len() - 1 {
        lemma_held_count_fill_slot(potions.drop_last(), i, p);
        assert(after.drop_last() == potions.drop_last().update(i, Some(p)));
    } else {
        assert(after.drop_last() == potions.drop_last());
    }
}

/// The first empty slot, when there is one, is empty and comes before every other.
pub proof fn lemma_first_empty(potions: Seq<Option<Potion>>, i: int)
    requires
        0 <= i <= potions.len(),
    ensures
        i <= first_empty_from(potions, i) <= potions.len(),
        first_empty_from(potions, i) < potions.len() ==> potions[first_empty_from(potions, i)] is None,
        forall|k: int| i <= k < first_empty_from(potions, i) ==> potions[k] is Some,
        (exists|k: int| i <= k < potions.len() && potions[k] is None) ==> first_empty_from(potions, i) < potions.len(),
    decreases potions.len() - i,
{
    if i < potions.len() && potions[i] is Some {
        lemma_first_empty(potions, i + 1);
        if exists|k: int| i <= k < potions.len() && potions[k] is None {
            let k = choose|k: int| i <= k < potions.len() && potions[k] is None;
            assert(i + 1 <= k);
        }
    }
}

impl PotionSystem {
    /// Tells the client the player's potions.
    pub fn notify_player(comms: &mut Comms, pps: &PlayerPersistentState) -> (r: Result<(), StsError>)
        ensures
            one_more(old(comms).sent(), final(comms).sent()),
            final(comms).sent().last() matches StsMessage::Potions(v) && v@ == pps.potions@,
            no_questions_added(old(comms).sent(), final(comms).sent()),
            tallied(*old(comms), *final(comms), r is Err),
            r matches Err(e) ==> e == StsError::Disconnected,
    {
        comms.send_potions(pps.potions.as_slice())
    }

    /// Whether some potion slot is empty.
    pub fn has_potion_slot_available(pps: &PlayerPersistentState) -> (r: bool)
        ensures
            r == has_empty_slot(pps.potions@),
    {
        let mut i: usize = 0;
        while i < pps.potions.len()
            invariant
                i <= pps.potions@.len(),
                forall|k: int| 0 <= k < i ==> pps.potions@[k] is Some,
            decreases pps.potions@.len() - i,
        {
            if pps.potions[i].is_none() {
                return true;
            }
            i = i + 1;
        }
        false
    }

    /// Adds the actions on the potions held to `choices` (see `potion_actions`); answers
    /// whether a potion is held.
    pub fn extend_with_potion_actions(pps: &PlayerPersistentState, in_combat: bool, choices: &mut Vec<Choice>) -> (r: bool)
        ensures
            final(choices)@ == old(choices)@ + potion_actions(pps.potions@, in_combat),
            r == (held_count(pps.potions@) > 0),
    {
        let mut has_potion = false;
        let mut i: usize = 0;
        let ghost start = choices@;
        while i < pps.potions.len()
            invariant
                i <= pps.potions@.len(),
                start == old(choices)@,
                choices@ == start + potion_actions(pps.potions@.subrange(0, i as int), in_combat),
                has_potion == (held_count(pps.potions@.subrange(0, i as int)) > 0),
            decreases pps.potions@.len() - i,
        {
            let ghost pre = pps.potions@.subrange(0, i as int + 1);
            assert(pre.drop_last() == pps.potions@.subrange(0, i as int));
            if let Some(potion) = pps.potions[i] {
                choices.push(Choice::PotionAction(PotionAction::Discard(i, potion)));
                if in_combat || potion.can_drink_anywhere() {
                    choices.push(Choice::PotionAction(PotionAction::Drink(i, potion)));
                }
                has_potion = true;
            }
            i = i + 1;
        }
        assert(pps.potions@.subrange(0, pps.potions@.len() as int) == pps.potions@);
        has_potion
    }

    /// Puts `potion` in the first empty slot and tells the client the potions.
    pub fn obtain_potion(comms: &mut Comms, pps: &mut PlayerPersistentState, potion: Potion) -> (r: Result<(), StsError>)
        requires
            has_empty_slot(old(pps).potions@),
        ensures
            final(pps).potions@ == old(pps).potions@.update(first_empty(old(pps).potions@), Some(potion)),
            final(pps).hp == old(pps).hp,
            final(pps).hp_max == old(pps).hp_max,
            final(pps).gold == old(pps).gold,
            final(pps).deck@ == old(pps).deck@,
            final(pps).relics@ == old(pps).relics@,
            one_more(old(comms).sent(), final(comms).sent()),
            final(comms).sent().last() matches StsMessage::Potions(v) && v@ == final(pps).potions@,
            r matches Err(e) ==> e == StsError::Disconnected,
            tallied(*old(comms), *final(comms), r is Err),
    {
        let slot = first_empty_slot(pps);
        pps.potions.set(slot, Some(potion));
        Self::notify_player(comms, pps)
    }

    /// Discards a potion, or drinks one that can be drunk out of combat (Blood Potion heals a
    /// fifth of the maximum, Fruit Juice raises the maximum by 5); the slot is emptied and the
    /// client told the potions.
    pub fn expend_potion_out_of_combat(comms: &mut Comms, pps: &mut PlayerPersistentState, potion_action: &PotionAction) -> (r: Result<(), StsError>)
        requires
            action_slot(*potion_action) < old(pps).potions@.len(),
            potion_action matches PotionAction::Drink(_, p) ==> p == Potion::BloodPotion || p == Potion::FruitJuice,
        ensures
            final(pps).potions@ == old(pps).potions@.update(action_slot(*potion_action) as int, None),
            r is Ok ==> (final(comms).sent().last() matches StsMessage::Potions(v) && v@ == final(pps).potions@),
            potion_action_health(*potion_action, old(pps), final(pps)),
            final(pps).gold == old(pps).gold,
            final(pps).deck@ == old(pps).deck@,
            final(pps).relics@ == old(pps).relics@,
            sent_more(old(comms).sent(), final(comms).sent()),
            no_questions_added(old(comms).sent(), final(comms).sent()),
            tallied(*old(comms), *final(comms), r is Err),
            r matches Err(e) ==> e == StsError::Disconnected,
    {
        let ghost s0 = comms.sent();
        match potion_action {
            PotionAction::Discard(potion_index, _) => {
                pps.potions.set(*potion_index, None);
            },
            PotionAction::Drink(potion_index, potion) => {
                pps.potions.set(*potion_index, None);
                let drunk = if *potion == Potion::BloodPotion {
                    Self::blood_potion(comms, pps)
                } else {
                    Self::fruit_juice(comms, pps)
                };
                assert(comms.sent().subrange(0, s0.len() as int) =~= s0);
                assert(comms.sent().len() == s0.len() + 1 && !(comms.sent()[s0.len() as int] is Choices));
                if drunk.is_err() {
                    return drunk;
                }
            },
        }
        let ghost s1 = comms.sent();
        assert(no_questions_added(s0, s1));
        let r = Self::notify_player(comms, pps);
        assert(comms.sent().subrange(0, s0.len() as int) =~= s1.subrange(0, s0.len() as int));
        assert(no_questions_added(s0, comms.sent())) by {
            assert forall|k: int| s0.len() <= k < comms.sent().len() implies !(#[trigger] comms.sent()[k] is Choices) by {
                if k < s1.len() {
                    assert(comms.sent()[k] == s1[k]);
                }
            }
        }
        r
    }

    /// Discards or drinks a potion in combat (Blood Potion heals a fifth of the maximum,
    /// Dexterity Potion gives 2 dexterity, Fruit Juice raises the maximum by 5); the slot is
    /// emptied and the client told the potions.
    pub fn expend_potion_in_combat(
        comms: &mut Comms,
        pps: &mut PlayerPersistentState,
        pcs: &mut PlayerCombatState,
        potion_action: &PotionAction,
    ) -> (r: Result<(), StsError>)
        requires
            action_slot(*potion_action) < old(pps).potions@.len(),
            potion_action matches PotionAction::Drink(_, p) ==> p == Potion::BloodPotion || p == Potion::DexterityPotion
                || p == Potion::FruitJuice,
            potion_action matches PotionAction::Drink(_, p) && p == Potion::DexterityPotion ==> old(pcs).dexterity + 2 <= i32::MAX,
        ensures
            final(pps).potions@ == old(pps).potions@.update(action_slot(*potion_action) as int, None),
            r is Ok ==> (final(comms).sent().last() matches StsMessage::Potions(v) && v@ == final(pps).potions@),
            potion_action_health(*potion_action, old(pps), final(pps)),
            final(pcs).dexterity == (if potion_action matches PotionAction::Drink(_, p) && p == Potion::DexterityPotion {
                old(pcs).dexterity + 2
            } else {
                old(pcs).dexterity as int
            }),
            final(pcs).hand@ == old(pcs).hand@,
            final(pcs).energy == old(pcs).energy,
            final(pcs).block == old(pcs).block,
            final(pcs).strength == old(pcs).strength,
            final(pps).gold == old(pps).gold,
            final(pps).deck@ == old(pps).deck@,
            final(pps).relics@ == old(pps).relics@,
            sent_more(old(comms).sent(), final(comms).sent()),
            r matches Err(e) ==> e == StsError::Disconnected,
            tallied(*old(comms), *final(comms), r is Err),
    {
        let ghost s0 = comms.sent();
        match potion_action {
            PotionAction::Discard(potion_index, _) => {
                pps.potions.set(*potion_index, None);
            },
            PotionAction::Drink(potion_index, potion) => {
                pps.potions.set(*potion_index, None);
                let drunk = if *potion == Potion::BloodPotion {
                    Self::blood_potion(comms, pps)
                } else if *potion == Potion::DexterityPotion {
                    pcs.dexterity = pcs.dexterity + 2;
                    comms.send_dexterity(pcs.dexterity)
                } else {
                    Self::fruit_juice(comms, pps)
                };
                assert(comms.sent().subrange(0, s0.len() as int) =~= s0);
                if drunk.is_err() {
                    return drunk;
                }
            },
        }
        let ghost s1 = comms.sent();
        let r = Self::notify_player(comms, pps);
        assert(comms.sent().subrange(0, s0.len() as int) =~= s1.subrange(0, s0.len() as int));
        r
    }

    /// Heals a fifth of the maximum.
    fn blood_potion(comms: &mut Comms, pps: &mut PlayerPersistentState) -> (r: Result<(), StsError>)
        ensures
            health_changed(old(pps), final(pps), spec_min(spec_saturating_add(old(pps).hp, old(pps).hp_max / 5), old(pps).hp_max), old(pps).hp_max),
            final(comms).sent() == old(comms).sent().push(health_message(final(pps))),
            r matches Err(e) ==> e == StsError::Disconnected,
            tallied(*old(comms), *final(comms), r is Err),
    {
        let amount = pps.hp_max / 5;
        HealthSystem::heal(comms, pps, amount)
    }

    /// Raises the maximum, and the hit points, by 5.
    fn fruit_juice(comms: &mut Comms, pps: &mut PlayerPersistentState) -> (r: Result<(), StsError>)
        ensures
            health_changed(old(pps), final(pps), spec_saturating_add(old(pps).hp, 5), spec_saturating_add(old(pps).hp_max, 5)),
            final(comms).sent() == old(comms).sent().push(health_message(final(pps))),
            r matches Err(e) ==> e == StsError::Disconnected,
            tallied(*old(comms), *final(comms), r is Err),
    {
        HealthSystem::increase_hp_max(comms, pps, 5)
    }

    /// Offers the potions (while a slot is empty), the actions on the potions held and Skip,
    /// until `choice_count` potions are taken, none is left, or the client skips. A potion
    /// taken goes in the first empty slot and leaves the offer; the client is told the potions
    /// after each step. What this comes to for the client's answers is `potion_rounds`.
    pub fn choose_potions_to_obtain(
        comms: &mut Comms,
        pps: &mut PlayerPersistentState,
        potion_choices: &[Potion],
        choice_count: usize,
    ) -> (r: Result<(), StsError>)
        requires
            forall|i: int| 0 <= i < old(pps).potions@.len() ==> old(pps).potions@[i] != Some(Potion::EntropicBrew),
            !potion_choices@.contains(Potion::EntropicBrew),
        ensures
            final(pps).potions@.len() == old(pps).potions@.len(),
            forall|i: int| 0 <= i < final(pps).potions@.len() ==> kept_or_offered(
                #[trigger] final(pps).potions@[i],
                old(pps).potions@[i],
                potion_choices@,
            ),
            final(pps).gold == old(pps).gold,
            final(pps).deck@ == old(pps).deck@,
            final(pps).relics@ == old(pps).relics@,
            potion_choices@.len() > 0 && choice_count > 0 ==> sent_more(old(comms).sent(), final(comms).sent())
                && asked(old(comms).sent(), final(comms).sent().subrange(0, old(comms).sent().len() as int + 1),
                    count_prompt(choice_count), potion_offer(potion_choices@, old(pps).potions@)),
            !(potion_choices@.len() > 0 && choice_count > 0) ==> r is Ok && final(comms).sent() == old(comms).sent()
                && final(pps).potions@ == old(pps).potions@ && final(pps).hp == old(pps).hp && final(pps).hp_max == old(pps).hp_max,
            r matches Err(e) ==> e == StsError::Disconnected || e == StsError::InvalidChoice,
            exchanges_added(*old(comms), *final(comms)),
            (final(comms).hangups() > old(comms).hangups()) == (r == Err::<(), StsError>(StsError::Disconnected)),
            final(comms).hangups() == old(comms).hangups() ==> (potion_rounds(old(pps).potions@, old(pps).hp, old(pps).hp_max,
                potion_choices@, choice_count as nat, new_answers(*old(comms), *final(comms))) matches Some(o)
                && o.held == final(pps).potions@ && o.hp == final(pps).hp && o.hp_max == final(pps).hp_max && o.result == r
                && questions(final(comms).sent()) == questions(old(comms).sent()) + o.asked),
    {
        let ghost s0 = comms.sent();
        let ghost c0 = *comms;
        let ghost init_held = pps.potions@;
        let ghost init_hp = pps.hp;
        let ghost init_max = pps.hp_max;
        let ghost picks: Seq<Potion> = Seq::empty();
        let ghost qs: Seq<(Prompt, Seq<Choice>)> = Seq::empty();
        assert(s0.subrange(0, s0.len() as int) =~= s0);
        assert(c0.received().subrange(0, c0.received().len() as int) =~= c0.received());
        let slots = pps.potions.len();
        assert(pps.potions@.len() == slots);
        let mut remaining: Vec<Potion> = slice_copy(potion_choices);
        let mut count = choice_count;
        proof {
            assert forall|rest: Seq<usize>| #[trigger] potion_rounds(init_held, init_hp, init_max, potion_choices@, choice_count as nat,
                new_answers(c0, *comms) + rest) == with_prefix(picks, qs, potion_rounds(pps.potions@, pps.hp, pps.hp_max, remaining@,
                count as nat, rest)) by {
                assert(new_answers(c0, *comms) + rest =~= rest);
                if let Some(x) = potion_rounds(pps.potions@, pps.hp, pps.hp_max, remaining@, count as nat, rest) {
                    assert(picks + x.picks =~= x.picks);
                    assert(qs + x.asked =~= x.asked);
                }
            }
        }
        while remaining.len() > 0 && count > 0
            invariant
                pps.potions@.len() == old(pps).potions@.len(),
                pps.potions@.len() <= usize::MAX,
                forall|i: int| 0 <= i < pps.potions@.len() ==> kept_or_offered(#[trigger] pps.potions@[i], old(pps).potions@[i], potion_choices@),
                forall|i: int| 0 <= i < pps.potions@.len() ==> pps.potions@[i] != Some(Potion::EntropicBrew),
                forall|k: int| 0 <= k < remaining@.len() ==> potion_choices@.contains(#[trigger] remaining@[k]),
                !potion_choices@.contains(Potion::EntropicBrew),
                pps.gold == old(pps).gold,
                pps.deck@ == old(pps).deck@,
                pps.relics@ == old(pps).relics@,
                s0 == old(comms).sent(),
                c0 == *old(comms),
                init_held == old(pps).potions@,
                init_hp == old(pps).hp,
                init_max == old(pps).hp_max,
                sent_after(s0, comms.sent()),
                comms.sent().len() == s0.len() ==> remaining@ == potion_choices@ && count == choice_count
                    && pps.potions@ == old(pps).potions@ && pps.hp == old(pps).hp && pps.hp_max == old(pps).hp_max,
                comms.sent().len() > s0.len() ==> potion_choices@.len() > 0 && choice_count > 0
                    && asked(s0, comms.sent().subrange(0, s0.len() as int + 1), count_prompt(choice_count),
                        potion_offer(potion_choices@, old(pps).potions@)),
                comms.hangups() == c0.hangups(),
                exchanges_added(c0, *comms),
                questions(comms.sent()) == questions(s0) + qs,
                forall|rest: Seq<usize>| #[trigger] potion_rounds(init_held, init_hp, init_max, potion_choices@, choice_count as nat,
                    new_answers(c0, *comms) + rest) == with_prefix(picks, qs, potion_rounds(pps.potions@, pps.hp, pps.hp_max,
                    remaining@, count as nat, rest)),
            ensures
                comms.sent().len() == s0.len() ==> !(potion_choices@.len() > 0 && choice_count > 0),
                !(remaining@.len() > 0 && count > 0),
            decreases 2 * remaining@.len() + held_count(pps.potions@),
        {
            let mut choices: Vec<Choice> = Vec::new();
            let slot_available = Self::has_potion_slot_available(pps);
            if slot_available {
                let mut k: usize = 0;
                while k < remaining.len()
                    invariant
                        k <= remaining@.len(),
                        choices@ == remaining@.subrange(0, k as int).map_values(|p: Potion| Choice::ObtainPotion(p)),
                    decreases remaining@.len() - k,
                {
                    choices.push(Choice::ObtainPotion(remaining[k]));
                    proof {
                        assert(remaining@.subrange(0, k as int + 1).map_values(|p: Potion| Choice::ObtainPotion(p))
                            =~= remaining@.subrange(0, k as int).map_values(|p: Potion| Choice::ObtainPotion(p)).push(Choice::ObtainPotion(remaining@[k as int])));
                    }
                    k = k + 1;
                }
                assert(remaining@.subrange(0, remaining@.len() as int) == remaining@);
            }
            let ghost offered = choices@;
            assert(!slot_available ==> offered.len() == 0);
            let _ = Self::extend_with_potion_actions(pps, false, &mut choices);
            choices.push(Choice::Skip);
            let ghost actions = potion_actions(pps.potions@, false);
            proof {
                lemma_potion_actions_name_held(pps.potions@, false);
            }
            let prompt = if count > 1 { Prompt::ChooseNext } else { Prompt::ChooseOne };
            let ghost all = choices@;
            assert(all == (offered + actions).push(Choice::Skip));
            assert(all =~= potion_offer(remaining@, pps.potions@));
            proof {
                if comms.sent().len() == s0.len() {
                    if slot_available {
                        assert(offered == potion_choices@.map_values(|p: Potion| Choice::ObtainPotion(p)));
                    }
                    assert(all =~= potion_offer(potion_choices@, old(pps).potions@));
                }
            }
            let ghost before_prompt = comms.sent();
            let ghost cb = *comms;
            let ghost cur_held = pps.potions@;
            let ghost cur_hp = pps.hp;
            let ghost cur_max = pps.hp_max;
            let ghost cur_rem = remaining@;
            let ghost cur_count = count as nat;
            let ghost q = (round_prompt(cur_count), all);
            let prompted = comms.prompt_for_index(prompt, copy_choices(&choices));
            proof {
                let after = comms.sent();
                assert(sent_after(before_prompt, after)) by {
                    assert(after.subrange(0, before_prompt.len() as int) =~= before_prompt);
                }
                lemma_sent_after_trans(s0, before_prompt, after);
                if before_prompt.len() == s0.len() {
                    assert(after.subrange(0, s0.len() as int + 1) =~= after);
                }
                lemma_question_added(before_prompt, after, prompt, all);
                assert(prompt == round_prompt(cur_count));
            }
            let index = match prompted {
                Ok(i) => i,
                Err(e) => {
                    proof {
                        if e == StsError::InvalidChoice {
                            let a = comms.received().last();
                            assert(new_answers(c0, *comms) =~= new_answers(c0, cb).push(a));
                            lemma_potion_last_round(init_held, init_hp, init_max, potion_choices@, choice_count as nat,
                                new_answers(c0, cb), picks, qs, cur_held, cur_hp, cur_max, cur_rem, cur_count, a, Err(e));
                            assert(questions(comms.sent()) =~= questions(s0) + qs.push(q));
                            assert(comms.received().subrange(0, c0.received().len() as int) =~= c0.received());
                        }
                    }
                    return Err(e);
                },
            };
            let ghost a = index;
            let ghost answers_now = new_answers(c0, *comms);
            proof {
                assert(answers_now =~= new_answers(c0, cb).push(a));
                assert(comms.received().subrange(0, c0.received().len() as int) =~= c0.received());
            }
            let choice = choices[index];
            proof {
                if offered.len() <= index < offered.len() + actions.len() {
                    assert(all[index as int] == actions[index - offered.len()]);
                } else if index < offered.len() {
                    assert(all[index as int] == offered[index as int]);
                    assert(offered[index as int] == Choice::ObtainPotion(remaining@[index as int]));
                } else {
                    assert(all[index as int] == Choice::Skip);
                }
            }
            match choice {
                Choice::PotionAction(potion_action) => {
                    proof {
                        assert(offered.len() <= index < offered.len() + actions.len());
                        lemma_held_count_empty_slot(pps.potions@, action_slot(potion_action) as int);
                    }
                    let ghost before_call = comms.sent();
                    let expended = Self::expend_potion_out_of_combat(comms, pps, &potion_action);
                    proof {
                        assert(sent_after(before_call, comms.sent())) by {
                            assert(comms.sent().subrange(0, before_call.len() as int) =~= before_call);
                        }
                        lemma_sent_after_trans(s0, before_call, comms.sent());
                        lemma_no_questions_added(before_call, comms.sent());
                    }
                    if expended.is_err() {
                        return expended;
                    }
                },
                Choice::ObtainPotion(potion) => {
                    let ghost before = pps.potions@;
                    proof {
                        assert(index < offered.len());
                        assert(remaining@.contains(potion));
                        lemma_first_empty(before, 0);
                        lemma_held_count_fill_slot(before, first_empty(before), potion);
                    }
                    let slot = first_empty_slot(pps);
                    pps.potions.set(slot, Some(potion));
                    let position = potion_position(&remaining, potion);
                    proof {
                        lemma_index_from(remaining@, potion, 0, position as int);
                    }
                    let ghost old_remaining = remaining@;
                    remaining.remove(position);
                    proof {
                        assert forall|k: int| 0 <= k < remaining@.len() implies potion_choices@.contains(#[trigger] remaining@[k]) by {
                            if k < position {
                                assert(remaining@[k] == old_remaining[k]);
                            } else {
                                assert(remaining@[k] == old_remaining[k + 1]);
                            }
                        }
                    }
                    count = count - 1;
                },
                _ => {
                    proof {
                        lemma_potion_last_round(init_held, init_hp, init_max, potion_choices@, choice_count as nat,
                            new_answers(c0, cb), picks, qs, cur_held, cur_hp, cur_max, cur_rem, cur_count, a, Ok(()));
                        assert(questions(comms.sent()) =~= questions(s0) + qs.push(q));
                    }
                    return Ok(());
                },
            }
            let ghost before_call = comms.sent();
            let told = Self::notify_player(comms, pps);
            proof {
                assert(sent_after(before_call, comms.sent())) by {
                    assert(comms.sent().subrange(0, before_call.len() as int) =~= before_call);
                }
                lemma_sent_after_trans(s0, before_call, comms.sent());
                lemma_no_questions_added(before_call, comms.sent());
            }
            if told.is_err() {
                return told;
            }
            proof {
                assert(new_answers(c0, *comms) == answers_now);
                let taken = match choice { Choice::ObtainPotion(p) => seq![p], _ => Seq::<Potion>::empty() };
                lemma_potion_round(init_held, init_hp, init_max, potion_choices@, choice_count as nat,
                    new_answers(c0, cb), picks, qs, cur_held, cur_hp, cur_max, cur_rem, cur_count, a,
                    pps.potions@, pps.hp, pps.hp_max, remaining@, count as nat, taken);
                assert(questions(comms.sent()) =~= questions(s0) + qs.push(q));
                picks = picks + taken;
                qs = qs.push(q);
            }
        }
        proof {
            assert(new_answers(c0, *comms) + Seq::<usize>::empty() =~= new_answers(c0, *comms));
            assert(potion_rounds(init_held, init_hp, init_max, potion_choices@, choice_count as nat,
                new_answers(c0, *comms) + Seq::<usize>::empty()) == with_prefix(picks, qs, potion_rounds(pps.potions@, pps.hp,
                pps.hp_max, remaining@, count as nat, Seq::<usize>::empty())));
            assert(picks + Seq::<Potion>::empty() =~= picks);
            assert(qs + Seq::<(Prompt, Seq<Choice>)>::empty() =~= qs);
        }
        Ok(())
    }
}

/// What choosing potions to obtain comes to: the potion slots, hit points and maximum after
/// it, the potions taken in order, the questions asked in order, and the result.
pub struct PotionOutcome {
    pub held: Seq<Option<Potion>>,
    pub hp: u32,
    pub hp_max: u32,
    pub picks: Seq<Potion>,
    pub asked: Seq<(Prompt, Seq<Choice>)>,
    pub result: Result<(), StsError>,
}

/// The index of the first occurrence of `p` in `s` at or after `i`, or the length when there is
/// none.
pub open spec fn index_from(s: Seq<Potion>, p: Potion, i: int) -> int
    decreases s.len() - i,
{
    if i >= s.len() {
        s.len() as int
    } else if s[i] == p {
        i
    } else {
        index_from(s, p, i + 1)
    }
}

/// The first occurrence found by a scan from `i` is `index_from`.
pub proof fn lemma_index_from(s: Seq<Potion>, p: Potion, i: int, r: int)
    requires
        0 <= i <= r < s.len(),
        s[r] == p,
        forall|k: int| i <= k < r ==> s[k] != p,
    ensures
        index_from(s, p, i) == r,
    decreases r - i,
{
    if i < r {
        lemma_index_from(s, p, i + 1, r);
    }
}

/// The hit points and maximum after a potion action out of combat: Blood Potion heals a fifth
/// of the maximum, Fruit Juice raises both by 5, anything else leaves them.
pub open spec fn health_after(action: PotionAction, hp: u32, hp_max: u32) -> (u32, u32) {
    match action {
        PotionAction::Drink(_, p) => if p == Potion::BloodPotion {
            (spec_min(spec_saturating_add(hp, hp_max / 5), hp_max), hp_max)
        } else if p == Potion::FruitJuice {
            (spec_saturating_add(hp, 5), spec_saturating_add(hp_max, 5))
        } else {
            (hp, hp_max)
        },
        PotionAction::Discard(_, _) => (hp, hp_max),
    }
}

/// The prompt of a round: `ChooseNext` while more than one potion may be taken.
pub open spec fn round_prompt(count: nat) -> Prompt {
    if count > 1 {
        Prompt::ChooseNext
    } else {
        Prompt::ChooseOne
    }
}

/// An outcome after one more round: its potions taken and questions asked come after `picks`
/// and `asked`.
pub open spec fn with_prefix(picks: Seq<Potion>, asked: Seq<(Prompt, Seq<Choice>)>, o: Option<PotionOutcome>) -> Option<PotionOutcome> {
    match o {
        Some(x) => Some(PotionOutcome { picks: picks + x.picks, asked: asked + x.asked, ..x }),
        None => None,
    }
}

/// What choosing potions comes to for the client's `answers`, round after round: while potions
/// remain on offer and `count` may still be taken, the client is asked over `potion_offer`; an
/// answer naming a potion puts it in the first empty slot, takes its first occurrence off the
/// offer and lowers the count; one naming a potion action empties that slot (drinking heals as
/// `health_after` says); Skip ends with `Ok`, and an answer naming no option ends with
/// `InvalidChoice`. `None` when the answers do not fit the rounds (too few or too many).
pub open spec fn potion_rounds(
    held: Seq<Option<Potion>>,
    hp: u32,
    hp_max: u32,
    remaining: Seq<Potion>,
    count: nat,
    answers: Seq<usize>,
) -> Option<PotionOutcome>
    decreases answers.len(),
{
    if !(remaining.len() > 0 && count > 0) {
        if answers.len() == 0 {
            Some(PotionOutcome { held, hp, hp_max, picks: Seq::empty(), asked: Seq::empty(), result: Ok(()) })
        } else {
            None
        }
    } else if answers.len() == 0 {
        None
    } else {
        let offer = potion_offer(remaining, held);
        let q = (round_prompt(count), offer);
        let a = answers[0];
        let rest = answers.drop_first();
        if a >= offer.len() {
            if rest.len() == 0 {
                Some(PotionOutcome { held, hp, hp_max, picks: Seq::empty(), asked: seq![q], result: Err(StsError::InvalidChoice) })
            } else {
                None
            }
        } else {
            match offer[a as int] {
                Choice::ObtainPotion(p) => with_prefix(seq![p], seq![q], potion_rounds(
                    held.update(first_empty(held), Some(p)),
                    hp,
                    hp_max,
                    remaining.remove(index_from(remaining, p, 0)),
                    (count - 1) as nat,
                    rest,
                )),
                Choice::PotionAction(act) => with_prefix(Seq::empty(), seq![q], potion_rounds(
                    held.update(action_slot(act) as int, None),
                    health_after(act, hp, hp_max).0,
                    health_after(act, hp, hp_max).1,
                    remaining,
                    count,
                    rest,
                )),
                _ => if rest.len() == 0 {
                    Some(PotionOutcome { held, hp, hp_max, picks: Seq::empty(), asked: seq![q], result: Ok(()) })
                } else {
                    None
                },
            }
        }
    }
}

/// The potions taken when choosing potions come from the offer, each at most as often as it is
/// offered, and there are at most `count` of them.
pub proof fn law_potions_taken_come_from_the_offer(
    held: Seq<Option<Potion>>,
    hp: u32,
    hp_max: u32,
    remaining: Seq<Potion>,
    count: nat,
    answers: Seq<usize>,
)
    requires
        held.len() <= usize::MAX,
    ensures
        potion_rounds(held, hp, hp_max, remaining, count, answers) matches Some(o) ==> o.picks.to_multiset().subset_of(
            remaining.to_multiset(),
        ) && o.picks.len() <= count,
    decreases answers.len(),
{
    broadcast use vstd::seq_lib::group_to_multiset_ensures, vstd::multiset::group_multiset_axioms;

    if remaining.len() > 0 && count > 0 && answers.len() > 0 {
        let offer = potion_offer(remaining, held);
        let a = answers[0];
        let rest = answers.drop_first();
        if a < offer.len() {
            let slot_offer = if has_empty_slot(held) { remaining.map_values(|p: Potion| Choice::ObtainPotion(p)) } else { Seq::empty() };
            let actions = potion_actions(held, false);
            lemma_potion_actions_name_held(held, false);
            assert(offer == (slot_offer + actions).push(Choice::Skip));
            if let Choice::ObtainPotion(p) = offer[a as int] {
                if a >= slot_offer.len() {
                    if a < slot_offer.len() + actions.len() {
                        assert(offer[a as int] == actions[a - slot_offer.len()]);
                    } else {
                        assert(offer[a as int] == Choice::Skip);
                    }
                }
                assert(a < slot_offer.len());
                assert(offer[a as int] == slot_offer[a as int]);
                assert(remaining[a as int] == p);
                let i = index_from(remaining, p, 0);
                lemma_index_from_found(remaining, p, 0, a as int);
                let rem = remaining.remove(i);
                lemma_first_empty(held, 0);
                let next_held = held.update(first_empty(held), Some(p));
                law_potions_taken_come_from_the_offer(next_held, hp, hp_max, rem, (count - 1) as nat, rest);
                if let Some(x) = potion_rounds(next_held, hp, hp_max, rem, (count - 1) as nat, rest) {
                    vstd::seq_lib::lemma_multiset_commutative(seq![p], x.picks);
                    assert(seq![p] =~= Seq::<Potion>::empty().push(p));
                    assert(rem.to_multiset() == remaining.to_multiset().remove(p));
                    assert(remaining.to_multiset().count(p) > 0);
                    assert((seq![p] + x.picks).to_multiset().subset_of(remaining.to_multiset())) by {
                        assert forall|v: Potion| (seq![p] + x.picks).to_multiset().count(v) <= remaining.to_multiset().count(v) by {
                            assert(x.picks.to_multiset().count(v) <= rem.to_multiset().count(v));
                        }
                    }
                }
            } else if let Choice::PotionAction(act) = offer[a as int] {
                let (x, y) = health_after(act, hp, hp_max);
                law_potions_taken_come_from_the_offer(held.update(action_slot(act) as int, None), x, y, remaining, count, rest);
                if let Some(o) = potion_rounds(held.update(action_slot(act) as int, None), x, y, remaining, count, rest) {
                    assert(Seq::<Potion>::empty() + o.picks =~= o.picks);
                }
            }
        }
    }
}

/// One more round, in which the client picked a potion or a potion action: what the answers so
/// far come to, followed by any further answers, is what the rounds from the state after it
/// come to, after the potions taken and questions asked so far.
proof fn lemma_potion_round(
    held0: Seq<Option<Potion>>, hp0: u32, max0: u32, rem0: Seq<Potion>, count0: nat,
    done: Seq<usize>, picks: Seq<Potion>, qs: Seq<(Prompt, Seq<Choice>)>,
    held: Seq<Option<Potion>>, hp: u32, max: u32, rem: Seq<Potion>, count: nat,
    a: usize,
    held2: Seq<Option<Potion>>, hp2: u32, max2: u32, rem2: Seq<Potion>, count2: nat, taken: Seq<Potion>,
)
    requires
        forall|rest: Seq<usize>| #[trigger] potion_rounds(held0, hp0, max0, rem0, count0, done + rest)
            == with_prefix(picks, qs, potion_rounds(held, hp, max, rem, count, rest)),
        rem.len() > 0 && count > 0,
        a < potion_offer(rem, held).len(),
        potion_offer(rem, held)[a as int] matches Choice::ObtainPotion(p) ==> held2 == held.update(first_empty(held), Some(p))
            && hp2 == hp && max2 == max && rem2 == rem.remove(index_from(rem, p, 0)) && count2 == count - 1 && taken == seq![p],
        potion_offer(rem, held)[a as int] matches Choice::PotionAction(act) ==> held2 == held.update(action_slot(act) as int, None)
            && hp2 == health_after(act, hp, max).0 && max2 == health_after(act, hp, max).1 && rem2 == rem && count2 == count
            && taken == Seq::<Potion>::empty(),
        potion_offer(rem, held)[a as int] is ObtainPotion || potion_offer(rem, held)[a as int] is PotionAction,
    ensures
        forall|rest: Seq<usize>| #[trigger] potion_rounds(held0, hp0, max0, rem0, count0, done.push(a) + rest)
            == with_prefix(picks + taken, qs.push((round_prompt(count), potion_offer(rem, held))),
                potion_rounds(held2, hp2, max2, rem2, count2, rest)),
{
    let q = (round_prompt(count), potion_offer(rem, held));
    assert forall|rest: Seq<usize>| #[trigger] potion_rounds(held0, hp0, max0, rem0, count0, done.push(a) + rest)
        == with_prefix(picks + taken, qs.push(q), potion_rounds(held2, hp2, max2, rem2, count2, rest)) by {
        let longer = seq![a] + rest;
        assert(done + longer =~= done.push(a) + rest);
        assert(longer[0] == a);
        assert(longer.drop_first() =~= rest);
        assert(potion_rounds(held, hp, max, rem, count, longer) == with_prefix(taken, seq![q],
            potion_rounds(held2, hp2, max2, rem2, count2, rest)));
        if let Some(x) = potion_rounds(held2, hp2, max2, rem2, count2, rest) {
            assert(picks + (taken + x.picks) =~= (picks + taken) + x.picks);
            assert(qs + (seq![q] + x.asked) =~= qs.push(q) + x.asked);
        }
    }
}

/// A last round, in which the client skipped or named no option.
proof fn lemma_potion_last_round(
    held0: Seq<Option<Potion>>, hp0: u32, max0: u32, rem0: Seq<Potion>, count0: nat,
    done: Seq<usize>, picks: Seq<Potion>, qs: Seq<(Prompt, Seq<Choice>)>,
    held: Seq<Option<Potion>>, hp: u32, max: u32, rem: Seq<Potion>, count: nat,
    a: usize, result: Result<(), StsError>,
)
    requires
        forall|rest: Seq<usize>| #[trigger] potion_rounds(held0, hp0, max0, rem0, count0, done + rest)
            == with_prefix(picks, qs, potion_rounds(held, hp, max, rem, count, rest)),
        rem.len() > 0 && count > 0,
        a >= potion_offer(rem, held).len() ==> result == Err::<(), StsError>(StsError::InvalidChoice),
        a < potion_offer(rem, held).len() ==> potion_offer(rem, held)[a as int] == Choice::Skip && result == Ok::<(), StsError>(()),
    ensures
        potion_rounds(held0, hp0, max0, rem0, count0, done.push(a)) == Some(PotionOutcome {
            held, hp, hp_max: max, picks, asked: qs.push((round_prompt(count), potion_offer(rem, held))), result }),
{
    let q = (round_prompt(count), potion_offer(rem, held));
    let one = seq![a];
    assert(done + one =~= done.push(a));
    assert(one.drop_first() =~= Seq::<usize>::empty());
    assert(potion_rounds(held, hp, max, rem, count, one) == Some(PotionOutcome {
        held, hp, hp_max: max, picks: Seq::empty(), asked: seq![q], result }));
    assert(picks + Seq::<Potion>::empty() =~= picks);
    assert(qs + seq![q] =~= qs.push(q));
}

/// A scan from `i` finds an occurrence at or before any known one.
proof fn lemma_index_from_found(s: Seq<Potion>, p: Potion, i: int, r: int)
    requires
        0 <= i <= r < s.len(),
        s[r] == p,
    ensures
        i <= index_from(s, p, i) <= r,
        s[index_from(s, p, i)] == p,
    decreases r - i,
{
    if i < r && s[i] != p {
        lemma_index_from_found(s, p, i + 1, r);
    }
}

/// The prompt when choosing among potions: `ChooseNext` while more than one may be taken.
pub open spec fn count_prompt(choice_count: usize) -> Prompt {
    if choice_count > 1 {
        Prompt::ChooseNext
    } else {
        Prompt::ChooseOne
    }
}

/// The options offered when choosing potions: the potions when a slot is empty, the actions on
/// the potions held, and Skip.
pub open spec fn potion_offer(offered: Seq<Potion>, held: Seq<Option<Potion>>) -> Seq<Choice> {
    ((if has_empty_slot(held) { offered.map_values(|p: Potion| Choice::ObtainPotion(p)) } else { Seq::empty() })
        + potion_actions(held, false)).push(Choice::Skip)
}

/// A slot afterwards holds nothing, what it held before, or one of the potions offered.
pub open spec fn kept_or_offered(now: Option<Potion>, before: Option<Potion>, offered: Seq<Potion>) -> bool {
    now is None || now == before || (now matches Some(p) && offered.contains(p))
}

/// What an action does to the player's health: Blood Potion heals a fifth of the maximum,
/// Fruit Juice raises the maximum and the hit points by 5, anything else leaves them.
pub open spec fn potion_action_health(action: PotionAction, before: &PlayerPersistentState, after: &PlayerPersistentState) -> bool {
    match action {
        PotionAction::Drink(_, p) => if p == Potion::BloodPotion {
            after.hp == spec_min(spec_saturating_add(before.hp, before.hp_max / 5), before.hp_max) && after.hp_max == before.hp_max
        } else if p == Potion::FruitJuice {
            after.hp == spec_saturating_add(before.hp, 5) && after.hp_max == spec_saturating_add(before.hp_max, 5)
        } else {
            after.hp == before.hp && after.hp_max == before.hp_max
        },
        PotionAction::Discard(_, _) => after.hp == before.hp && after.hp_max == before.hp_max,
    }
}

/// The first empty slot.
fn first_empty_slot(pps: &PlayerPersistentState) -> (r: usize)
    requires
        has_empty_slot(pps.potions@),
    ensures
        r as int == first_empty(pps.potions@),
        r < pps.potions@.len(),
        pps.potions@[r as int] is None,
{
    proof {
        lemma_first_empty(pps.potions@, 0);
    }
    let mut i: usize = 0;
    while i < pps.potions.len()
        invariant
            i <= pps.potions@.len(),
            first_empty(pps.potions@) == first_empty_from(pps.potions@, i as int),
            has_empty_slot(pps.potions@),
            forall|k: int| 0 <= k < i ==> pps.potions@[k] is Some,
        decreases pps.potions@.len() - i,
    {
        if pps.potions[i].is_none() {
            return i;
        }
        i = i + 1;
    }
    proof {
        let k = choose|k: int| 0 <= k < pps.potions@.len() && pps.potions@[k] is None;
    }
    i
}

/// The first position of `potion` in `pool`, which holds it.
fn potion_position(pool: &Vec<Potion>, potion: Potion) -> (r: usize)
    requires
        pool@.contains(potion),
    ensures
        r < pool@.len(),
        pool@[r as int] == potion,
        forall|k: int| 0 <= k < r ==> pool@[k] != potion,
{
    let mut i: usize = 0;
    while i < pool.len()
        invariant
            i <= pool@.len(),
            pool@.contains(potion),
            forall|k: int| 0 <= k < i ==> pool@[k] != potion,
        decreases pool@.len() - i,
    {
        if pool[i] == potion {
            return i;
        }
        i = i + 1;
    }
    i
}

/// A copy of the potions.
fn slice_copy(potions: &[Potion]) -> (r: Vec<Potion>)
    ensures
        r@ == potions@,
{
    let mut r: Vec<Potion> = Vec::new();
    let mut i: usize = 0;
    while i < potions.len()
        invariant
            i <= potions@.len(),
            r@ == potions@.subrange(0, i as int),
        decreases potions@.len() - i,
    {
        r.push(potions[i]);
        i = i + 1;
    }
    r
}

/// A copy of the choices.
fn copy_choices(choices: &Vec<Choice>) -> (r: Vec<Choice>)
    ensures
        r@ == choices@,
{
    crate::player::message::copy_vec(choices)
}

} // verus!
