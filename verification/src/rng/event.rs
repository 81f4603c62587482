use vstd::prelude::*;

use crate::data::{
    one_time_events, spec_act_event_pool, spec_act_shrine_pool, spec_card_type, spec_one_time_events, Act, Card,
    CardType, Event, Relic, Room,
};
use crate::player::message::copy_vec;
use crate::types::{Floor, Gold, Health};

use super::precision::{lemma_round_sum_within_cap, probability_cap, round_single, single_round};
use super::seed::Seed;
use super::sts::{
    draw_budget, lemma_bounded_draw_below, lemma_weighted_pick_in_range, range_draw, rng_step, seeded_state,
    weighted_pick, RngState, StsRandom,
};

verus! {

/// The weight of the shrines and one-time events against the act's events: 0.25, in units of
/// 2^-32.
pub const SHRINE_PROBABILITY: u64 = 0x4000_0000;

/// The weight of the act's events: 0.75, in units of 2^-32.
pub const EVENT_PROBABILITY: u64 = 0xC000_0000;

/// The starting probability of a monster room, and its rise after every other room: 0.1 as a
/// single-precision float holds it, in units of 2^-32.
pub const MONSTER_ROOM_STEP: u64 = 429496736;

/// The starting probability of a shop, and its rise: 0.03 as a single-precision float holds it.
pub const SHOP_STEP: u64 = 128849016;

/// The starting probability of a treasure room, and its rise: 0.02 as a single-precision float
/// holds it.
pub const TREASURE_STEP: u64 = 85899344;

/// The weight of an event room, last of the four: 1.
pub const EVENT_ROOM_WEIGHT: u64 = 0x1_0000_0000;

/// What a "?" room turns out to be, and which event it holds: the room kinds have
/// probabilities that rise each time another kind comes up and drop back when theirs does;
/// events come from the act's events or, a quarter of the time, from the shrines and the
/// one-time events, and an event seen once is not seen again.
pub struct EventGenerator {
    pub act: Act,
    pub monster_room_probability: u64,
    pub shop_probability: u64,
    pub treasure_room_probability: u64,
    pub event_rng: StsRandom,
    pub event_pool: Vec<Event>,
    pub shrine_pool: Vec<Event>,
    pub one_time_event_pool: Vec<Event>,
}

/// A probability raised by `step`, with single-precision rounding.
pub open spec fn raised(p: u64, step: u64) -> u64 {
    single_round((p + step) as nat) as u64
}

/// The room that a raw draw picks, by the current probabilities: monster, shop and treasure
/// take their probabilities off the draw in this order, and what is left is an event.
pub open spec fn drawn_room(monster: u64, shop: u64, treasure: u64, raw: u64) -> Room {
    seq![Room::Monster, Room::Shop, Room::Treasure, Room::Event][weighted_pick(
        seq![monster, shop, treasure, EVENT_ROOM_WEIGHT],
        ((raw >> 40u64) * 256) as int,
        0,
    )]
}

/// The probabilities of a monster room, a shop and a treasure room after `room`: the one that
/// came up drops back to its start, the others rise.
pub open spec fn probabilities_after(room: Room, monster: u64, shop: u64, treasure: u64) -> (u64, u64, u64) {
    if room == Room::Monster {
        (MONSTER_ROOM_STEP, raised(shop, SHOP_STEP), raised(treasure, TREASURE_STEP))
    } else if room == Room::Shop {
        (raised(monster, MONSTER_ROOM_STEP), SHOP_STEP, raised(treasure, TREASURE_STEP))
    } else if room == Room::Treasure {
        (raised(monster, MONSTER_ROOM_STEP), raised(shop, SHOP_STEP), TREASURE_STEP)
    } else {
        (raised(monster, MONSTER_ROOM_STEP), raised(shop, SHOP_STEP), raised(treasure, TREASURE_STEP))
    }
}

/// Whether an event may come up in act `act` on floor `floor`, given the deck, the gold, the
/// health and the relics.
pub open spec fn event_allowed(
    act: u8,
    event: Event,
    floor: Floor,
    deck: Seq<Card>,
    gold: Gold,
    health: Health,
    relics: Seq<Relic>,
) -> bool {
    match event {
        Event::DeadAdventurer => floor >= 7,
        Event::DesignerInSpire => act > 1 && health.0 > 3,
        Event::Duplicator => act > 1 && deck.len() >= 5,
        Event::FaceTrader => act < 3,
        Event::HypnotizingColoredMushrooms => floor >= 7,
        Event::KnowingSkull => act == 2 && health.0 >= 13,
        Event::Nloth => act == 2 && relics.len() >= 2,
        Event::OldBeggar => gold >= 75,
        Event::SecretPortal => false,
        Event::TheCleric => gold >= 35,
        Event::TheColosseum => floor - (act - 1) * 17 >= 7,
        Event::TheDivineFountain => exists|i: int| 0 <= i < deck.len() && spec_card_type(#[trigger] deck[i]) == CardType::Curse,
        Event::TheJoust => act == 2 && gold >= 50,
        Event::TheMoaiHead => health.0 <= health.1 / 2,
        Event::TheWomanInBlue => gold >= 20,
        _ => true,
    }
}

/// The events of `pool` that may come up, in order.
pub open spec fn allowed_events(
    pool: Seq<Event>,
    act: u8,
    floor: Floor,
    deck: Seq<Card>,
    gold: Gold,
    health: Health,
    relics: Seq<Relic>,
) -> Seq<Event> {
    pool.filter(|e: Event| event_allowed(act, e, floor, deck, gold, health, relics))
}

/// Whether the draw `raw` takes the event from the shrines and one-time events.
pub open spec fn shrine_drawn(raw: u64) -> bool {
    ((raw >> 40u64) * 256) as int <= SHRINE_PROBABILITY as int
}

/// The event chosen with a generator in state `st`: one draw picks the shrines (a quarter of
/// the time) or the act's events, a second picks the event.
pub open spec fn chosen_event(st: RngState, shrines: Seq<Event>, events: Seq<Event>) -> Event {
    let (next, raw) = rng_step(st);
    let pool = if shrine_drawn(raw) {
        shrines
    } else {
        events
    };
    pool[range_draw(next, 0, pool.len() as u64).1 as int]
}

/// Whether the pool that the draw from `st` picks has an event to choose.
pub open spec fn chosen_pool_nonempty(st: RngState, shrines: Seq<Event>, events: Seq<Event>) -> bool {
    if shrine_drawn(rng_step(st).1) {
        shrines.len() > 0
    } else {
        events.len() > 0
    }
}

/// The pool without `e`.
pub open spec fn without(pool: Seq<Event>, e: Event) -> Seq<Event> {
    pool.filter(|x: Event| x != e)
}

impl EventGenerator {
    /// The act is one of the four, and the probabilities stay under the cap.
    pub open spec fn wf(&self) -> bool {
        &&& 1 <= self.act.number <= 4
        &&& self.monster_room_probability <= probability_cap()
        &&& self.shop_probability <= probability_cap()
        &&& self.treasure_room_probability <= probability_cap()
    }

    /// The shrines and one-time events that may come up, in order.
    pub open spec fn allowed_shrines(&self, floor: Floor, deck: Seq<Card>, gold: Gold, health: Health, relics: Seq<Relic>) -> Seq<Event> {
        allowed_events(self.shrine_pool@ + self.one_time_event_pool@, self.act.number, floor, deck, gold, health, relics)
    }

    /// The act's events that may come up, in order.
    pub open spec fn allowed_act_events(&self, floor: Floor, deck: Seq<Card>, gold: Gold, health: Health, relics: Seq<Relic>) -> Seq<Event> {
        allowed_events(self.event_pool@, self.act.number, floor, deck, gold, health, relics)
    }

    /// The room that the next draw picks.
    pub open spec fn next_room(&self) -> Room {
        drawn_room(
            self.monster_room_probability,
            self.shop_probability,
            self.treasure_room_probability,
            rng_step(self.event_rng@).1,
        )
    }

    /// Whether the next room can be drawn: when it is an event, the Colosseum (in any pool) is
    /// looked at only from the act's first floor on, and the pool drawn has an event left.
    pub open spec fn next_event_defined(&self, floor: Floor, deck: Seq<Card>, gold: Gold, health: Health, relics: Seq<Relic>) -> bool {
        self.next_room() == Room::Event ==> {
            &&& (self.event_pool@ + self.shrine_pool@ + self.one_time_event_pool@).contains(Event::TheColosseum)
                ==> floor >= (self.act.number - 1) * 17
            &&& chosen_pool_nonempty(
                rng_step(self.event_rng@).0,
                self.allowed_shrines(floor, deck, gold, health, relics),
                self.allowed_act_events(floor, deck, gold, health, relics),
            )
        }
    }

    /// The generator of a run: act 1, its events and shrines, the one-time events, and the
    /// starting probabilities.
    pub fn new(seed: Seed) -> (r: EventGenerator)
        ensures
            r.wf(),
            r.act.number == 1,
            r.event_rng@ == seeded_state(seed.value),
            r.monster_room_probability == MONSTER_ROOM_STEP,
            r.shop_probability == SHOP_STEP,
            r.treasure_room_probability == TREASURE_STEP,
            r.event_pool@ == spec_act_event_pool(1),
            r.shrine_pool@ == spec_act_shrine_pool(1),
            r.one_time_event_pool@ == spec_one_time_events(),
    {
        let act = Act::get(1);
        EventGenerator {
            act,
            monster_room_probability: MONSTER_ROOM_STEP,
            shop_probability: SHOP_STEP,
            treasure_room_probability: TREASURE_STEP,
            event_rng: StsRandom::from_seed(seed.value),
            event_pool: act.event_pool(),
            shrine_pool: act.shrine_pool(),
            one_time_event_pool: one_time_events(),
        }
    }

    /// Moves on to the next act: its events and shrines, and the starting probabilities. The
    /// one-time events seen stay seen.
    pub fn advance_act(&mut self)
        requires
            old(self).wf(),
            old(self).act.number < 4,
        ensures
            final(self).wf(),
            final(self).act.number == old(self).act.number + 1,
            final(self).event_rng@ == old(self).event_rng@,
            final(self).monster_room_probability == MONSTER_ROOM_STEP,
            final(self).shop_probability == SHOP_STEP,
            final(self).treasure_room_probability == TREASURE_STEP,
            final(self).event_pool@ == spec_act_event_pool(final(self).act.number),
            final(self).shrine_pool@ == spec_act_shrine_pool(final(self).act.number),
            final(self).one_time_event_pool@ == old(self).one_time_event_pool@,
    {
        self.act = self.act.next_act();
        self.event_pool = self.act.event_pool();
        self.shrine_pool = self.act.shrine_pool();
        self.monster_room_probability = MONSTER_ROOM_STEP;
        self.shop_probability = SHOP_STEP;
        self.treasure_room_probability = TREASURE_STEP;
    }

    /// Whether `event` may come up now (see `event_allowed`).
    fn filter_event(&self, event: Event, floor: Floor, deck: &[Card], gold: Gold, health: Health, relics: &[Relic]) -> (r: bool)
        requires
            1 <= self.act.number <= 4,
            event == Event::TheColosseum ==> floor >= (self.act.number - 1) * 17,
        ensures
            r == event_allowed(self.act.number, event, floor, deck@, gold, health, relics@),
    {
        let act = self.act.number;
        match event {
            Event::DeadAdventurer => floor >= 7,
            Event::DesignerInSpire => act > 1 && health.0 > 3,
            Event::Duplicator => act > 1 && deck.len() >= 5,
            Event::FaceTrader => act < 3,
            Event::HypnotizingColoredMushrooms => floor >= 7,
            Event::KnowingSkull => act == 2 && health.0 >= 13,
            Event::Nloth => act == 2 && relics.len() >= 2,
            Event::OldBeggar => gold >= 75,
            Event::SecretPortal => false,
            Event::TheCleric => gold >= 35,
            Event::TheColosseum => floor - (act as u64 - 1) * 17 >= 7,
            Event::TheDivineFountain => {
                let mut i: usize = 0;
                while i < deck.len()
                    invariant
                        i <= deck@.len(),
                        event == Event::TheDivineFountain,
                        forall|k: int| 0 <= k < i ==> spec_card_type(#[trigger] deck@[k]) != CardType::Curse,
                    decreases deck@.len() - i,
                {
                    if deck[i].is_curse() {
                        assert(spec_card_type(deck@[i as int]) == CardType::Curse);
                        return true;
                    }
                    i = i + 1;
                }
                false
            },
            Event::TheJoust => act == 2 && gold >= 50,
            Event::TheMoaiHead => health.0 <= health.1 / 2,
            Event::TheWomanInBlue => gold >= 20,
            _ => true,
        }
    }

    /// The events of `pool` that may come up now, in order.
    fn allowed_from(&self, pool: &Vec<Event>, floor: Floor, deck: &[Card], gold: Gold, health: Health, relics: &[Relic]) -> (r: Vec<Event>)
        requires
            1 <= self.act.number <= 4,
            pool@.contains(Event::TheColosseum) ==> floor >= (self.act.number - 1) * 17,
        ensures
            r@ == allowed_events(pool@, self.act.number, floor, deck@, gold, health, relics@),
    {
        let mut kept: Vec<Event> = Vec::new();
        let mut i: usize = 0;
        while i < pool.len()
            invariant
                i <= pool@.len(),
                1 <= self.act.number <= 4,
                pool@.contains(Event::TheColosseum) ==> floor >= (self.act.number - 1) * 17,
                kept@ == allowed_events(pool@.subrange(0, i as int), self.act.number, floor, deck@, gold, health, relics@),
            decreases pool@.len() - i,
        {
            let e = pool[i];
            proof {
                let s = pool@.subrange(0, i as int + 1);
                assert(s.drop_last() == pool@.subrange(0, i as int));
                assert(s.last() == e);
                reveal_with_fuel(Seq::filter, 1);
                if e == Event::TheColosseum {
                    assert(pool@.contains(e));
                }
            }
            if self.filter_event(e, floor, deck, gold, health, relics) {
                kept.push(e);
            }
            i = i + 1;
        }
        assert(pool@.subrange(0, pool@.len() as int) == pool@);
        kept
    }

    /// Draws what the next "?" room is and, for an event room, its event; the probabilities
    /// and the pools are updated. On floor `floor`, with the player's deck, gold, health and
    /// relics.
    pub fn next_event(&mut self, floor: Floor, deck: &[Card], gold: Gold, health: Health, relics: &[Relic]) -> (r: (Room, Option<Event>))
        requires
            old(self).wf(),
            old(self).next_event_defined(floor, deck@, gold, health, relics@),
        ensures
            final(self).wf(),
            final(self).act == old(self).act,
            final(self).event_rng@ == rng_step(old(self).event_rng@).0,
            r.0 == old(self).next_room(),
            (final(self).monster_room_probability, final(self).shop_probability, final(self).treasure_room_probability)
                == probabilities_after(
                r.0,
                old(self).monster_room_probability,
                old(self).shop_probability,
                old(self).treasure_room_probability,
            ),
            r.0 == Room::Event ==> {
                let e = chosen_event(
                    rng_step(old(self).event_rng@).0,
                    old(self).allowed_shrines(floor, deck@, gold, health, relics@),
                    old(self).allowed_act_events(floor, deck@, gold, health, relics@),
                );
                &&& r.1 == Some(e)
                &&& final(self).event_pool@ == without(old(self).event_pool@, e)
                &&& final(self).shrine_pool@ == without(old(self).shrine_pool@, e)
                &&& final(self).one_time_event_pool@ == without(old(self).one_time_event_pool@, e)
            },
            r.0 != Room::Event ==> {
                &&& r.1 is None
                &&& final(self).event_pool@ == old(self).event_pool@
                &&& final(self).shrine_pool@ == old(self).shrine_pool@
                &&& final(self).one_time_event_pool@ == old(self).one_time_event_pool@
            },
    {
        let choices = vec![
            (Room::Monster, self.monster_room_probability),
            (Room::Shop, self.shop_probability),
            (Room::Treasure, self.treasure_room_probability),
            (Room::Event, EVENT_ROOM_WEIGHT),
        ];
        let ghost start = self.event_rng@;
        let room = self.event_rng.weighted_choose(choices.as_slice());
        proof {
            let ws = choices@.map_values(|c: (Room, u64)| c.1);
            let x = ((rng_step(start).1 >> 40u64) * 256) as int;
            assert(ws =~= seq![
                self.monster_room_probability,
                self.shop_probability,
                self.treasure_room_probability,
                EVENT_ROOM_WEIGHT,
            ]);
            lemma_weighted_pick_in_range(ws, x, 0);
            let k = weighted_pick(ws, x, 0);
            assert(choices@[k].0 == seq![Room::Monster, Room::Shop, Room::Treasure, Room::Event][k]);
            lemma_round_sum_within_cap(self.monster_room_probability as nat, MONSTER_ROOM_STEP as nat);
            lemma_round_sum_within_cap(self.shop_probability as nat, SHOP_STEP as nat);
            lemma_round_sum_within_cap(self.treasure_room_probability as nat, TREASURE_STEP as nat);
        }
        let mut event_rng_clone = self.event_rng.copy();
        if room == Room::Monster {
            self.monster_room_probability = MONSTER_ROOM_STEP;
            self.shop_probability = round_single(self.shop_probability + SHOP_STEP);
            self.treasure_room_probability = round_single(self.treasure_room_probability + TREASURE_STEP);
            (room, None)
        } else if room == Room::Shop {
            self.monster_room_probability = round_single(self.monster_room_probability + MONSTER_ROOM_STEP);
            self.shop_probability = SHOP_STEP;
            self.treasure_room_probability = round_single(self.treasure_room_probability + TREASURE_STEP);
            (room, None)
        } else if room == Room::Treasure {
            self.monster_room_probability = round_single(self.monster_room_probability + MONSTER_ROOM_STEP);
            self.shop_probability = round_single(self.shop_probability + SHOP_STEP);
            self.treasure_room_probability = TREASURE_STEP;
            (room, None)
        } else {
            self.monster_room_probability = round_single(self.monster_room_probability + MONSTER_ROOM_STEP);
            self.shop_probability = round_single(self.shop_probability + SHOP_STEP);
            self.treasure_room_probability = round_single(self.treasure_room_probability + TREASURE_STEP);
            proof {
                let all = old(self).event_pool@ + old(self).shrine_pool@ + old(self).one_time_event_pool@;
                if self.event_pool@.contains(Event::TheColosseum) {
                    let k = choose|k: int| 0 <= k < self.event_pool@.len() && self.event_pool@[k] == Event::TheColosseum;
                    assert(all[k] == Event::TheColosseum);
                }
            }
            let event_pool = self.allowed_from(&self.event_pool, floor, deck, gold, health, relics);
            let mut combined = copy_vec(&self.shrine_pool);
            let mut one_time = copy_vec(&self.one_time_event_pool);
            combined.append(&mut one_time);
            proof {
                let all = old(self).event_pool@ + old(self).shrine_pool@ + old(self).one_time_event_pool@;
                if combined@.contains(Event::TheColosseum) {
                    let k = choose|k: int| 0 <= k < combined@.len() && combined@[k] == Event::TheColosseum;
                    assert(all[old(self).event_pool@.len() + k] == Event::TheColosseum);
                }
            }
            let shrine_and_special_pool = self.allowed_from(&combined, floor, deck, gold, health, relics);
            let pools = vec![(true, SHRINE_PROBABILITY), (false, EVENT_PROBABILITY)];
            let ghost clone_start = event_rng_clone@;
            let from_shrines = event_rng_clone.weighted_choose(pools.as_slice());
            proof {
                let ws = pools@.map_values(|c: (bool, u64)| c.1);
                assert(ws.len() == 2);
                assert(ws[0] == SHRINE_PROBABILITY);
                reveal_with_fuel(weighted_pick, 3);
            }
            let choice = if from_shrines {
                *event_rng_clone.choose_element(shrine_and_special_pool.as_slice())
            } else {
                *event_rng_clone.choose_element(event_pool.as_slice())
            };
            self.event_pool = without_event(&self.event_pool, choice);
            self.shrine_pool = without_event(&self.shrine_pool, choice);
            self.one_time_event_pool = without_event(&self.one_time_event_pool, choice);
            (Room::Event, Some(choice))
        }
    }
}

/// An event, once drawn, is in none of the pools any more: no event comes up twice.
pub proof fn law_drawn_event_leaves_pool(pool: Seq<Event>, e: Event)
    ensures
        !without(pool, e).contains(e),
{
    broadcast use vstd::seq_lib::group_filter_ensures;

    let kept = without(pool, e);
    if kept.contains(e) {
        let k = choose|k: int| 0 <= k < kept.len() && kept[k] == e;
        assert((|x: Event| x != e)(kept[k]));
    }
}

/// The event of an event room is one of the events that may come up then, from the shrines
/// and one-time events or from the act's events.
pub proof fn law_drawn_event_is_allowed(
    st: RngState,
    pools: (Seq<Event>, Seq<Event>),
    act: u8,
    floor: Floor,
    deck: Seq<Card>,
    gold: Gold,
    health: Health,
    relics: Seq<Relic>,
)
    requires
        pools.0.len() <= u64::MAX,
        pools.1.len() <= u64::MAX,
        chosen_pool_nonempty(
            st,
            allowed_events(pools.0, act, floor, deck, gold, health, relics),
            allowed_events(pools.1, act, floor, deck, gold, health, relics),
        ),
    ensures
        ({
            let e = chosen_event(
                st,
                allowed_events(pools.0, act, floor, deck, gold, health, relics),
                allowed_events(pools.1, act, floor, deck, gold, health, relics),
            );
            &&& event_allowed(act, e, floor, deck, gold, health, relics)
            &&& pools.0.contains(e) || pools.1.contains(e)
        }),
{
    let shrines = allowed_events(pools.0, act, floor, deck, gold, health, relics);
    let events = allowed_events(pools.1, act, floor, deck, gold, health, relics);
    let pred = |x: Event| event_allowed(act, x, floor, deck, gold, health, relics);
    let (next, raw) = rng_step(st);
    let pool = if shrine_drawn(raw) { shrines } else { events };
    let source = if shrine_drawn(raw) { pools.0 } else { pools.1 };
    broadcast use vstd::seq_lib::group_filter_ensures;

    assert(pool.len() <= source.len());
    lemma_bounded_draw_below(next, pool.len() as u64, draw_budget());
    let i = range_draw(next, 0, pool.len() as u64).1 as int;
    assert(0 <= i < pool.len());
    assert(pool.contains(pool[i]));
    source.lemma_filter_contains_rev(pred, pool[i]);
}

/// The event of an event room meets its gold requirement: an Old Beggar needs 75 gold, the
/// Cleric 35, the Woman in Blue 20, and the Joust 50 (in act 2).
pub proof fn law_drawn_event_meets_its_gold_requirement(
    g: EventGenerator,
    floor: Floor,
    deck: Seq<Card>,
    gold: Gold,
    health: Health,
    relics: Seq<Relic>,
)
    requires
        g.next_event_defined(floor, deck, gold, health, relics),
        g.next_room() == Room::Event,
        g.shrine_pool@.len() + g.one_time_event_pool@.len() <= u64::MAX,
        g.event_pool@.len() <= u64::MAX,
    ensures
        ({
            let e = chosen_event(
                rng_step(g.event_rng@).0,
                g.allowed_shrines(floor, deck, gold, health, relics),
                g.allowed_act_events(floor, deck, gold, health, relics),
            );
            &&& e == Event::OldBeggar ==> gold >= 75
            &&& e == Event::TheCleric ==> gold >= 35
            &&& e == Event::TheWomanInBlue ==> gold >= 20
            &&& e == Event::TheJoust ==> gold >= 50 && g.act.number == 2
        }),
{
    law_drawn_event_is_allowed(
        rng_step(g.event_rng@).0,
        (g.shrine_pool@ + g.one_time_event_pool@, g.event_pool@),
        g.act.number,
        floor,
        deck,
        gold,
        health,
        relics,
    );
}

/// The pool without `e`, in order.
fn without_event(pool: &Vec<Event>, e: Event) -> (r: Vec<Event>)
    ensures
        r@ == without(pool@, e),
{
    let mut kept: Vec<Event> = Vec::new();
    let mut i: usize = 0;
    while i < pool.len()
        invariant
            i <= pool@.len(),
            kept@ == without(pool@.subrange(0, i as int), e),
        decreases pool@.len() - i,
    {
        let x = pool[i];
        proof {
            let s = pool@.subrange(0, i as int + 1);
            assert(s.drop_last() == pool@.subrange(0, i as int));
            assert(s.last() == x);
            reveal_with_fuel(Seq::filter, 1);
        }
        if x != e {
            kept.push(x);
        }
        i = i + 1;
    }
    assert(pool@.subrange(0, pool@.len() as int) == pool@);
    kept
}

} // verus!
