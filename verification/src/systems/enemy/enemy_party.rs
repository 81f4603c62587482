use vstd::prelude::*;

use crate::data::{EnemyType, Encounter};
use crate::rng::seed::Seed;
use crate::rng::sts::{range_draw, rng_step, seeded_state, RngState, StsRandom};
use crate::sim::enemy::coin;

use super::enemy_characteristics::{drawn_characteristics, first_action, gen_characteristics, EnemyCharacteristics};
use super::enemy_state::{spawned_as, EnemyState};

verus! {

/// The enemies of an encounter, in their five slots; an empty slot holds no (living) enemy.
#[derive(Debug)]
pub struct EnemyParty(pub Vec<Option<EnemyState>>);

/// The encounters whose enemies are known.
pub open spec fn is_generated(encounter: Encounter) -> bool {
    encounter is Cultist || encounter is ExordiumWildlife || encounter is GremlinNob || encounter is JawWorm
        || encounter is SmallSlimes
}

/// Whether generating `encounter` stays within the known enemies: in the Exordium Wildlife
/// encounter the coin for the louse must not call for a red one.
pub open spec fn party_can_be_generated(encounter: Encounter, misc: RngState) -> bool {
    &&& is_generated(encounter)
    &&& encounter is ExordiumWildlife ==> !coin(rng_step(range_draw(misc, 0, 2).0).1)
}

/// The enemies of an encounter, with their characteristics, in slot order, and the states of
/// the hit point and miscellaneous generators afterwards.
pub open spec fn party_plan(encounter: Encounter, hp: RngState, misc: RngState) -> (Seq<(EnemyType, EnemyCharacteristics)>, RngState, RngState) {
    match encounter {
        Encounter::SmallSlimes => {
            let (m1, raw) = rng_step(misc);
            let (first, second) = if coin(raw) {
                (EnemyType::SpikeSlimeS, EnemyType::AcidSlimeM)
            } else {
                (EnemyType::AcidSlimeS, EnemyType::SpikeSlimeM)
            };
            let (h1, c1) = drawn_characteristics(first, hp);
            let (h2, c2) = drawn_characteristics(second, h1);
            (seq![(first, c1), (second, c2)], h2, m1)
        },
        Encounter::ExordiumWildlife => {
            let (h1, fungi_beast) = drawn_characteristics(EnemyType::FungiBeast, hp);
            let (h2, jaw_worm) = drawn_characteristics(EnemyType::JawWorm, h1);
            let (m1, choice) = range_draw(misc, 0, 2);
            let first = if choice == 0 { (EnemyType::FungiBeast, fungi_beast) } else { (EnemyType::JawWorm, jaw_worm) };
            let m2 = rng_step(m1).0;
            let (h3, louse) = drawn_characteristics(EnemyType::GreenLouse, h2);
            let (h4, spike_slime) = drawn_characteristics(EnemyType::SpikeSlimeM, h3);
            let (h5, acid_slime) = drawn_characteristics(EnemyType::AcidSlimeM, h4);
            let (m3, choice2) = range_draw(m2, 0, 3);
            let second = if choice2 == 0 {
                (EnemyType::GreenLouse, louse)
            } else if choice2 == 1 {
                (EnemyType::SpikeSlimeM, spike_slime)
            } else {
                (EnemyType::AcidSlimeM, acid_slime)
            };
            (seq![first, second], h5, m3)
        },
        _ => {
            let enemy = match encounter {
                Encounter::Cultist => EnemyType::Cultist,
                Encounter::GremlinNob => EnemyType::GremlinNob,
                _ => EnemyType::JawWorm,
            };
            let (h1, c) = drawn_characteristics(enemy, hp);
            (seq![(enemy, c)], h1, misc)
        },
    }
}

/// The state of the AI generator after the first `n` enemies of the plan have spawned.
pub open spec fn ai_after_spawning(plan: Seq<(EnemyType, EnemyCharacteristics)>, ai: RngState, n: int) -> RngState
    decreases n,
{
    if n <= 0 {
        ai
    } else {
        first_action(plan[n - 1].1, ai_after_spawning(plan, ai, n - 1)).0
    }
}

/// The party holds the planned enemies, spawned in order from `ai`, and empty slots after them.
pub open spec fn holds_plan(party: Seq<Option<EnemyState>>, plan: Seq<(EnemyType, EnemyCharacteristics)>, ai: RngState) -> bool {
    &&& party.len() == 5
    &&& forall|i: int| 0 <= i < plan.len() ==> (#[trigger] party[i] matches Some(s)
            && spawned_as(s, plan[i].0, plan[i].1, ai_after_spawning(plan, ai, i)))
    &&& forall|i: int| plan.len() <= i < 5 ==> #[trigger] party[i] is None
}

/// Draws the characteristics of an enemy and spawns it.
fn spawn(enemy: EnemyType, hp_rng: &mut StsRandom, ai_rng: &mut StsRandom) -> (r: EnemyState)
    requires
        super::enemy_characteristics::has_characteristics(enemy),
    ensures
        (final(hp_rng)@, r.characteristics) == drawn_characteristics(enemy, old(hp_rng)@),
        spawned_as(r, enemy, r.characteristics, old(ai_rng)@),
        final(ai_rng)@ == first_action(r.characteristics, old(ai_rng)@).0,
{
    let characteristics = gen_characteristics(enemy, hp_rng);
    EnemyState::new(enemy, characteristics, ai_rng)
}

/// What generating `encounter` promises: the planned enemies in their slots and the generator
/// states afterwards.
pub open spec fn generated(
    encounter: Encounter,
    party: Seq<Option<EnemyState>>,
    hp: RngState,
    ai: RngState,
    misc: RngState,
    hp_after: RngState,
    ai_after: RngState,
    misc_after: RngState,
) -> bool {
    let (plan, h, m) = party_plan(encounter, hp, misc);
    &&& holds_plan(party, plan, ai)
    &&& ai_after == ai_after_spawning(plan, ai, plan.len() as int)
    &&& misc_after == m
    &&& hp_after == h
}

/// The Exordium Wildlife encounter: a Fungi Beast or a Jaw Worm, then a louse or a medium
/// slime.
pub(crate) fn exordium_wildlife(hp_rng: &mut StsRandom, ai_rng: &mut StsRandom, misc_rng: &mut StsRandom) -> (r: EnemyParty)
    requires
        party_can_be_generated(Encounter::ExordiumWildlife, old(misc_rng)@),
    ensures
        generated(Encounter::ExordiumWildlife, r.0@, old(hp_rng)@, old(ai_rng)@, old(misc_rng)@, final(hp_rng)@, final(ai_rng)@, final(misc_rng)@),
{
    let ghost ai0 = ai_rng@;
    // This encounter draws the characteristics of every candidate, as the game does.
    let fungi_beast = gen_characteristics(EnemyType::FungiBeast, hp_rng);
    let jaw_worm = gen_characteristics(EnemyType::JawWorm, hp_rng);
    let choice = misc_rng.gen_range_inclusive(0, 1);
    let first = if choice == 0 {
        EnemyState::new(EnemyType::FungiBeast, fungi_beast, ai_rng)
    } else {
        EnemyState::new(EnemyType::JawWorm, jaw_worm, ai_rng)
    };
    // The coin chooses the louse; a red louse is ruled out by the precondition.
    let _red = misc_rng.next_bool();
    let louse = gen_characteristics(EnemyType::GreenLouse, hp_rng);
    let spike_slime_m = gen_characteristics(EnemyType::SpikeSlimeM, hp_rng);
    let acid_slime_m = gen_characteristics(EnemyType::AcidSlimeM, hp_rng);
    let choice2 = misc_rng.gen_range_inclusive(0, 2);
    let second = if choice2 == 0 {
        EnemyState::new(EnemyType::GreenLouse, louse, ai_rng)
    } else if choice2 == 1 {
        EnemyState::new(EnemyType::SpikeSlimeM, spike_slime_m, ai_rng)
    } else {
        EnemyState::new(EnemyType::AcidSlimeM, acid_slime_m, ai_rng)
    };
    let r = EnemyParty(vec![Some(first), Some(second), None, None, None]);
    proof {
        let plan = party_plan(Encounter::ExordiumWildlife, old(hp_rng)@, old(misc_rng)@).0;
        assert(r.0@[0] == Some(first));
        assert(r.0@[1] == Some(second));
        reveal_with_fuel(ai_after_spawning, 3);
        assert(ai_after_spawning(plan, ai0, 0) == ai0);
        assert(ai_after_spawning(plan, ai0, 1) == first_action(plan[0].1, ai0).0);
        assert(holds_plan(r.0@, plan, ai0));
    }
    r
}

/// The Small Slimes encounter: a small Spike Slime and a medium Acid Slime, or a small Acid
/// Slime and a medium Spike Slime.
pub(crate) fn small_slimes(hp_rng: &mut StsRandom, ai_rng: &mut StsRandom, misc_rng: &mut StsRandom) -> (r: EnemyParty)
    ensures
        generated(Encounter::SmallSlimes, r.0@, old(hp_rng)@, old(ai_rng)@, old(misc_rng)@, final(hp_rng)@, final(ai_rng)@, final(misc_rng)@),
{
    let ghost ai0 = ai_rng@;
    let (first_enemy, second_enemy) = if misc_rng.next_bool() {
        (EnemyType::SpikeSlimeS, EnemyType::AcidSlimeM)
    } else {
        (EnemyType::AcidSlimeS, EnemyType::SpikeSlimeM)
    };
    let first = spawn(first_enemy, hp_rng, ai_rng);
    let second = spawn(second_enemy, hp_rng, ai_rng);
    let r = EnemyParty(vec![Some(first), Some(second), None, None, None]);
    proof {
        let plan = party_plan(Encounter::SmallSlimes, old(hp_rng)@, old(misc_rng)@).0;
        assert(r.0@[0] == Some(first));
        assert(r.0@[1] == Some(second));
        reveal_with_fuel(ai_after_spawning, 3);
        assert(ai_after_spawning(plan, ai0, 0) == ai0);
        assert(ai_after_spawning(plan, ai0, 1) == first_action(plan[0].1, ai0).0);
        assert(holds_plan(r.0@, plan, ai0));
    }
    r
}

/// An encounter with a single enemy.
pub(crate) fn single_enemy(encounter: Encounter, hp_rng: &mut StsRandom, ai_rng: &mut StsRandom, misc_rng: &StsRandom) -> (r: EnemyParty)
    requires
        encounter is Cultist || encounter is GremlinNob || encounter is JawWorm,
    ensures
        generated(encounter, r.0@, old(hp_rng)@, old(ai_rng)@, misc_rng@, final(hp_rng)@, final(ai_rng)@, misc_rng@),
{
    let ghost ai0 = ai_rng@;
    let enemy = match encounter {
        Encounter::Cultist => EnemyType::Cultist,
        Encounter::GremlinNob => EnemyType::GremlinNob,
        _ => EnemyType::JawWorm,
    };
    let only = spawn(enemy, hp_rng, ai_rng);
    let r = EnemyParty(vec![Some(only), None, None, None, None]);
    proof {
        let plan = party_plan(encounter, old(hp_rng)@, misc_rng@).0;
        reveal_with_fuel(ai_after_spawning, 2);
        assert(r.0@[0] == Some(only));
        assert(holds_plan(r.0@, plan, ai0));
    }
    r
}

impl EnemyParty {
    /// Generates the enemies of `encounter` on the floor with seed `seed_for_floor`: their hit
    /// points come from a generator seeded with it, their first actions from `ai_rng`, and the
    /// random choice of enemies from `misc_rng`.
    pub fn generate(
        seed_for_floor: Seed,
        encounter: Encounter,
        ai_rng: &mut StsRandom,
        misc_rng: &mut StsRandom,
    ) -> (r: EnemyParty)
        requires
            party_can_be_generated(encounter, old(misc_rng)@),
        ensures
            ({
                let (plan, _, misc) = party_plan(encounter, seeded_state(seed_for_floor.value), old(misc_rng)@);
                &&& holds_plan(r.0@, plan, old(ai_rng)@)
                &&& final(ai_rng)@ == ai_after_spawning(plan, old(ai_rng)@, plan.len() as int)
                &&& final(misc_rng)@ == misc
            }),
    {
        let mut hp_rng = StsRandom::from_seed(seed_for_floor.value);
        match encounter {
            Encounter::ExordiumWildlife => exordium_wildlife(&mut hp_rng, ai_rng, misc_rng),
            Encounter::SmallSlimes => small_slimes(&mut hp_rng, ai_rng, misc_rng),
            _ => single_enemy(encounter, &mut hp_rng, ai_rng, misc_rng),
        }
    }
}

} // verus!
