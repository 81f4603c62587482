use vstd::prelude::*;

use crate::data::{EnemyAction, EnemyCondition, EnemyType};
use crate::rng::sts::{range_draw, rng_step, RngState, StsRandom};
use crate::sim::enemy::{coin, picks_first};
use crate::types::{Hp, HpMax, StackCount};

verus! {

/// What is fixed about an enemy when it is created: its maximum hit points and, for some
/// kinds, further numbers drawn with them. Its behaviour follows from its kind.
#[derive(Clone, Copy, Debug, PartialEq, Eq, Structural)]
pub enum EnemyCharacteristics {
    AcidSlimeM { hp_max: HpMax },
    AcidSlimeS { hp_max: HpMax },
    Cultist { hp_max: HpMax },
    FungiBeast { hp_max: HpMax },
    GreenLouse { hp_max: HpMax, bite_damage: Hp, curl_up_stacks: StackCount },
    GremlinNob { hp_max: HpMax },
    JawWorm { hp_max: HpMax },
    SpikeSlimeM { hp_max: HpMax },
    SpikeSlimeS { hp_max: HpMax },
}

/// The kinds of enemy whose behaviour is known.
pub open spec fn has_characteristics(enemy: EnemyType) -> bool {
    enemy is AcidSlimeM || enemy is AcidSlimeS || enemy is Cultist || enemy is FungiBeast || enemy is GreenLouse
        || enemy is GremlinNob || enemy is JawWorm || enemy is SpikeSlimeM || enemy is SpikeSlimeS
}

/// A uniform draw in `[lo, hi]`.
pub open spec fn draw_between(st: RngState, lo: u64, hi: u64) -> (RngState, u32) {
    let (next, v) = range_draw(st, lo, (hi + 1) as u64);
    (next, v as u32)
}

/// The characteristics drawn for an enemy of kind `enemy` (hit points, then for a Green
/// Louse its bite damage and Curl Up stacks), and the generator state afterwards.
pub open spec fn drawn_characteristics(enemy: EnemyType, st: RngState) -> (RngState, EnemyCharacteristics) {
    match enemy {
        EnemyType::AcidSlimeM => { let (s, hp) = draw_between(st, 28, 32); (s, EnemyCharacteristics::AcidSlimeM { hp_max: hp }) },
        EnemyType::AcidSlimeS => { let (s, hp) = draw_between(st, 8, 12); (s, EnemyCharacteristics::AcidSlimeS { hp_max: hp }) },
        EnemyType::Cultist => { let (s, hp) = draw_between(st, 48, 54); (s, EnemyCharacteristics::Cultist { hp_max: hp }) },
        EnemyType::FungiBeast => { let (s, hp) = draw_between(st, 22, 28); (s, EnemyCharacteristics::FungiBeast { hp_max: hp }) },
        EnemyType::GreenLouse => {
            let (s1, hp) = draw_between(st, 11, 17);
            let (s2, bite) = draw_between(s1, 5, 7);
            let (s3, curl) = draw_between(s2, 3, 7);
            (s3, EnemyCharacteristics::GreenLouse { hp_max: hp, bite_damage: bite, curl_up_stacks: curl })
        },
        EnemyType::GremlinNob => { let (s, hp) = draw_between(st, 82, 86); (s, EnemyCharacteristics::GremlinNob { hp_max: hp }) },
        EnemyType::JawWorm => { let (s, hp) = draw_between(st, 40, 44); (s, EnemyCharacteristics::JawWorm { hp_max: hp }) },
        EnemyType::SpikeSlimeM => { let (s, hp) = draw_between(st, 28, 32); (s, EnemyCharacteristics::SpikeSlimeM { hp_max: hp }) },
        _ => { let (s, hp) = draw_between(st, 10, 14); (s, EnemyCharacteristics::SpikeSlimeS { hp_max: hp }) },
    }
}

/// Acid Slime (M): 30% Corrosive Spit, 40% Tackle, 30% Lick; never Tackle twice in a row,
/// never Corrosive Spit or Lick three times in a row.
pub open spec fn acid_slime_m_action(st: RngState, last: Option<EnemyAction>, run_length: usize) -> (RngState, EnemyAction) {
    let (s1, roll) = range_draw(st, 0, 100);
    let (s2, raw) = rng_step(s1);
    if roll < 30 {
        if last != Some(EnemyAction::AcidSlimeMCorrosiveSpit) || run_length < 2 {
            (s1, EnemyAction::AcidSlimeMCorrosiveSpit)
        } else if coin(raw) {
            (s2, EnemyAction::AcidSlimeMTackle)
        } else {
            (s2, EnemyAction::AcidSlimeMLick)
        }
    } else if roll < 70 {
        if last != Some(EnemyAction::AcidSlimeMTackle) {
            (s1, EnemyAction::AcidSlimeMTackle)
        } else if picks_first(raw, 0x8000_0000) {
            (s2, EnemyAction::AcidSlimeMCorrosiveSpit)
        } else {
            (s2, EnemyAction::AcidSlimeMLick)
        }
    } else if last != Some(EnemyAction::AcidSlimeMLick) || run_length < 2 {
        (s1, EnemyAction::AcidSlimeMLick)
    } else if picks_first(raw, 1717986944) {
        (s2, EnemyAction::AcidSlimeMCorrosiveSpit)
    } else {
        (s2, EnemyAction::AcidSlimeMTackle)
    }
}

/// Fungi Beast: 60% Bite, 40% Grow; never Bite three times or Grow twice in a row.
pub open spec fn fungi_beast_action(st: RngState, last: Option<EnemyAction>, run_length: usize) -> (RngState, EnemyAction) {
    let (s1, roll) = range_draw(st, 0, 100);
    if roll < 60 {
        if last != Some(EnemyAction::FungiBeastBite) || run_length < 2 {
            (s1, EnemyAction::FungiBeastBite)
        } else {
            (s1, EnemyAction::FungiBeastGrow)
        }
    } else if last != Some(EnemyAction::FungiBeastGrow) {
        (s1, EnemyAction::FungiBeastGrow)
    } else {
        (s1, EnemyAction::FungiBeastBite)
    }
}

/// Green Louse: 25% Spit Web, 75% Bite.
pub open spec fn green_louse_action(bite_damage: Hp, st: RngState, last: Option<EnemyAction>, run_length: usize) -> (RngState, EnemyAction) {
    let (s1, roll) = range_draw(st, 0, 100);
    if roll < 25 {
        if last != Some(EnemyAction::GreenLouseSpitWeb) || run_length < 2 {
            (s1, EnemyAction::GreenLouseSpitWeb)
        } else {
            (s1, EnemyAction::GreenLouseBite(bite_damage))
        }
    } else if (last matches Some(EnemyAction::GreenLouseBite(_))) || run_length < 2 {
        (s1, EnemyAction::GreenLouseBite(bite_damage))
    } else {
        (s1, EnemyAction::GreenLouseSpitWeb)
    }
}

/// Gremlin Nob after its first turn: 33% Skull Bash, 67% Rush; never Rush three times in a row.
pub open spec fn gremlin_nob_action(st: RngState, last: EnemyAction, run_length: usize) -> (RngState, EnemyAction) {
    let (s1, roll) = range_draw(st, 0, 100);
    if roll < 33 {
        (s1, EnemyAction::GremlinNobSkullBash)
    } else if last != EnemyAction::GremlinNobRush || run_length < 2 {
        (s1, EnemyAction::GremlinNobRush)
    } else {
        (s1, EnemyAction::GremlinNobSkullBash)
    }
}

/// Jaw Worm after its first turn: 25% Chomp, 30% Thrash, 45% Bellow, with weighted choices
/// between the other two when the rolled action may not repeat.
pub open spec fn jaw_worm_action(st: RngState, last: EnemyAction, run_length: usize) -> (RngState, EnemyAction) {
    let (s1, roll) = range_draw(st, 0, 100);
    let (s2, raw) = rng_step(s1);
    if roll < 25 {
        if last != EnemyAction::JawWormChomp {
            (s1, EnemyAction::JawWormChomp)
        } else if picks_first(raw, 2415919104) {
            (s2, EnemyAction::JawWormBellow)
        } else {
            (s2, EnemyAction::JawWormThrash)
        }
    } else if roll < 55 {
        if last != EnemyAction::JawWormThrash || run_length < 2 {
            (s1, EnemyAction::JawWormThrash)
        } else if picks_first(raw, 1533303296) {
            (s2, EnemyAction::JawWormChomp)
        } else {
            (s2, EnemyAction::JawWormBellow)
        }
    } else if last != EnemyAction::JawWormBellow || run_length < 2 {
        (s1, EnemyAction::JawWormBellow)
    } else if picks_first(raw, 1786706432) {
        (s2, EnemyAction::JawWormChomp)
    } else {
        (s2, EnemyAction::JawWormThrash)
    }
}

/// Spike Slime (M): 30% Flame Tackle, 70% Lick; neither three times in a row.
pub open spec fn spike_slime_m_action(st: RngState, last: Option<EnemyAction>, run_length: usize) -> (RngState, EnemyAction) {
    let (s1, roll) = range_draw(st, 0, 100);
    if roll < 30 {
        if last != Some(EnemyAction::SpikeSlimeMFlameTackle) || run_length < 2 {
            (s1, EnemyAction::SpikeSlimeMFlameTackle)
        } else {
            (s1, EnemyAction::SpikeSlimeMLick)
        }
    } else if last != Some(EnemyAction::SpikeSlimeMLick) || run_length < 2 {
        (s1, EnemyAction::SpikeSlimeMLick)
    } else {
        (s1, EnemyAction::SpikeSlimeMFlameTackle)
    }
}

/// The maximum hit points in the characteristics.
pub open spec fn characteristic_hp_max(c: EnemyCharacteristics) -> HpMax {
    match c {
        EnemyCharacteristics::AcidSlimeM { hp_max } => hp_max,
        EnemyCharacteristics::AcidSlimeS { hp_max } => hp_max,
        EnemyCharacteristics::Cultist { hp_max } => hp_max,
        EnemyCharacteristics::FungiBeast { hp_max } => hp_max,
        EnemyCharacteristics::GreenLouse { hp_max, .. } => hp_max,
        EnemyCharacteristics::GremlinNob { hp_max } => hp_max,
        EnemyCharacteristics::JawWorm { hp_max } => hp_max,
        EnemyCharacteristics::SpikeSlimeM { hp_max } => hp_max,
        EnemyCharacteristics::SpikeSlimeS { hp_max } => hp_max,
    }
}

/// The conditions an enemy spawns with: Spore Cloud 2 for a Fungi Beast, Curl Up for a Green
/// Louse.
pub open spec fn spawn_conditions(c: EnemyCharacteristics) -> Seq<EnemyCondition> {
    match c {
        EnemyCharacteristics::FungiBeast { .. } => seq![EnemyCondition::SporeCloud(2)],
        EnemyCharacteristics::GreenLouse { curl_up_stacks, .. } => seq![EnemyCondition::CurlUp(curl_up_stacks)],
        _ => Seq::empty(),
    }
}

/// The first action of an enemy, and the generator state afterwards.
pub open spec fn first_action(c: EnemyCharacteristics, st: RngState) -> (RngState, EnemyAction) {
    match c {
        EnemyCharacteristics::AcidSlimeM { .. } => acid_slime_m_action(st, None, 0),
        EnemyCharacteristics::AcidSlimeS { .. } => {
            let (s1, roll) = range_draw(st, 0, 100);
            let (s2, raw) = rng_step(s1);
            (s2, if coin(raw) { EnemyAction::AcidSlimeSTackle } else { EnemyAction::AcidSlimeSLick })
        },
        EnemyCharacteristics::Cultist { .. } => (st, EnemyAction::CultistIncantation),
        EnemyCharacteristics::FungiBeast { .. } => fungi_beast_action(st, None, 0),
        EnemyCharacteristics::GreenLouse { bite_damage, .. } => green_louse_action(bite_damage, st, None, 0),
        EnemyCharacteristics::GremlinNob { .. } => (st, EnemyAction::GremlinNobBellow),
        EnemyCharacteristics::JawWorm { .. } => (st, EnemyAction::JawWormChomp),
        EnemyCharacteristics::SpikeSlimeM { .. } => spike_slime_m_action(st, None, 0),
        EnemyCharacteristics::SpikeSlimeS { .. } => (range_draw(st, 0, 100).0, EnemyAction::SpikeSlimeSTackle),
    }
}

/// The action after `last` (made `run_length` times in a row), and the generator state
/// afterwards.
pub open spec fn following_action(c: EnemyCharacteristics, st: RngState, last: EnemyAction, run_length: usize) -> (RngState, EnemyAction) {
    match c {
        EnemyCharacteristics::AcidSlimeM { .. } => acid_slime_m_action(st, Some(last), run_length),
        EnemyCharacteristics::AcidSlimeS { .. } =>
            (st, if last == EnemyAction::AcidSlimeSLick { EnemyAction::AcidSlimeSTackle } else { EnemyAction::AcidSlimeSLick }),
        EnemyCharacteristics::Cultist { .. } => (st, EnemyAction::CultistDarkStrike),
        EnemyCharacteristics::FungiBeast { .. } => fungi_beast_action(st, Some(last), run_length),
        EnemyCharacteristics::GreenLouse { bite_damage, .. } => green_louse_action(bite_damage, st, Some(last), run_length),
        EnemyCharacteristics::GremlinNob { .. } => gremlin_nob_action(st, last, run_length),
        EnemyCharacteristics::JawWorm { .. } => jaw_worm_action(st, last, run_length),
        EnemyCharacteristics::SpikeSlimeM { .. } => spike_slime_m_action(st, Some(last), run_length),
        EnemyCharacteristics::SpikeSlimeS { .. } => (range_draw(st, 0, 100).0, EnemyAction::SpikeSlimeSTackle),
    }
}

/// The kind of enemy with these characteristics.
pub open spec fn characteristic_kind(c: EnemyCharacteristics) -> EnemyType {
    match c {
        EnemyCharacteristics::AcidSlimeM { .. } => EnemyType::AcidSlimeM,
        EnemyCharacteristics::AcidSlimeS { .. } => EnemyType::AcidSlimeS,
        EnemyCharacteristics::Cultist { .. } => EnemyType::Cultist,
        EnemyCharacteristics::FungiBeast { .. } => EnemyType::FungiBeast,
        EnemyCharacteristics::GreenLouse { .. } => EnemyType::GreenLouse,
        EnemyCharacteristics::GremlinNob { .. } => EnemyType::GremlinNob,
        EnemyCharacteristics::JawWorm { .. } => EnemyType::JawWorm,
        EnemyCharacteristics::SpikeSlimeM { .. } => EnemyType::SpikeSlimeM,
        EnemyCharacteristics::SpikeSlimeS { .. } => EnemyType::SpikeSlimeS,
    }
}

/// Characteristics drawn for a kind are of that kind.
pub proof fn law_drawn_characteristics_have_their_kind(enemy: EnemyType, st: RngState)
    requires
        has_characteristics(enemy),
    ensures
        characteristic_kind(drawn_characteristics(enemy, st).1) == enemy,
{
}

/// A uniform draw in `[lo, hi]`, as hit points.
fn draw_between_exec(hp_rng: &mut StsRandom, lo: u64, hi: u64) -> (r: u32)
    requires
        lo <= hi <= u32::MAX,
    ensures
        (final(hp_rng)@, r) == draw_between(old(hp_rng)@, lo, hi),
        lo <= r <= hi,
{
    let v = hp_rng.gen_range_inclusive(lo, hi);
    v as u32
}

/// Draws the characteristics of an enemy of kind `enemy`.
pub fn gen_characteristics(enemy: EnemyType, hp_rng: &mut StsRandom) -> (r: EnemyCharacteristics)
    requires
        has_characteristics(enemy),
    ensures
        (final(hp_rng)@, r) == drawn_characteristics(enemy, old(hp_rng)@),
{
    match enemy {
        EnemyType::AcidSlimeM => EnemyCharacteristics::AcidSlimeM { hp_max: draw_between_exec(hp_rng, 28, 32) },
        EnemyType::AcidSlimeS => EnemyCharacteristics::AcidSlimeS { hp_max: draw_between_exec(hp_rng, 8, 12) },
        EnemyType::Cultist => EnemyCharacteristics::Cultist { hp_max: draw_between_exec(hp_rng, 48, 54) },
        EnemyType::FungiBeast => EnemyCharacteristics::FungiBeast { hp_max: draw_between_exec(hp_rng, 22, 28) },
        EnemyType::GreenLouse => {
            let hp_max = draw_between_exec(hp_rng, 11, 17);
            let bite_damage = draw_between_exec(hp_rng, 5, 7);
            let curl_up_stacks = draw_between_exec(hp_rng, 3, 7);
            EnemyCharacteristics::GreenLouse { hp_max, bite_damage, curl_up_stacks }
        },
        EnemyType::GremlinNob => EnemyCharacteristics::GremlinNob { hp_max: draw_between_exec(hp_rng, 82, 86) },
        EnemyType::JawWorm => EnemyCharacteristics::JawWorm { hp_max: draw_between_exec(hp_rng, 40, 44) },
        EnemyType::SpikeSlimeM => EnemyCharacteristics::SpikeSlimeM { hp_max: draw_between_exec(hp_rng, 28, 32) },
        _ => EnemyCharacteristics::SpikeSlimeS { hp_max: draw_between_exec(hp_rng, 10, 14) },
    }
}

/// A weighted choice between two actions, the first weighing `w0` and the second `w1`.
fn choose_between(ai_rng: &mut StsRandom, first: EnemyAction, w0: u64, second: EnemyAction, w1: u64) -> (r: EnemyAction)
    ensures
        final(ai_rng)@ == rng_step(old(ai_rng)@).0,
        r == (if picks_first(rng_step(old(ai_rng)@).1, w0) { first } else { second }),
{
    let choices = vec![(first, w0), (second, w1)];
    let r = ai_rng.weighted_choose(choices.as_slice());
    proof {
        let ws = choices@.map_values(|c: (EnemyAction, u64)| c.1);
        assert(ws.len() == 2);
        assert(ws[0] == w0);
        reveal_with_fuel(crate::rng::sts::weighted_pick, 3);
    }
    r
}

fn acid_slime_m_next(ai_rng: &mut StsRandom, last: Option<EnemyAction>, run_length: usize) -> (r: EnemyAction)
    ensures
        (final(ai_rng)@, r) == acid_slime_m_action(old(ai_rng)@, last, run_length),
{
    let roll = ai_rng.gen_range(0, 100);
    if roll < 30 {
        if last != Some(EnemyAction::AcidSlimeMCorrosiveSpit) || run_length < 2 {
            EnemyAction::AcidSlimeMCorrosiveSpit
        } else if ai_rng.next_bool() {
            EnemyAction::AcidSlimeMTackle
        } else {
            EnemyAction::AcidSlimeMLick
        }
    } else if roll < 70 {
        if last != Some(EnemyAction::AcidSlimeMTackle) {
            EnemyAction::AcidSlimeMTackle
        } else {
            choose_between(ai_rng, EnemyAction::AcidSlimeMCorrosiveSpit, 0x8000_0000, EnemyAction::AcidSlimeMLick, 0x8000_0000)
        }
    } else if last != Some(EnemyAction::AcidSlimeMLick) || run_length < 2 {
        EnemyAction::AcidSlimeMLick
    } else {
        choose_between(ai_rng, EnemyAction::AcidSlimeMCorrosiveSpit, 1717986944, EnemyAction::AcidSlimeMTackle, 2576980480)
    }
}

fn fungi_beast_next(ai_rng: &mut StsRandom, last: Option<EnemyAction>, run_length: usize) -> (r: EnemyAction)
    ensures
        (final(ai_rng)@, r) == fungi_beast_action(old(ai_rng)@, last, run_length),
{
    let roll = ai_rng.gen_range(0, 100);
    if roll < 60 {
        if last != Some(EnemyAction::FungiBeastBite) || run_length < 2 {
            EnemyAction::FungiBeastBite
        } else {
            EnemyAction::FungiBeastGrow
        }
    } else if last != Some(EnemyAction::FungiBeastGrow) {
        EnemyAction::FungiBeastGrow
    } else {
        EnemyAction::FungiBeastBite
    }
}

fn green_louse_next(bite_damage: Hp, ai_rng: &mut StsRandom, last: Option<EnemyAction>, run_length: usize) -> (r: EnemyAction)
    ensures
        (final(ai_rng)@, r) == green_louse_action(bite_damage, old(ai_rng)@, last, run_length),
{
    let roll = ai_rng.gen_range(0, 100);
    if roll < 25 {
        if last != Some(EnemyAction::GreenLouseSpitWeb) || run_length < 2 {
            EnemyAction::GreenLouseSpitWeb
        } else {
            EnemyAction::GreenLouseBite(bite_damage)
        }
    } else {
        let bit_last = match last {
            Some(EnemyAction::GreenLouseBite(_)) => true,
            _ => false,
        };
        if bit_last || run_length < 2 {
            EnemyAction::GreenLouseBite(bite_damage)
        } else {
            EnemyAction::GreenLouseSpitWeb
        }
    }
}

fn gremlin_nob_next(ai_rng: &mut StsRandom, last: EnemyAction, run_length: usize) -> (r: EnemyAction)
    ensures
        (final(ai_rng)@, r) == gremlin_nob_action(old(ai_rng)@, last, run_length),
{
    let roll = ai_rng.gen_range(0, 100);
    if roll < 33 {
        EnemyAction::GremlinNobSkullBash
    } else if last != EnemyAction::GremlinNobRush || run_length < 2 {
        EnemyAction::GremlinNobRush
    } else {
        EnemyAction::GremlinNobSkullBash
    }
}

fn jaw_worm_next(ai_rng: &mut StsRandom, last: EnemyAction, run_length: usize) -> (r: EnemyAction)
    ensures
        (final(ai_rng)@, r) == jaw_worm_action(old(ai_rng)@, last, run_length),
{
    let roll = ai_rng.gen_range(0, 100);
    if roll < 25 {
        if last != EnemyAction::JawWormChomp {
            EnemyAction::JawWormChomp
        } else {
            choose_between(ai_rng, EnemyAction::JawWormBellow, 2415919104, EnemyAction::JawWormThrash, 1879048192)
        }
    } else if roll < 55 {
        if last != EnemyAction::JawWormThrash || run_length < 2 {
            EnemyAction::JawWormThrash
        } else {
            choose_between(ai_rng, EnemyAction::JawWormChomp, 1533303296, EnemyAction::JawWormBellow, 2761664000)
        }
    } else if last != EnemyAction::JawWormBellow || run_length < 2 {
        EnemyAction::JawWormBellow
    } else {
        choose_between(ai_rng, EnemyAction::JawWormChomp, 1786706432, EnemyAction::JawWormThrash, 2508260864)
    }
}

fn spike_slime_m_next(ai_rng: &mut StsRandom, last: Option<EnemyAction>, run_length: usize) -> (r: EnemyAction)
    ensures
        (final(ai_rng)@, r) == spike_slime_m_action(old(ai_rng)@, last, run_length),
{
    let roll = ai_rng.gen_range(0, 100);
    if roll < 30 {
        if last != Some(EnemyAction::SpikeSlimeMFlameTackle) || run_length < 2 {
            EnemyAction::SpikeSlimeMFlameTackle
        } else {
            EnemyAction::SpikeSlimeMLick
        }
    } else if last != Some(EnemyAction::SpikeSlimeMLick) || run_length < 2 {
        EnemyAction::SpikeSlimeMLick
    } else {
        EnemyAction::SpikeSlimeMFlameTackle
    }
}

impl EnemyCharacteristics {
    /// The kind of enemy with these characteristics.
    pub fn enemy_type(&self) -> (r: EnemyType)
        ensures
            r == characteristic_kind(*self),
    {
        match *self {
            EnemyCharacteristics::AcidSlimeM { .. } => EnemyType::AcidSlimeM,
            EnemyCharacteristics::AcidSlimeS { .. } => EnemyType::AcidSlimeS,
            EnemyCharacteristics::Cultist { .. } => EnemyType::Cultist,
            EnemyCharacteristics::FungiBeast { .. } => EnemyType::FungiBeast,
            EnemyCharacteristics::GreenLouse { .. } => EnemyType::GreenLouse,
            EnemyCharacteristics::GremlinNob { .. } => EnemyType::GremlinNob,
            EnemyCharacteristics::JawWorm { .. } => EnemyType::JawWorm,
            EnemyCharacteristics::SpikeSlimeM { .. } => EnemyType::SpikeSlimeM,
            EnemyCharacteristics::SpikeSlimeS { .. } => EnemyType::SpikeSlimeS,
        }
    }

    /// The maximum hit points, the starting conditions and the first action of an enemy with
    /// these characteristics.
    pub fn on_spawn(&self, ai_rng: &mut StsRandom) -> (r: (HpMax, Vec<EnemyCondition>, EnemyAction))
        ensures
            r.0 == characteristic_hp_max(*self),
            r.1@ == spawn_conditions(*self),
            (final(ai_rng)@, r.2) == first_action(*self, old(ai_rng)@),
    {
        match *self {
            EnemyCharacteristics::AcidSlimeM { hp_max } => (hp_max, Vec::new(), acid_slime_m_next(ai_rng, None, 0)),
            EnemyCharacteristics::AcidSlimeS { hp_max } => {
                let _ = ai_rng.gen_range(0, 100);
                let first = if ai_rng.next_bool() { EnemyAction::AcidSlimeSTackle } else { EnemyAction::AcidSlimeSLick };
                (hp_max, Vec::new(), first)
            },
            EnemyCharacteristics::Cultist { hp_max } => (hp_max, Vec::new(), EnemyAction::CultistIncantation),
            EnemyCharacteristics::FungiBeast { hp_max } => {
                let first = fungi_beast_next(ai_rng, None, 0);
                (hp_max, vec![EnemyCondition::SporeCloud(2)], first)
            },
            EnemyCharacteristics::GreenLouse { hp_max, bite_damage, curl_up_stacks } => {
                let first = green_louse_next(bite_damage, ai_rng, None, 0);
                (hp_max, vec![EnemyCondition::CurlUp(curl_up_stacks)], first)
            },
            EnemyCharacteristics::GremlinNob { hp_max } => (hp_max, Vec::new(), EnemyAction::GremlinNobBellow),
            EnemyCharacteristics::JawWorm { hp_max } => (hp_max, Vec::new(), EnemyAction::JawWormChomp),
            EnemyCharacteristics::SpikeSlimeM { hp_max } => (hp_max, Vec::new(), spike_slime_m_next(ai_rng, None, 0)),
            EnemyCharacteristics::SpikeSlimeS { hp_max } => {
                // A roll is thrown away for consistency with the game.
                let _ = ai_rng.gen_range(0, 100);
                (hp_max, Vec::new(), EnemyAction::SpikeSlimeSTackle)
            },
        }
    }

    /// The action after `last_action`, made `run_length` times in a row.
    pub fn next_action(&self, ai_rng: &mut StsRandom, last_action: EnemyAction, run_length: usize) -> (r: EnemyAction)
        ensures
            (final(ai_rng)@, r) == following_action(*self, old(ai_rng)@, last_action, run_length),
    {
        match *self {
            EnemyCharacteristics::AcidSlimeM { .. } => acid_slime_m_next(ai_rng, Some(last_action), run_length),
            EnemyCharacteristics::AcidSlimeS { .. } => {
                if last_action == EnemyAction::AcidSlimeSLick {
                    EnemyAction::AcidSlimeSTackle
                } else {
                    EnemyAction::AcidSlimeSLick
                }
            },
            EnemyCharacteristics::Cultist { .. } => EnemyAction::CultistDarkStrike,
            EnemyCharacteristics::FungiBeast { .. } => fungi_beast_next(ai_rng, Some(last_action), run_length),
            EnemyCharacteristics::GreenLouse { bite_damage, .. } => green_louse_next(bite_damage, ai_rng, Some(last_action), run_length),
            EnemyCharacteristics::GremlinNob { .. } => gremlin_nob_next(ai_rng, last_action, run_length),
            EnemyCharacteristics::JawWorm { .. } => jaw_worm_next(ai_rng, last_action, run_length),
            EnemyCharacteristics::SpikeSlimeM { .. } => spike_slime_m_next(ai_rng, Some(last_action), run_length),
            EnemyCharacteristics::SpikeSlimeS { .. } => {
                let _ = ai_rng.gen_range(0, 100);
                EnemyAction::SpikeSlimeSTackle
            },
        }
    }
}

/// An Acid Slime (M) picks one of its three moves; it never tackles twice in a row, and never
/// spits or licks a third time in a row.
pub proof fn law_acid_slime_m_repeats(st: RngState, last: Option<EnemyAction>, run_length: usize)
    ensures
        ({
            let a = acid_slime_m_action(st, last, run_length).1;
            &&& a == EnemyAction::AcidSlimeMCorrosiveSpit || a == EnemyAction::AcidSlimeMTackle || a == EnemyAction::AcidSlimeMLick
            &&& last == Some(EnemyAction::AcidSlimeMTackle) ==> a != EnemyAction::AcidSlimeMTackle
            &&& last == Some(EnemyAction::AcidSlimeMCorrosiveSpit) && run_length >= 2 ==> a != EnemyAction::AcidSlimeMCorrosiveSpit
            &&& last == Some(EnemyAction::AcidSlimeMLick) && run_length >= 2 ==> a != EnemyAction::AcidSlimeMLick
        }),
{
}

/// A Gremlin Nob never rushes three times in a row.
pub proof fn law_gremlin_nob_no_third_rush(st: RngState, run_length: usize)
    requires
        run_length >= 2,
    ensures
        gremlin_nob_action(st, EnemyAction::GremlinNobRush, run_length).1 != EnemyAction::GremlinNobRush,
{
}

/// A Fungi Beast never grows twice in a row.
pub proof fn law_fungi_beast_never_grows_twice(st: RngState, run_length: usize)
    ensures
        fungi_beast_action(st, Some(EnemyAction::FungiBeastGrow), run_length).1 != EnemyAction::FungiBeastGrow,
{
}

/// Characteristics drawn for a kind stay within the kind's ranges; a Green Louse bites for 5
/// to 7 and curls up with 3 to 7 stacks.
pub proof fn law_drawn_within_ranges(enemy: EnemyType, st: RngState)
    requires
        has_characteristics(enemy),
    ensures
        ({
            let c = drawn_characteristics(enemy, st).1;
            &&& 8 <= characteristic_hp_max(c) <= 86
            &&& (c matches EnemyCharacteristics::GreenLouse { bite_damage, curl_up_stacks, .. } ==> 5 <= bite_damage <= 7 && 3 <= curl_up_stacks <= 7)
        }),
{
    lemma_draw_between(st, 28, 32);
    lemma_draw_between(st, 8, 12);
    lemma_draw_between(st, 48, 54);
    lemma_draw_between(st, 22, 28);
    lemma_draw_between(st, 11, 17);
    lemma_draw_between(st, 82, 86);
    lemma_draw_between(st, 40, 44);
    lemma_draw_between(st, 10, 14);
    let s1 = draw_between(st, 11, 17).0;
    lemma_draw_between(s1, 5, 7);
    let s2 = draw_between(s1, 5, 7).0;
    lemma_draw_between(s2, 3, 7);
}

/// A draw between `lo` and `hi` lies between them.
pub proof fn lemma_draw_between(st: RngState, lo: u64, hi: u64)
    requires
        lo <= hi < u32::MAX,
    ensures
        lo <= draw_between(st, lo, hi).1 <= hi,
{
    crate::rng::sts::lemma_bounded_draw_below(st, (hi + 1 - lo) as u64, crate::rng::sts::draw_budget());
}

} // verus!
