use vstd::prelude::*;

use crate::data::{Card, Debuff, EnemyType, Intent};
use crate::player::controller::{add_debuff, tick_debuffs};
use crate::player::state::{has_debuff_in, spec_saturating_sub};
use crate::rng::sts::{range_draw, rng_step, RngState, StsRandom};
use crate::types::{Hp, HpMax, StackCount};

use super::Effect;

use crate::rng::precision::{float_half_again, float_half_again_of};

verus! {

/// What the player may know of an enemy: its kind, intent, health and debuffs; nothing of its
/// internal state or future moves.
#[derive(Debug)]
pub struct EnemyStatus {
    pub enemy_type: EnemyType,
    pub intent: Intent,
    pub hp: Hp,
    pub hp_max: HpMax,
    pub debuffs: Vec<(Debuff, StackCount)>,
}

/// Two statuses hold the same information.
pub open spec fn same_status(a: EnemyStatus, b: EnemyStatus) -> bool {
    a.enemy_type == b.enemy_type && a.intent == b.intent && a.hp == b.hp && a.hp_max == b.hp_max
        && a.debuffs@ == b.debuffs@
}

impl EnemyStatus {
    /// A copy of this status.
    pub fn copy(&self) -> (r: EnemyStatus)
        ensures
            same_status(r, *self),
    {
        EnemyStatus {
            enemy_type: self.enemy_type,
            intent: self.intent,
            hp: self.hp,
            hp_max: self.hp_max,
            debuffs: crate::player::message::copy_vec(&self.debuffs),
        }
    }
}

/// The moves of the enemies, by name. Two uses of a move are the same move exactly when they
/// have the same name.
#[derive(Clone, Copy, Debug, PartialEq, Eq, Structural)]
pub enum EnemyMoveId {
    AcidSlimeMCorrosiveSpit,
    AcidSlimeMLick,
    AcidSlimeMTackle,
    AcidSlimeSLick,
    AcidSlimeSTackle,
    SpikeSlimeMFlameTackle,
    SpikeSlimeMLick,
    SpikeSlimeSTackle,
}

/// An enemy move: the effects enacted in order, and the intent shown to the player.
#[derive(Debug)]
pub struct EnemyMove {
    pub effects: Vec<Effect>,
    pub intent: Intent,
}

/// A move under construction, to which further effects are appended.
pub struct EnemyMoveBuilder {
    effects: Vec<Effect>,
    intent: Intent,
}

/// The intent shown for a move that also debuffs the player, given the intent of the rest of
/// the move. Defined for the intents that moves are built from.
pub open spec fn debuffing_intent(intent: Intent) -> Intent {
    match intent {
        Intent::Aggressive(amount, times) => Intent::AggressiveDebuff(amount, times),
        Intent::AggressiveDebuff(amount, times) => Intent::AggressiveDebuff(amount, times),
        Intent::Defensive => Intent::DefensiveDebuff,
        Intent::DefensiveDebuff => Intent::DefensiveDebuff,
        _ => Intent::Unknown,
    }
}

/// Whether an intent can be extended by a debuff.
pub open spec fn can_add_debuff(intent: Intent) -> bool {
    intent is Aggressive || intent is AggressiveDebuff || intent is Defensive || intent is DefensiveDebuff
        || intent is Unknown
}

/// The intent of a move that adds a debuff to a move with intent `intent`.
pub fn add_debuff_to_intent(intent: Intent) -> (r: Intent)
    requires
        can_add_debuff(intent),
    ensures
        r == debuffing_intent(intent),
{
    match intent {
        Intent::Aggressive(amount, times) => Intent::AggressiveDebuff(amount, times),
        Intent::AggressiveDebuff(amount, times) => Intent::AggressiveDebuff(amount, times),
        Intent::Defensive => Intent::DefensiveDebuff,
        Intent::DefensiveDebuff => Intent::DefensiveDebuff,
        _ => Intent::Unknown,
    }
}

impl EnemyMove {
    /// Deals `amount` damage `times` times.
    pub fn deal_damage(amount: u32, times: u32) -> (r: EnemyMove)
        ensures
            r.effects@ == Seq::new(times as nat, |i: int| Effect::DealDamage(amount)),
            r.intent == Intent::Aggressive(amount, times),
    {
        let mut effects: Vec<Effect> = Vec::new();
        let mut i: u32 = 0;
        while i < times
            invariant
                i <= times,
                effects@ == Seq::new(i as nat, |k: int| Effect::DealDamage(amount)),
            decreases times - i,
        {
            effects.push(Effect::DealDamage(amount));
            i = i + 1;
            assert(effects@ =~= Seq::new(i as nat, |k: int| Effect::DealDamage(amount)));
        }
        EnemyMove { effects, intent: Intent::Aggressive(amount, times) }
    }

    /// Inflicts `stacks` of `debuff` on the player.
    pub fn inflict(debuff: Debuff, stacks: u32) -> (r: EnemyMove)
        ensures
            r.effects@ == seq![Effect::Inflict(debuff, stacks)],
            r.intent == Intent::StrategicDebuff,
    {
        EnemyMove { effects: vec![Effect::Inflict(debuff, stacks)], intent: Intent::StrategicDebuff }
    }

    /// Continues this move with further effects.
    pub fn followed_by(self) -> (r: EnemyMoveBuilder)
        ensures
            r.spec_effects() == self.effects@,
            r.spec_intent() == self.intent,
    {
        EnemyMoveBuilder { effects: self.effects, intent: self.intent }
    }
}

impl EnemyMoveBuilder {
    /// The effects so far.
    pub closed spec fn spec_effects(&self) -> Seq<Effect> {
        self.effects@
    }

    /// The intent so far.
    pub closed spec fn spec_intent(&self) -> Intent {
        self.intent
    }

    /// Finishes the move by adding `card` to the player's discard pile; the intent now shows
    /// a debuff.
    pub fn add_to_discard_pile(self, card: Card) -> (r: EnemyMove)
        requires
            can_add_debuff(self.spec_intent()),
        ensures
            r.effects@ == self.spec_effects().push(Effect::AddToDiscardPile(card)),
            r.intent == debuffing_intent(self.spec_intent()),
    {
        let mut effects = self.effects;
        effects.push(Effect::AddToDiscardPile(card));
        EnemyMove { effects, intent: add_debuff_to_intent(self.intent) }
    }
}

/// The effects of a move.
pub open spec fn move_effects(id: EnemyMoveId) -> Seq<Effect> {
    match id {
        EnemyMoveId::AcidSlimeMCorrosiveSpit => seq![Effect::DealDamage(7), Effect::AddToDiscardPile(Card::Slimed)],
        EnemyMoveId::AcidSlimeMLick => seq![Effect::Inflict(Debuff::Weak, 1)],
        EnemyMoveId::AcidSlimeMTackle => seq![Effect::DealDamage(10)],
        EnemyMoveId::AcidSlimeSLick => seq![Effect::Inflict(Debuff::Weak, 1)],
        EnemyMoveId::AcidSlimeSTackle => seq![Effect::DealDamage(3)],
        EnemyMoveId::SpikeSlimeMFlameTackle => seq![Effect::DealDamage(8), Effect::AddToDiscardPile(Card::Slimed)],
        EnemyMoveId::SpikeSlimeMLick => seq![Effect::Inflict(Debuff::Frail, 1)],
        EnemyMoveId::SpikeSlimeSTackle => seq![Effect::DealDamage(5)],
    }
}

/// The intent shown for a move.
pub open spec fn move_intent(id: EnemyMoveId) -> Intent {
    match id {
        EnemyMoveId::AcidSlimeMCorrosiveSpit => Intent::AggressiveDebuff(7, 1),
        EnemyMoveId::AcidSlimeMLick => Intent::StrategicDebuff,
        EnemyMoveId::AcidSlimeMTackle => Intent::Aggressive(10, 1),
        EnemyMoveId::AcidSlimeSLick => Intent::StrategicDebuff,
        EnemyMoveId::AcidSlimeSTackle => Intent::Aggressive(3, 1),
        EnemyMoveId::SpikeSlimeMFlameTackle => Intent::AggressiveDebuff(8, 1),
        EnemyMoveId::SpikeSlimeMLick => Intent::StrategicDebuff,
        EnemyMoveId::SpikeSlimeSTackle => Intent::Aggressive(5, 1),
    }
}

/// A damaging move that also puts a card in the discard pile.
fn damage_and_discard(amount: u32, card: Card) -> (r: EnemyMove)
    ensures
        r.effects@ == seq![Effect::DealDamage(amount), Effect::AddToDiscardPile(card)],
        r.intent == Intent::AggressiveDebuff(amount, 1),
{
    let m = EnemyMove::deal_damage(amount, 1);
    assert(m.effects@ =~= seq![Effect::DealDamage(amount)]);
    let r = m.followed_by().add_to_discard_pile(card);
    assert(r.effects@ =~= seq![Effect::DealDamage(amount), Effect::AddToDiscardPile(card)]);
    r
}

/// A single hit.
fn single_hit(amount: u32) -> (r: EnemyMove)
    ensures
        r.effects@ == seq![Effect::DealDamage(amount)],
        r.intent == Intent::Aggressive(amount, 1),
{
    let m = EnemyMove::deal_damage(amount, 1);
    assert(m.effects@ =~= seq![Effect::DealDamage(amount)]);
    m
}

impl EnemyMoveId {
    /// The effects and intent of this move.
    pub fn details(self) -> (r: EnemyMove)
        ensures
            r.effects@ == move_effects(self),
            r.intent == move_intent(self),
    {
        match self {
            EnemyMoveId::AcidSlimeMCorrosiveSpit => damage_and_discard(7, Card::Slimed),
            EnemyMoveId::AcidSlimeMLick => EnemyMove::inflict(Debuff::Weak, 1),
            EnemyMoveId::AcidSlimeMTackle => single_hit(10),
            EnemyMoveId::AcidSlimeSLick => EnemyMove::inflict(Debuff::Weak, 1),
            EnemyMoveId::AcidSlimeSTackle => single_hit(3),
            EnemyMoveId::SpikeSlimeMFlameTackle => damage_and_discard(8, Card::Slimed),
            EnemyMoveId::SpikeSlimeMLick => EnemyMove::inflict(Debuff::Frail, 1),
            EnemyMoveId::SpikeSlimeSTackle => single_hit(5),
        }
    }

    /// The intent shown for this move.
    pub fn intent(self) -> (r: Intent)
        ensures
            r == move_intent(self),
    {
        self.details().intent
    }
}

/// The enemies whose behaviour is known.
pub open spec fn is_simulated(t: EnemyType) -> bool {
    t is AcidSlimeM || t is AcidSlimeS || t is SpikeSlimeM || t is SpikeSlimeS
}

/// The least and greatest hit points an enemy spawns with.
pub open spec fn hp_range(t: EnemyType) -> (u64, u64) {
    match t {
        EnemyType::AcidSlimeM => (28, 32),
        EnemyType::AcidSlimeS => (8, 12),
        EnemyType::SpikeSlimeM => (28, 32),
        _ => (10, 14),
    }
}

/// Whether a weighted choice between two options with the first weighing `w0` (in units of
/// 2^-32) picks the first option, given the raw draw.
pub open spec fn picks_first(raw: u64, w0: u64) -> bool {
    ((raw >> 40u64) * 256) as int <= w0 as int
}

/// Whether a coin flip on the raw draw comes up true.
pub open spec fn coin(raw: u64) -> bool {
    raw & 1u64 == 1u64
}

/// Acid Slime (M): 30% Corrosive Spit, 40% Tackle, 30% Lick; never Tackle twice in a row,
/// never Corrosive Spit or Lick three times in a row.
pub open spec fn acid_slime_m_ai(st: RngState, last: Option<EnemyMoveId>, run_length: u8) -> (RngState, EnemyMoveId) {
    let (s1, roll) = range_draw(st, 0, 100);
    let (s2, raw) = rng_step(s1);
    if roll < 30 {
        if last != Some(EnemyMoveId::AcidSlimeMCorrosiveSpit) || run_length < 2 {
            (s1, EnemyMoveId::AcidSlimeMCorrosiveSpit)
        } else if coin(raw) {
            (s2, EnemyMoveId::AcidSlimeMTackle)
        } else {
            (s2, EnemyMoveId::AcidSlimeMLick)
        }
    } else if roll < 70 {
        if last != Some(EnemyMoveId::AcidSlimeMTackle) {
            (s1, EnemyMoveId::AcidSlimeMTackle)
        } else if picks_first(raw, 0x8000_0000) {
            (s2, EnemyMoveId::AcidSlimeMCorrosiveSpit)
        } else {
            (s2, EnemyMoveId::AcidSlimeMLick)
        }
    } else {
        if last != Some(EnemyMoveId::AcidSlimeMLick) || run_length < 2 {
            (s1, EnemyMoveId::AcidSlimeMLick)
        } else if picks_first(raw, 1717986944) {
            (s2, EnemyMoveId::AcidSlimeMCorrosiveSpit)
        } else {
            (s2, EnemyMoveId::AcidSlimeMTackle)
        }
    }
}

/// Acid Slime (S): a coin flip between Tackle and Lick on the first turn (after a roll that is
/// thrown away), then it alternates without drawing.
pub open spec fn acid_slime_s_ai(st: RngState, last: Option<EnemyMoveId>) -> (RngState, EnemyMoveId) {
    match last {
        None => {
            let (s1, roll) = range_draw(st, 0, 100);
            let (s2, raw) = rng_step(s1);
            (s2, if coin(raw) { EnemyMoveId::AcidSlimeSTackle } else { EnemyMoveId::AcidSlimeSLick })
        },
        Some(m) => (st, if m == EnemyMoveId::AcidSlimeSLick { EnemyMoveId::AcidSlimeSTackle } else { EnemyMoveId::AcidSlimeSLick }),
    }
}

/// Spike Slime (M): 30% Flame Tackle, 70% Lick; neither three times in a row.
pub open spec fn spike_slime_m_ai(st: RngState, last: Option<EnemyMoveId>, run_length: u8) -> (RngState, EnemyMoveId) {
    let (s1, roll) = range_draw(st, 0, 100);
    if roll < 30 {
        if last != Some(EnemyMoveId::SpikeSlimeMFlameTackle) || run_length < 2 {
            (s1, EnemyMoveId::SpikeSlimeMFlameTackle)
        } else {
            (s1, EnemyMoveId::SpikeSlimeMLick)
        }
    } else if last != Some(EnemyMoveId::SpikeSlimeMLick) || run_length < 2 {
        (s1, EnemyMoveId::SpikeSlimeMLick)
    } else {
        (s1, EnemyMoveId::SpikeSlimeMFlameTackle)
    }
}

/// Spike Slime (S): always Tackle, after a roll that is thrown away.
pub open spec fn spike_slime_s_ai(st: RngState) -> (RngState, EnemyMoveId) {
    (range_draw(st, 0, 100).0, EnemyMoveId::SpikeSlimeSTackle)
}

/// The next move of an enemy of kind `t`, given its last move and how many times in a row it
/// was made, and the generator state afterwards.
pub open spec fn enemy_ai(t: EnemyType, st: RngState, last: Option<EnemyMoveId>, run_length: u8) -> (RngState, EnemyMoveId) {
    match t {
        EnemyType::AcidSlimeM => acid_slime_m_ai(st, last, run_length),
        EnemyType::AcidSlimeS => acid_slime_s_ai(st, last),
        EnemyType::SpikeSlimeM => spike_slime_m_ai(st, last, run_length),
        _ => spike_slime_s_ai(st),
    }
}

/// A weighted choice between two moves, the first weighing `w0` and the second `w1`.
fn choose_between(ai_rng: &mut StsRandom, first: EnemyMoveId, w0: u64, second: EnemyMoveId, w1: u64) -> (r: EnemyMoveId)
    ensures
        final(ai_rng)@ == rng_step(old(ai_rng)@).0,
        r == (if picks_first(rng_step(old(ai_rng)@).1, w0) { first } else { second }),
{
    let choices = vec![(first, w0), (second, w1)];
    let r = ai_rng.weighted_choose(choices.as_slice());
    proof {
        let ws = choices@.map_values(|c: (EnemyMoveId, u64)| c.1);
        let x = ((rng_step(old(ai_rng)@).1 >> 40u64) * 256) as int;
        assert(ws.len() == 2);
        assert(ws[0] == w0);
        reveal_with_fuel(crate::rng::sts::weighted_pick, 3);
    }
    r
}

fn acid_slime_m_next(ai_rng: &mut StsRandom, last: Option<EnemyMoveId>, run_length: u8) -> (r: EnemyMoveId)
    ensures
        (final(ai_rng)@, r) == acid_slime_m_ai(old(ai_rng)@, last, run_length),
{
    let roll = ai_rng.gen_range(0, 100);
    if roll < 30 {
        if last != Some(EnemyMoveId::AcidSlimeMCorrosiveSpit) || run_length < 2 {
            EnemyMoveId::AcidSlimeMCorrosiveSpit
        } else if ai_rng.next_bool() {
            EnemyMoveId::AcidSlimeMTackle
        } else {
            EnemyMoveId::AcidSlimeMLick
        }
    } else if roll < 70 {
        if last != Some(EnemyMoveId::AcidSlimeMTackle) {
            EnemyMoveId::AcidSlimeMTackle
        } else {
            choose_between(ai_rng, EnemyMoveId::AcidSlimeMCorrosiveSpit, 0x8000_0000, EnemyMoveId::AcidSlimeMLick, 0x8000_0000)
        }
    } else {
        if last != Some(EnemyMoveId::AcidSlimeMLick) || run_length < 2 {
            EnemyMoveId::AcidSlimeMLick
        } else {
            choose_between(ai_rng, EnemyMoveId::AcidSlimeMCorrosiveSpit, 1717986944, EnemyMoveId::AcidSlimeMTackle, 2576980480)
        }
    }
}

fn acid_slime_s_next(ai_rng: &mut StsRandom, last: Option<EnemyMoveId>) -> (r: EnemyMoveId)
    ensures
        (final(ai_rng)@, r) == acid_slime_s_ai(old(ai_rng)@, last),
{
    match last {
        None => {
            let _ = ai_rng.gen_range(0, 100);
            if ai_rng.next_bool() {
                EnemyMoveId::AcidSlimeSTackle
            } else {
                EnemyMoveId::AcidSlimeSLick
            }
        },
        Some(m) => {
            if m == EnemyMoveId::AcidSlimeSLick {
                EnemyMoveId::AcidSlimeSTackle
            } else {
                EnemyMoveId::AcidSlimeSLick
            }
        },
    }
}

fn spike_slime_m_next(ai_rng: &mut StsRandom, last: Option<EnemyMoveId>, run_length: u8) -> (r: EnemyMoveId)
    ensures
        (final(ai_rng)@, r) == spike_slime_m_ai(old(ai_rng)@, last, run_length),
{
    let roll = ai_rng.gen_range(0, 100);
    if roll < 30 {
        if last != Some(EnemyMoveId::SpikeSlimeMFlameTackle) || run_length < 2 {
            EnemyMoveId::SpikeSlimeMFlameTackle
        } else {
            EnemyMoveId::SpikeSlimeMLick
        }
    } else if last != Some(EnemyMoveId::SpikeSlimeMLick) || run_length < 2 {
        EnemyMoveId::SpikeSlimeMLick
    } else {
        EnemyMoveId::SpikeSlimeMFlameTackle
    }
}

fn spike_slime_s_next(ai_rng: &mut StsRandom) -> (r: EnemyMoveId)
    ensures
        (final(ai_rng)@, r) == spike_slime_s_ai(old(ai_rng)@),
{
    let _ = ai_rng.gen_range(0, 100);
    EnemyMoveId::SpikeSlimeSTackle
}

/// The next move of an enemy of kind `t`.
fn next_move_for(t: EnemyType, ai_rng: &mut StsRandom, last: Option<EnemyMoveId>, run_length: u8) -> (r: EnemyMoveId)
    requires
        is_simulated(t),
    ensures
        (final(ai_rng)@, r) == enemy_ai(t, old(ai_rng)@, last, run_length),
{
    match t {
        EnemyType::AcidSlimeM => acid_slime_m_next(ai_rng, last, run_length),
        EnemyType::AcidSlimeS => acid_slime_s_next(ai_rng, last),
        EnemyType::SpikeSlimeM => spike_slime_m_next(ai_rng, last, run_length),
        _ => spike_slime_s_next(ai_rng),
    }
}

/// The abstract state of an enemy.
pub struct EnemyView {
    pub enemy_type: EnemyType,
    pub hp: u32,
    pub hp_max: u32,
    pub debuffs: Seq<(Debuff, StackCount)>,
    pub next_move: EnemyMoveId,
    pub run_length: u8,
}

/// An enemy combatant: its kind, health and debuffs, and the state of its AI (the move it will
/// make next and how many times in a row it will have made it).
#[derive(Debug)]
pub struct Enemy {
    enemy_type: EnemyType,
    hp: u32,
    hp_max: u32,
    debuffs: Vec<(Debuff, StackCount)>,
    next_move: EnemyMoveId,
    run_length: u8,
}

impl View for Enemy {
    type V = EnemyView;

    closed spec fn view(&self) -> EnemyView {
        EnemyView {
            enemy_type: self.enemy_type,
            hp: self.hp,
            hp_max: self.hp_max,
            debuffs: self.debuffs@,
            next_move: self.next_move,
            run_length: self.run_length,
        }
    }
}

/// The run length after making `current` and choosing `next`: one more when they are the same
/// move (saturating), else one.
pub open spec fn next_run_length(current: EnemyMoveId, next: EnemyMoveId, run_length: u8) -> u8 {
    if next == current {
        if run_length == u8::MAX { u8::MAX } else { (run_length + 1) as u8 }
    } else {
        1
    }
}

/// Damage after vulnerability: half as much again, in single-precision floats, rounded down,
/// capped at `u32::MAX`.
pub open spec fn vulnerable_damage(amount: u32) -> u32 {
    let d = float_half_again(amount as nat);
    if d > u32::MAX { u32::MAX } else { d as u32 }
}

impl Enemy {
    /// Spawns an enemy of kind `enemy_type`: its hit points are drawn from `hp_rng` in the
    /// kind's range, and its first move from `ai_rng`.
    pub fn new(enemy_type: EnemyType, hp_rng: &mut StsRandom, ai_rng: &mut StsRandom) -> (r: Enemy)
        requires
            is_simulated(enemy_type),
        ensures
            (final(hp_rng)@, r@.hp as u64) == range_draw(old(hp_rng)@, hp_range(enemy_type).0, (hp_range(enemy_type).1 + 1) as u64),
            r@.hp_max == r@.hp,
            (final(ai_rng)@, r@.next_move) == enemy_ai(enemy_type, old(ai_rng)@, None, 0),
            r@.enemy_type == enemy_type,
            r@.debuffs == Seq::<(Debuff, StackCount)>::empty(),
            r@.run_length == 1,
    {
        let (lo, hi): (u64, u64) = match enemy_type {
            EnemyType::AcidSlimeM => (28, 32),
            EnemyType::AcidSlimeS => (8, 12),
            EnemyType::SpikeSlimeM => (28, 32),
            _ => (10, 14),
        };
        let hp64 = hp_rng.gen_range_inclusive(lo, hi);
        let hp = hp64 as u32;
        let next_move = next_move_for(enemy_type, ai_rng, None, 0);
        Enemy { enemy_type, hp, hp_max: hp, debuffs: Vec::new(), next_move, run_length: 1 }
    }

    pub fn enemy_type(&self) -> (r: EnemyType)
        ensures
            r == self@.enemy_type,
    {
        self.enemy_type
    }

    /// What the player may know of this enemy.
    pub fn status(&self) -> (r: EnemyStatus)
        ensures
            r.enemy_type == self@.enemy_type,
            r.intent == move_intent(self@.next_move),
            r.hp == self@.hp,
            r.hp_max == self@.hp_max,
            r.debuffs@ == self@.debuffs,
    {
        EnemyStatus {
            enemy_type: self.enemy_type,
            intent: self.next_move.intent(),
            hp: self.hp,
            hp_max: self.hp_max,
            debuffs: crate::player::message::copy_vec(&self.debuffs),
        }
    }

    /// Makes the move announced and chooses the following one: returns the move made.
    pub fn next_move(&mut self, ai_rng: &mut StsRandom) -> (r: EnemyMoveId)
        requires
            is_simulated(old(self)@.enemy_type),
        ensures
            r == old(self)@.next_move,
            (final(ai_rng)@, final(self)@.next_move) == enemy_ai(old(self)@.enemy_type, old(ai_rng)@, Some(r), old(self)@.run_length),
            final(self)@.run_length == next_run_length(r, final(self)@.next_move, old(self)@.run_length),
            final(self)@.enemy_type == old(self)@.enemy_type,
            final(self)@.hp == old(self)@.hp,
            final(self)@.hp_max == old(self)@.hp_max,
            final(self)@.debuffs == old(self)@.debuffs,
    {
        let current = self.next_move;
        self.next_move = next_move_for(self.enemy_type, ai_rng, Some(current), self.run_length);
        if self.next_move == current {
            self.run_length = self.run_length.saturating_add(1);
        } else {
            self.run_length = 1;
        }
        current
    }

    /// Applies an effect of the player's to this enemy: damage (half as much again when the
    /// enemy is vulnerable) or a debuff. Returns whether the enemy is still alive.
    pub fn apply_effect(&mut self, effect: Effect) -> (r: bool)
        requires
            effect is DealDamage || effect is Inflict,
            effect matches Effect::Inflict(d, s) ==> forall|i: int| 0 <= i < old(self)@.debuffs.len() ==> old(self)@.debuffs[i].1 + s <= u32::MAX,
        ensures
            final(self)@.enemy_type == old(self)@.enemy_type,
            final(self)@.hp_max == old(self)@.hp_max,
            final(self)@.next_move == old(self)@.next_move,
            final(self)@.run_length == old(self)@.run_length,
            match effect {
                Effect::DealDamage(amount) => {
                    let dealt = if has_debuff_in(old(self)@.debuffs, Debuff::Vulnerable) { vulnerable_damage(amount) } else { amount };
                    &&& final(self)@.hp == spec_saturating_sub(old(self)@.hp, dealt)
                    &&& final(self)@.debuffs == old(self)@.debuffs
                    &&& r == (final(self)@.hp > 0)
                },
                Effect::Inflict(d, s) => {
                    &&& final(self)@.hp == old(self)@.hp
                    &&& final(self)@.debuffs == add_debuff(old(self)@.debuffs, d, s)
                    &&& r
                },
                _ => true,
            },
    {
        match effect {
            Effect::DealDamage(amount) => {
                let mut vulnerable = false;
                let mut i: usize = 0;
                while i < self.debuffs.len()
                    invariant
                        i <= self.debuffs@.len(),
                        vulnerable == exists|k: int| 0 <= k < i && self.debuffs@[k].0 == Debuff::Vulnerable,
                    decreases self.debuffs@.len() - i,
                {
                    if self.debuffs[i].0 == Debuff::Vulnerable {
                        vulnerable = true;
                    }
                    i = i + 1;
                }
                let dealt: u32 = if vulnerable {
                    float_half_again_of(amount)
                } else {
                    amount
                };
                self.hp = self.hp.saturating_sub(dealt);
                self.hp > 0
            },
            Effect::Inflict(debuff, stacks) => {
                self.apply_debuff(debuff, stacks);
                true
            },
            _ => true,
        }
    }

    /// At the start of the enemy's turn its debuffs wear off by one stack each; those with no
    /// stack left are removed.
    pub fn start_turn(&mut self) -> (r: bool)
        ensures
            r,
            final(self)@.debuffs == tick_debuffs(old(self)@.debuffs),
            final(self)@.hp == old(self)@.hp,
            final(self)@.hp_max == old(self)@.hp_max,
            final(self)@.enemy_type == old(self)@.enemy_type,
            final(self)@.next_move == old(self)@.next_move,
            final(self)@.run_length == old(self)@.run_length,
    {
        let mut ticked: Vec<(Debuff, StackCount)> = Vec::new();
        let mut i: usize = 0;
        let ghost start = self.debuffs@;
        while i < self.debuffs.len()
            invariant
                i <= self.debuffs@.len(),
                self.debuffs@ == start,
                ticked@ == start.subrange(0, i as int).map_values(|d: (Debuff, StackCount)| (d.0, spec_saturating_sub(d.1, 1))).filter(
                    |d: (Debuff, StackCount)| d.1 > 0),
            decreases self.debuffs@.len() - i,
        {
            let (d, c) = self.debuffs[i];
            let c2 = c.saturating_sub(1);
            proof {
                let s = start.subrange(0, i as int + 1).map_values(|d: (Debuff, StackCount)| (d.0, spec_saturating_sub(d.1, 1)));
                assert(s.drop_last() =~= start.subrange(0, i as int).map_values(|d: (Debuff, StackCount)| (d.0, spec_saturating_sub(d.1, 1))));
                assert(s.last() == (d, c2));
                reveal_with_fuel(Seq::filter, 1);
            }
            if c2 > 0 {
                ticked.push((d, c2));
            }
            i = i + 1;
        }
        assert(start.subrange(0, start.len() as int) == start);
        self.debuffs = ticked;
        true
    }

    /// Adds `stacks` of `debuff`: to the first entry for it, or as a new entry.
    fn apply_debuff(&mut self, debuff: Debuff, stacks: StackCount) -> (r: bool)
        requires
            forall|i: int| 0 <= i < old(self)@.debuffs.len() ==> old(self)@.debuffs[i].1 + stacks <= u32::MAX,
        ensures
            r,
            final(self)@.debuffs == add_debuff(old(self)@.debuffs, debuff, stacks),
            final(self)@.hp == old(self)@.hp,
            final(self)@.hp_max == old(self)@.hp_max,
            final(self)@.enemy_type == old(self)@.enemy_type,
            final(self)@.next_move == old(self)@.next_move,
            final(self)@.run_length == old(self)@.run_length,
    {
        let mut i: usize = 0;
        while i < self.debuffs.len()
            invariant
                i <= self.debuffs@.len(),
                self@ == old(self)@,
                forall|k: int| 0 <= k < old(self)@.debuffs.len() ==> old(self)@.debuffs[k].1 + stacks <= u32::MAX,
                forall|k: int| 0 <= k < i ==> self.debuffs@[k].0 != debuff,
            decreases self.debuffs@.len() - i,
        {
            let (d, c) = self.debuffs[i];
            assert(old(self)@.debuffs[i as int].1 + stacks <= u32::MAX);
            if d == debuff {
                proof {
                    assert(exists|j: int| 0 <= j < self.debuffs@.len() && self.debuffs@[j].0 == debuff);
                    let j = choose|j: int| 0 <= j < self.debuffs@.len() && self.debuffs@[j].0 == debuff
                        && forall|k: int| 0 <= k < j ==> self.debuffs@[k].0 != debuff;
                    if j != i as int {
                        assert(j < i ==> self.debuffs@[j].0 != debuff);
                        assert(i < j ==> self.debuffs@[i as int].0 != debuff);
                    }
                }
                self.debuffs.set(i, (d, c + stacks));
                return true;
            }
            i = i + 1;
        }
        self.debuffs.push((debuff, stacks));
        true
    }
}

/// An Acid Slime (M) never tackles twice in a row.
pub proof fn law_acid_slime_m_never_tackles_twice(st: RngState, run_length: u8)
    ensures
        acid_slime_m_ai(st, Some(EnemyMoveId::AcidSlimeMTackle), run_length).1 != EnemyMoveId::AcidSlimeMTackle,
{
}

/// An Acid Slime (M) that has used Corrosive Spit or Lick twice in a row does not use it a
/// third time.
pub proof fn law_acid_slime_m_no_third_repeat(st: RngState, last: EnemyMoveId, run_length: u8)
    requires
        last == EnemyMoveId::AcidSlimeMCorrosiveSpit || last == EnemyMoveId::AcidSlimeMLick,
        run_length >= 2,
    ensures
        acid_slime_m_ai(st, Some(last), run_length).1 != last,
{
}

/// A Spike Slime (M) that has used a move twice in a row does not use it a third time.
pub proof fn law_spike_slime_m_no_third_repeat(st: RngState, last: EnemyMoveId, run_length: u8)
    requires
        last == EnemyMoveId::SpikeSlimeMFlameTackle || last == EnemyMoveId::SpikeSlimeMLick,
        run_length >= 2,
    ensures
        spike_slime_m_ai(st, Some(last), run_length).1 != last,
{
}

/// After its first move an Acid Slime (S) alternates between Lick and Tackle without drawing
/// from the generator.
pub proof fn law_acid_slime_s_alternates(st: RngState, last: EnemyMoveId)
    requires
        last == EnemyMoveId::AcidSlimeSLick || last == EnemyMoveId::AcidSlimeSTackle,
    ensures
        acid_slime_s_ai(st, Some(last)).1 != last,
        acid_slime_s_ai(st, Some(last)).0 == st,
        acid_slime_s_ai(st, Some(last)).1 == EnemyMoveId::AcidSlimeSLick || acid_slime_s_ai(st, Some(last)).1 == EnemyMoveId::AcidSlimeSTackle,
{
}

/// Every move an enemy chooses is one of its own.
pub open spec fn own_move(t: EnemyType, m: EnemyMoveId) -> bool {
    match t {
        EnemyType::AcidSlimeM => m == EnemyMoveId::AcidSlimeMCorrosiveSpit || m == EnemyMoveId::AcidSlimeMLick || m == EnemyMoveId::AcidSlimeMTackle,
        EnemyType::AcidSlimeS => m == EnemyMoveId::AcidSlimeSLick || m == EnemyMoveId::AcidSlimeSTackle,
        EnemyType::SpikeSlimeM => m == EnemyMoveId::SpikeSlimeMFlameTackle || m == EnemyMoveId::SpikeSlimeMLick,
        _ => m == EnemyMoveId::SpikeSlimeSTackle,
    }
}

/// An enemy only ever chooses its own moves, whatever its previous move was.
pub proof fn law_enemy_chooses_own_moves(t: EnemyType, st: RngState, last: Option<EnemyMoveId>, run_length: u8)
    requires
        is_simulated(t),
        last matches Some(m) ==> own_move(t, m),
    ensures
        own_move(t, enemy_ai(t, st, last, run_length).1),
{
}

} // verus!
