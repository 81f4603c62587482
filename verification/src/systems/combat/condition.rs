use vstd::prelude::*;

use crate::data::{EnemyCondition, PlayerCondition};
use crate::player::state::spec_saturating_sub;

verus! {

/// A condition on a combatant: it can absorb another application of itself, and may change or
/// wear off as turns start and end.
pub trait Condition: Sized {
    /// What merging `other` into this condition makes of it, or `None` when the two do not
    /// combine.
    spec fn merged(self, other: Self) -> Option<Self>;

    /// Whether merging `other` into this condition keeps every counter in range.
    spec fn merge_fits(self, other: Self) -> bool;

    /// The condition after the start of a turn, and whether it is still active.
    spec fn started(self) -> (Self, bool);

    /// The condition after the end of a turn, and whether it is still active.
    spec fn ended(self) -> (Self, bool);

    /// Whether the end of a turn is defined for this condition.
    spec fn can_end_turn(self) -> bool;

    /// Merges `other` into this condition; answers whether they combined.
    fn merge(&mut self, other: &Self) -> (r: bool)
        requires
            old(self).merged(*other) is Some ==> old(self).merge_fits(*other),
        ensures
            r == old(self).merged(*other) is Some,
            r ==> Some(*final(self)) == old(self).merged(*other),
            !r ==> *final(self) == *old(self);

    /// Updates the condition at the start of a turn; answers whether it is still active.
    fn start_turn(&mut self) -> (r: bool)
        ensures
            (*final(self), r) == old(self).started();

    /// Updates the condition at the end of a turn; answers whether it is still active.
    fn end_turn(&mut self) -> (r: bool)
        requires
            old(self).can_end_turn(),
        ensures
            (*final(self), r) == old(self).ended();
}

/// Merging player conditions: counters of the same condition add up, Panache keeps the larger
/// count and adds the damage, flags stay as they are, and The Bomb never stacks.
pub open spec fn player_merged(c: PlayerCondition, other: PlayerCondition) -> Option<PlayerCondition> {
    match (c, other) {
        (PlayerCondition::Artifact(a), PlayerCondition::Artifact(b)) => Some(PlayerCondition::Artifact((a + b) as u32)),
        (PlayerCondition::Berserk(a), PlayerCondition::Berserk(b)) => Some(PlayerCondition::Berserk((a + b) as u32)),
        (PlayerCondition::Brutality(a), PlayerCondition::Brutality(b)) => Some(PlayerCondition::Brutality((a + b) as u32)),
        (PlayerCondition::DarkEmbrace(a), PlayerCondition::DarkEmbrace(b)) => Some(PlayerCondition::DarkEmbrace((a + b) as u32)),
        (PlayerCondition::DemonForm(a), PlayerCondition::DemonForm(b)) => Some(PlayerCondition::DemonForm((a + b) as u32)),
        (PlayerCondition::DoubleTap(a), PlayerCondition::DoubleTap(b)) => Some(PlayerCondition::DoubleTap((a + b) as u32)),
        (PlayerCondition::Evolve(a), PlayerCondition::Evolve(b)) => Some(PlayerCondition::Evolve((a + b) as u32)),
        (PlayerCondition::FeelNoPain(a), PlayerCondition::FeelNoPain(b)) => Some(PlayerCondition::FeelNoPain((a + b) as u32)),
        (PlayerCondition::FireBreathing(a), PlayerCondition::FireBreathing(b)) => Some(PlayerCondition::FireBreathing((a + b) as u32)),
        (PlayerCondition::FlameBarrier(a), PlayerCondition::FlameBarrier(b)) => Some(PlayerCondition::FlameBarrier((a + b) as u32)),
        (PlayerCondition::Frail(a), PlayerCondition::Frail(b)) => Some(PlayerCondition::Frail((a + b) as u32)),
        (PlayerCondition::Intangible(a), PlayerCondition::Intangible(b)) => Some(PlayerCondition::Intangible((a + b) as u32)),
        (PlayerCondition::Juggernaut(a), PlayerCondition::Juggernaut(b)) => Some(PlayerCondition::Juggernaut((a + b) as u32)),
        (PlayerCondition::Magnetism(a), PlayerCondition::Magnetism(b)) => Some(PlayerCondition::Magnetism((a + b) as u32)),
        (PlayerCondition::Mayhem(a), PlayerCondition::Mayhem(b)) => Some(PlayerCondition::Mayhem((a + b) as u32)),
        (PlayerCondition::Metallicize(a), PlayerCondition::Metallicize(b)) => Some(PlayerCondition::Metallicize((a + b) as u32)),
        (PlayerCondition::NoBlock(a), PlayerCondition::NoBlock(b)) => Some(PlayerCondition::NoBlock((a + b) as u32)),
        (PlayerCondition::Rage(a), PlayerCondition::Rage(b)) => Some(PlayerCondition::Rage((a + b) as u32)),
        (PlayerCondition::Rupture(a), PlayerCondition::Rupture(b)) => Some(PlayerCondition::Rupture((a + b) as u32)),
        (PlayerCondition::Sadistic(a), PlayerCondition::Sadistic(b)) => Some(PlayerCondition::Sadistic((a + b) as u32)),
        (PlayerCondition::StrengthDown(a), PlayerCondition::StrengthDown(b)) => Some(PlayerCondition::StrengthDown((a + b) as u32)),
        (PlayerCondition::Vulnerable(a), PlayerCondition::Vulnerable(b)) => Some(PlayerCondition::Vulnerable((a + b) as u32)),
        (PlayerCondition::Weak(a), PlayerCondition::Weak(b)) => Some(PlayerCondition::Weak((a + b) as u32)),
        (PlayerCondition::Combust(a, b), PlayerCondition::Combust(c, d)) => Some(PlayerCondition::Combust((a + c) as u32, (b + d) as u32)),
        (PlayerCondition::Barricade, PlayerCondition::Barricade) => Some(PlayerCondition::Barricade),
        (PlayerCondition::Confused, PlayerCondition::Confused) => Some(PlayerCondition::Confused),
        (PlayerCondition::Corruption, PlayerCondition::Corruption) => Some(PlayerCondition::Corruption),
        (PlayerCondition::NoDraw, PlayerCondition::NoDraw) => Some(PlayerCondition::NoDraw),
        (PlayerCondition::Panache(a, b), PlayerCondition::Panache(c, d)) => Some(PlayerCondition::Panache(if a >= c { a } else { c }, (b + d) as u32)),
        _ => None,
    }
}

/// Whether merging two player conditions keeps the counters within `u32`.
pub open spec fn player_merge_fits(c: PlayerCondition, other: PlayerCondition) -> bool {
    match (c, other) {
        (PlayerCondition::Artifact(a), PlayerCondition::Artifact(b)) => a + b <= u32::MAX,
        (PlayerCondition::Berserk(a), PlayerCondition::Berserk(b)) => a + b <= u32::MAX,
        (PlayerCondition::Brutality(a), PlayerCondition::Brutality(b)) => a + b <= u32::MAX,
        (PlayerCondition::DarkEmbrace(a), PlayerCondition::DarkEmbrace(b)) => a + b <= u32::MAX,
        (PlayerCondition::DemonForm(a), PlayerCondition::DemonForm(b)) => a + b <= u32::MAX,
        (PlayerCondition::DoubleTap(a), PlayerCondition::DoubleTap(b)) => a + b <= u32::MAX,
        (PlayerCondition::Evolve(a), PlayerCondition::Evolve(b)) => a + b <= u32::MAX,
        (PlayerCondition::FeelNoPain(a), PlayerCondition::FeelNoPain(b)) => a + b <= u32::MAX,
        (PlayerCondition::FireBreathing(a), PlayerCondition::FireBreathing(b)) => a + b <= u32::MAX,
        (PlayerCondition::FlameBarrier(a), PlayerCondition::FlameBarrier(b)) => a + b <= u32::MAX,
        (PlayerCondition::Frail(a), PlayerCondition::Frail(b)) => a + b <= u32::MAX,
        (PlayerCondition::Intangible(a), PlayerCondition::Intangible(b)) => a + b <= u32::MAX,
        (PlayerCondition::Juggernaut(a), PlayerCondition::Juggernaut(b)) => a + b <= u32::MAX,
        (PlayerCondition::Magnetism(a), PlayerCondition::Magnetism(b)) => a + b <= u32::MAX,
        (PlayerCondition::Mayhem(a), PlayerCondition::Mayhem(b)) => a + b <= u32::MAX,
        (PlayerCondition::Metallicize(a), PlayerCondition::Metallicize(b)) => a + b <= u32::MAX,
        (PlayerCondition::NoBlock(a), PlayerCondition::NoBlock(b)) => a + b <= u32::MAX,
        (PlayerCondition::Rage(a), PlayerCondition::Rage(b)) => a + b <= u32::MAX,
        (PlayerCondition::Rupture(a), PlayerCondition::Rupture(b)) => a + b <= u32::MAX,
        (PlayerCondition::Sadistic(a), PlayerCondition::Sadistic(b)) => a + b <= u32::MAX,
        (PlayerCondition::StrengthDown(a), PlayerCondition::StrengthDown(b)) => a + b <= u32::MAX,
        (PlayerCondition::Vulnerable(a), PlayerCondition::Vulnerable(b)) => a + b <= u32::MAX,
        (PlayerCondition::Weak(a), PlayerCondition::Weak(b)) => a + b <= u32::MAX,
        (PlayerCondition::Combust(a, b), PlayerCondition::Combust(c, d)) => a + c <= u32::MAX && b + d <= u32::MAX,
        (PlayerCondition::Panache(a, b), PlayerCondition::Panache(c, d)) => b + d <= u32::MAX,
        _ => true,
    }
}

/// A player condition at the end of a turn: turn counters tick down (and the condition ends
/// at zero), Panache resets to 5, conditions for this turn only end, the rest stay.
pub open spec fn player_ended(c: PlayerCondition) -> (PlayerCondition, bool) {
    match c {
        PlayerCondition::Frail(t) => (PlayerCondition::Frail(spec_saturating_sub(t, 1)), spec_saturating_sub(t, 1) > 0),
        PlayerCondition::Intangible(t) => (PlayerCondition::Intangible(spec_saturating_sub(t, 1)), spec_saturating_sub(t, 1) > 0),
        PlayerCondition::NoBlock(t) => (PlayerCondition::NoBlock(spec_saturating_sub(t, 1)), spec_saturating_sub(t, 1) > 0),
        PlayerCondition::Vulnerable(t) => (PlayerCondition::Vulnerable(spec_saturating_sub(t, 1)), spec_saturating_sub(t, 1) > 0),
        PlayerCondition::Weak(t) => (PlayerCondition::Weak(spec_saturating_sub(t, 1)), spec_saturating_sub(t, 1) > 0),
        PlayerCondition::Panache(_, d) => (PlayerCondition::Panache(5, d), true),
        PlayerCondition::TheBomb(t, d) => (PlayerCondition::TheBomb(spec_saturating_sub(t, 1), d), spec_saturating_sub(t, 1) > 0),
        PlayerCondition::DoubleTap(_) => (c, false),
        PlayerCondition::Rage(_) => (c, false),
        PlayerCondition::StrengthDown(_) => (c, false),
        PlayerCondition::NoDraw => (c, false),
        _ => (c, true),
    }
}

/// A player condition at the start of a turn: Flame Barrier ends, the rest stay.
pub open spec fn player_started(c: PlayerCondition) -> (PlayerCondition, bool) {
    (c, !(c is FlameBarrier))
}

impl Condition for PlayerCondition {
    open spec fn merged(self, other: Self) -> Option<Self> {
        player_merged(self, other)
    }

    open spec fn merge_fits(self, other: Self) -> bool {
        player_merge_fits(self, other)
    }

    open spec fn started(self) -> (Self, bool) {
        player_started(self)
    }

    open spec fn ended(self) -> (Self, bool) {
        player_ended(self)
    }

    /// The Bomb going off is not simulated: its last turn cannot end.
    open spec fn can_end_turn(self) -> bool {
        !(self matches PlayerCondition::TheBomb(t, _) && t <= 1)
    }

    fn merge(&mut self, other: &Self) -> (r: bool) {
        match (*self, *other) {
            (PlayerCondition::Artifact(a), PlayerCondition::Artifact(b)) => {
                *self = PlayerCondition::Artifact(a + b);
                true
            },
            (PlayerCondition::Berserk(a), PlayerCondition::Berserk(b)) => {
                *self = PlayerCondition::Berserk(a + b);
                true
            },
            (PlayerCondition::Brutality(a), PlayerCondition::Brutality(b)) => {
                *self = PlayerCondition::Brutality(a + b);
                true
            },
            (PlayerCondition::DarkEmbrace(a), PlayerCondition::DarkEmbrace(b)) => {
                *self = PlayerCondition::DarkEmbrace(a + b);
                true
            },
            (PlayerCondition::DemonForm(a), PlayerCondition::DemonForm(b)) => {
                *self = PlayerCondition::DemonForm(a + b);
                true
            },
            (PlayerCondition::DoubleTap(a), PlayerCondition::DoubleTap(b)) => {
                *self = PlayerCondition::DoubleTap(a + b);
                true
            },
            (PlayerCondition::Evolve(a), PlayerCondition::Evolve(b)) => {
                *self = PlayerCondition::Evolve(a + b);
                true
            },
            (PlayerCondition::FeelNoPain(a), PlayerCondition::FeelNoPain(b)) => {
                *self = PlayerCondition::FeelNoPain(a + b);
                true
            },
            (PlayerCondition::FireBreathing(a), PlayerCondition::FireBreathing(b)) => {
                *self = PlayerCondition::FireBreathing(a + b);
                true
            },
            (PlayerCondition::FlameBarrier(a), PlayerCondition::FlameBarrier(b)) => {
                *self = PlayerCondition::FlameBarrier(a + b);
                true
            },
            (PlayerCondition::Frail(a), PlayerCondition::Frail(b)) => {
                *self = PlayerCondition::Frail(a + b);
                true
            },
            (PlayerCondition::Intangible(a), PlayerCondition::Intangible(b)) => {
                *self = PlayerCondition::Intangible(a + b);
                true
            },
            (PlayerCondition::Juggernaut(a), PlayerCondition::Juggernaut(b)) => {
                *self = PlayerCondition::Juggernaut(a + b);
                true
            },
            (PlayerCondition::Magnetism(a), PlayerCondition::Magnetism(b)) => {
                *self = PlayerCondition::Magnetism(a + b);
                true
            },
            (PlayerCondition::Mayhem(a), PlayerCondition::Mayhem(b)) => {
                *self = PlayerCondition::Mayhem(a + b);
                true
            },
            (PlayerCondition::Metallicize(a), PlayerCondition::Metallicize(b)) => {
                *self = PlayerCondition::Metallicize(a + b);
                true
            },
            (PlayerCondition::NoBlock(a), PlayerCondition::NoBlock(b)) => {
                *self = PlayerCondition::NoBlock(a + b);
                true
            },
            (PlayerCondition::Rage(a), PlayerCondition::Rage(b)) => {
                *self = PlayerCondition::Rage(a + b);
                true
            },
            (PlayerCondition::Rupture(a), PlayerCondition::Rupture(b)) => {
                *self = PlayerCondition::Rupture(a + b);
                true
            },
            (PlayerCondition::Sadistic(a), PlayerCondition::Sadistic(b)) => {
                *self = PlayerCondition::Sadistic(a + b);
                true
            },
            (PlayerCondition::StrengthDown(a), PlayerCondition::StrengthDown(b)) => {
                *self = PlayerCondition::StrengthDown(a + b);
                true
            },
            (PlayerCondition::Vulnerable(a), PlayerCondition::Vulnerable(b)) => {
                *self = PlayerCondition::Vulnerable(a + b);
                true
            },
            (PlayerCondition::Weak(a), PlayerCondition::Weak(b)) => {
                *self = PlayerCondition::Weak(a + b);
                true
            },
            (PlayerCondition::Combust(a, b), PlayerCondition::Combust(c, d)) => {
                *self = PlayerCondition::Combust(a + c, b + d);
                true
            },
            (PlayerCondition::Barricade, PlayerCondition::Barricade) => true,
            (PlayerCondition::Confused, PlayerCondition::Confused) => true,
            (PlayerCondition::Corruption, PlayerCondition::Corruption) => true,
            (PlayerCondition::NoDraw, PlayerCondition::NoDraw) => true,
            (PlayerCondition::Panache(a, b), PlayerCondition::Panache(c, d)) => {
                *self = PlayerCondition::Panache(if a >= c { a } else { c }, b + d);
                true
            },
            // The Bomb never stacks; other pairs are different conditions.
            _ => false,
        }
    }

    fn start_turn(&mut self) -> (r: bool) {
        match self {
            PlayerCondition::FlameBarrier(_) => false,
            _ => true,
        }
    }

    fn end_turn(&mut self) -> (r: bool) {
        match *self {
            PlayerCondition::Frail(t) => {
                let left = t.saturating_sub(1);
                *self = PlayerCondition::Frail(left);
                left > 0
            },
            PlayerCondition::Intangible(t) => {
                let left = t.saturating_sub(1);
                *self = PlayerCondition::Intangible(left);
                left > 0
            },
            PlayerCondition::NoBlock(t) => {
                let left = t.saturating_sub(1);
                *self = PlayerCondition::NoBlock(left);
                left > 0
            },
            PlayerCondition::Vulnerable(t) => {
                let left = t.saturating_sub(1);
                *self = PlayerCondition::Vulnerable(left);
                left > 0
            },
            PlayerCondition::Weak(t) => {
                let left = t.saturating_sub(1);
                *self = PlayerCondition::Weak(left);
                left > 0
            },
            PlayerCondition::Panache(_, d) => {
                // Always back to 5 at the end of the turn.
                *self = PlayerCondition::Panache(5, d);
                true
            },
            PlayerCondition::TheBomb(t, d) => {
                let left = t.saturating_sub(1);
                *self = PlayerCondition::TheBomb(left, d);
                left > 0
            },
            // These last for this turn only.
            PlayerCondition::DoubleTap(_) | PlayerCondition::Rage(_) | PlayerCondition::StrengthDown(_) | PlayerCondition::NoDraw => false,
            _ => true,
        }
    }
}

/// Merging enemy conditions: counters of the same condition add up, and Ritual remembers
/// whether either was applied this turn.
pub open spec fn enemy_merged(c: EnemyCondition, other: EnemyCondition) -> Option<EnemyCondition> {
    match (c, other) {
        (EnemyCondition::CurlUp(a), EnemyCondition::CurlUp(b)) => Some(EnemyCondition::CurlUp((a + b) as u32)),
        (EnemyCondition::Enrage(a), EnemyCondition::Enrage(b)) => Some(EnemyCondition::Enrage((a + b) as i32)),
        (EnemyCondition::Ritual(a, x), EnemyCondition::Ritual(b, y)) => Some(EnemyCondition::Ritual((a + b) as i32, x || y)),
        (EnemyCondition::SporeCloud(a), EnemyCondition::SporeCloud(b)) => Some(EnemyCondition::SporeCloud((a + b) as u32)),
        (EnemyCondition::StrengthLossThisTurn(a), EnemyCondition::StrengthLossThisTurn(b)) => Some(EnemyCondition::StrengthLossThisTurn((a + b) as i32)),
        (EnemyCondition::Thorns(a), EnemyCondition::Thorns(b)) => Some(EnemyCondition::Thorns((a + b) as u32)),
        (EnemyCondition::Vulnerable(a), EnemyCondition::Vulnerable(b)) => Some(EnemyCondition::Vulnerable((a + b) as u32)),
        (EnemyCondition::Weak(a), EnemyCondition::Weak(b)) => Some(EnemyCondition::Weak((a + b) as u32)),
        _ => None,
    }
}

/// Whether merging two enemy conditions keeps the counters in range.
pub open spec fn enemy_merge_fits(c: EnemyCondition, other: EnemyCondition) -> bool {
    match (c, other) {
        (EnemyCondition::CurlUp(a), EnemyCondition::CurlUp(b)) => a + b <= u32::MAX,
        (EnemyCondition::Enrage(a), EnemyCondition::Enrage(b)) => i32::MIN <= a + b <= i32::MAX,
        (EnemyCondition::Ritual(a, _), EnemyCondition::Ritual(b, _)) => i32::MIN <= a + b <= i32::MAX,
        (EnemyCondition::SporeCloud(a), EnemyCondition::SporeCloud(b)) => a + b <= u32::MAX,
        (EnemyCondition::StrengthLossThisTurn(a), EnemyCondition::StrengthLossThisTurn(b)) => i32::MIN <= a + b <= i32::MAX,
        (EnemyCondition::Thorns(a), EnemyCondition::Thorns(b)) => a + b <= u32::MAX,
        (EnemyCondition::Vulnerable(a), EnemyCondition::Vulnerable(b)) => a + b <= u32::MAX,
        (EnemyCondition::Weak(a), EnemyCondition::Weak(b)) => a + b <= u32::MAX,
        _ => true,
    }
}

/// An enemy condition at the end of a turn, strength aside: Vulnerable and Weak tick down and
/// end at zero; the rest stay.
pub open spec fn enemy_ended(c: EnemyCondition) -> (EnemyCondition, bool) {
    match c {
        EnemyCondition::Vulnerable(t) => (EnemyCondition::Vulnerable(spec_saturating_sub(t, 1)), spec_saturating_sub(t, 1) > 0),
        EnemyCondition::Weak(t) => (EnemyCondition::Weak(spec_saturating_sub(t, 1)), spec_saturating_sub(t, 1) > 0),
        _ => (c, true),
    }
}

impl Condition for EnemyCondition {
    open spec fn merged(self, other: Self) -> Option<Self> {
        enemy_merged(self, other)
    }

    open spec fn merge_fits(self, other: Self) -> bool {
        enemy_merge_fits(self, other)
    }

    open spec fn started(self) -> (Self, bool) {
        (self, true)
    }

    open spec fn ended(self) -> (Self, bool) {
        enemy_ended(self)
    }

    open spec fn can_end_turn(self) -> bool {
        true
    }

    fn merge(&mut self, other: &Self) -> (r: bool) {
        EnemyCondition::merge(self, other)
    }

    fn start_turn(&mut self) -> (r: bool) {
        true
    }

    fn end_turn(&mut self) -> (r: bool) {
        match *self {
            EnemyCondition::Vulnerable(turns) => {
                let left = turns.saturating_sub(1);
                *self = EnemyCondition::Vulnerable(left);
                left > 0
            },
            EnemyCondition::Weak(turns) => {
                let left = turns.saturating_sub(1);
                *self = EnemyCondition::Weak(left);
                left > 0
            },
            _ => true,
        }
    }
}

/// Whether two player conditions are the same condition (whatever their counters).
pub open spec fn player_same_kind(a: PlayerCondition, b: PlayerCondition) -> bool {
    match (a, b) {
        (PlayerCondition::Artifact(..), PlayerCondition::Artifact(..)) => true,
        (PlayerCondition::Barricade, PlayerCondition::Barricade) => true,
        (PlayerCondition::Berserk(..), PlayerCondition::Berserk(..)) => true,
        (PlayerCondition::Brutality(..), PlayerCondition::Brutality(..)) => true,
        (PlayerCondition::Combust(..), PlayerCondition::Combust(..)) => true,
        (PlayerCondition::Confused, PlayerCondition::Confused) => true,
        (PlayerCondition::Corruption, PlayerCondition::Corruption) => true,
        (PlayerCondition::DarkEmbrace(..), PlayerCondition::DarkEmbrace(..)) => true,
        (PlayerCondition::DemonForm(..), PlayerCondition::DemonForm(..)) => true,
        (PlayerCondition::DoubleTap(..), PlayerCondition::DoubleTap(..)) => true,
        (PlayerCondition::Evolve(..), PlayerCondition::Evolve(..)) => true,
        (PlayerCondition::FeelNoPain(..), PlayerCondition::FeelNoPain(..)) => true,
        (PlayerCondition::FireBreathing(..), PlayerCondition::FireBreathing(..)) => true,
        (PlayerCondition::FlameBarrier(..), PlayerCondition::FlameBarrier(..)) => true,
        (PlayerCondition::Frail(..), PlayerCondition::Frail(..)) => true,
        (PlayerCondition::Intangible(..), PlayerCondition::Intangible(..)) => true,
        (PlayerCondition::Juggernaut(..), PlayerCondition::Juggernaut(..)) => true,
        (PlayerCondition::Magnetism(..), PlayerCondition::Magnetism(..)) => true,
        (PlayerCondition::Mayhem(..), PlayerCondition::Mayhem(..)) => true,
        (PlayerCondition::Metallicize(..), PlayerCondition::Metallicize(..)) => true,
        (PlayerCondition::NoBlock(..), PlayerCondition::NoBlock(..)) => true,
        (PlayerCondition::NoDraw, PlayerCondition::NoDraw) => true,
        (PlayerCondition::Panache(..), PlayerCondition::Panache(..)) => true,
        (PlayerCondition::Rage(..), PlayerCondition::Rage(..)) => true,
        (PlayerCondition::Rupture(..), PlayerCondition::Rupture(..)) => true,
        (PlayerCondition::Sadistic(..), PlayerCondition::Sadistic(..)) => true,
        (PlayerCondition::StrengthDown(..), PlayerCondition::StrengthDown(..)) => true,
        (PlayerCondition::TheBomb(..), PlayerCondition::TheBomb(..)) => true,
        (PlayerCondition::Vulnerable(..), PlayerCondition::Vulnerable(..)) => true,
        (PlayerCondition::Weak(..), PlayerCondition::Weak(..)) => true,
        _ => false,
    }
}

/// Merging is symmetric: merging `b` into `a` combines exactly when merging `a` into `b` does,
/// and gives the same condition.
pub proof fn law_player_merge_symmetric(a: PlayerCondition, b: PlayerCondition)
    ensures
        player_merged(a, b) == player_merged(b, a),
        player_merge_fits(a, b) == player_merge_fits(b, a),
{
}

/// Two player conditions combine exactly when they are the same condition, save The Bomb,
/// which never combines.
pub proof fn law_player_merge_same_kind(a: PlayerCondition, b: PlayerCondition)
    ensures
        player_merged(a, b) is Some <==> (player_same_kind(a, b) && !(a is TheBomb)),
{
}

/// Enemy conditions merge symmetrically too.
pub proof fn law_enemy_merge_symmetric(a: EnemyCondition, b: EnemyCondition)
    ensures
        enemy_merged(a, b) == enemy_merged(b, a),
{
}

/// The end of a turn never turns a condition into another one.
pub proof fn law_player_end_turn_keeps_kind(c: PlayerCondition)
    ensures
        player_same_kind(player_ended(c).0, c),
{
}

/// The conditions after applying `c`: it merges into the first condition it combines with, or
/// is added at the end.
pub open spec fn applied<C: Condition>(s: Seq<C>, c: C) -> Seq<C>
    decreases s.len(),
{
    if s.len() == 0 {
        seq![c]
    } else if s[0].merged(c) is Some {
        seq![s[0].merged(c)->0] + s.drop_first()
    } else {
        seq![s[0]] + applied(s.drop_first(), c)
    }
}

/// Whether applying `c` keeps the counter it merges into in range.
pub open spec fn apply_fits<C: Condition>(s: Seq<C>, c: C) -> bool
    decreases s.len(),
{
    if s.len() == 0 {
        true
    } else if s[0].merged(c) is Some {
        s[0].merge_fits(c)
    } else {
        apply_fits(s.drop_first(), c)
    }
}

/// No two enemy conditions of the list combine: there is at most one of each kind.
pub open spec fn one_of_each_kind(s: Seq<EnemyCondition>) -> bool {
    forall|i: int, j: int| 0 <= i < j < s.len() ==> enemy_merged(#[trigger] s[i], #[trigger] s[j]) is None
}

/// An enemy condition combines with itself, merging keeps its kind, and two conditions that
/// combine with a third combine with each other.
proof fn lemma_enemy_kinds(a: EnemyCondition, b: EnemyCondition, c: EnemyCondition)
    ensures
        enemy_merged(c, c) is Some,
        enemy_merged(a, c) is Some ==> (enemy_merged(enemy_merged(a, c)->0, b) is Some <==> enemy_merged(a, b) is Some),
        enemy_merged(a, c) is Some && enemy_merged(b, c) is Some ==> enemy_merged(a, b) is Some,
        enemy_merged(a, b) == enemy_merged(b, a),
{
}

/// Applying a condition to an enemy whose conditions hold at most one of each kind keeps at
/// most one of each kind, and exactly one of the condition's kind: when one was there, it
/// merges in its place and nothing else changes; otherwise the condition is added at the end.
pub proof fn law_enemy_conditions_stay_one_of_each_kind(s: Seq<EnemyCondition>, c: EnemyCondition)
    requires
        one_of_each_kind(s),
    ensures
        one_of_each_kind(applied(s, c)),
        exists|i: int| 0 <= i < applied(s, c).len() && enemy_merged(#[trigger] applied(s, c)[i], c) is Some,
        forall|i: int, j: int| 0 <= i < applied(s, c).len() && 0 <= j < applied(s, c).len()
            && enemy_merged(#[trigger] applied(s, c)[i], c) is Some && enemy_merged(#[trigger] applied(s, c)[j], c) is Some ==> i == j,
        forall|i: int| 0 <= i < s.len() && enemy_merged(#[trigger] s[i], c) is Some ==> applied(s, c).len() == s.len()
            && applied(s, c)[i] == enemy_merged(s[i], c)->0
            && forall|j: int| 0 <= j < s.len() && j != i ==> applied(s, c)[j] == s[j],
        (forall|i: int| 0 <= i < s.len() ==> enemy_merged(#[trigger] s[i], c) is None) ==> applied(s, c) == s.push(c),
        forall|d: EnemyCondition, k: int| 0 <= k < applied(s, c).len() && #[trigger] enemy_merged(applied(s, c)[k], d) is Some
            ==> enemy_merged(c, d) is Some || exists|m: int| 0 <= m < s.len() && enemy_merged(#[trigger] s[m], d) is Some,
    decreases s.len(),
{
    let a = applied(s, c);
    lemma_enemy_kinds(c, c, c);
    if s.len() == 0 {
        assert(a =~= s.push(c));
        assert(enemy_merged(a[0], c) is Some);
    } else {
        let s0 = s[0];
        let rest = s.drop_first();
        assert(forall|k: int| 0 <= k < rest.len() ==> rest[k] == #[trigger] s[k + 1]);
        if enemy_merged(s0, c) is Some {
            let m = enemy_merged(s0, c)->0;
            assert(a == seq![m] + rest);
            assert forall|i: int, j: int| 0 <= i < j < a.len() implies enemy_merged(#[trigger] a[i], #[trigger] a[j]) is None by {
                if i == 0 {
                    lemma_enemy_kinds(s0, s[j], c);
                    assert(enemy_merged(s[0], s[j]) is None);
                } else {
                    assert(enemy_merged(s[i], s[j]) is None);
                }
            }
            lemma_enemy_kinds(s0, c, c);
            assert(enemy_merged(a[0], c) is Some);
            assert forall|i: int| 0 < i < a.len() implies enemy_merged(#[trigger] a[i], c) is None by {
                lemma_enemy_kinds(s0, s[i], c);
                assert(enemy_merged(s[0], s[i]) is None);
            }
            assert forall|i: int| 0 <= i < s.len() && enemy_merged(#[trigger] s[i], c) is Some implies i == 0 by {
                if i > 0 {
                    lemma_enemy_kinds(s0, s[i], c);
                    assert(enemy_merged(s[0], s[i]) is None);
                }
            }
            assert forall|d: EnemyCondition, k: int| 0 <= k < a.len() && #[trigger] enemy_merged(a[k], d) is Some
                implies enemy_merged(c, d) is Some || exists|mm: int| 0 <= mm < s.len() && enemy_merged(#[trigger] s[mm], d) is Some by {
                if k == 0 {
                    lemma_enemy_kinds(s0, d, c);
                    assert(enemy_merged(s[0], d) is Some);
                } else {
                    assert(enemy_merged(s[k], d) is Some);
                }
            }
        } else {
            assert(one_of_each_kind(rest)) by {
                assert forall|i: int, j: int| 0 <= i < j < rest.len() implies enemy_merged(#[trigger] rest[i], #[trigger] rest[j]) is None by {
                    assert(enemy_merged(s[i + 1], s[j + 1]) is None);
                }
            }
            law_enemy_conditions_stay_one_of_each_kind(rest, c);
            let ar = applied(rest, c);
            assert(a == seq![s0] + ar);
            assert forall|k: int| 0 <= k < ar.len() implies enemy_merged(s0, #[trigger] ar[k]) is None by {
                lemma_enemy_kinds(ar[k], s0, c);
                if enemy_merged(ar[k], s0) is Some {
                    if enemy_merged(c, s0) is Some {
                        lemma_enemy_kinds(s0, c, c);
                    } else {
                        let mm = choose|mm: int| 0 <= mm < rest.len() && enemy_merged(#[trigger] rest[mm], s0) is Some;
                        lemma_enemy_kinds(rest[mm], s0, c);
                        assert(enemy_merged(s[0], s[mm + 1]) is None);
                    }
                }
            }
            assert forall|i: int, j: int| 0 <= i < j < a.len() implies enemy_merged(#[trigger] a[i], #[trigger] a[j]) is None by {
                if i == 0 {
                    assert(a[j] == ar[j - 1]);
                } else {
                    assert(a[i] == ar[i - 1] && a[j] == ar[j - 1]);
                }
            }
            let wi = choose|i: int| 0 <= i < ar.len() && enemy_merged(#[trigger] ar[i], c) is Some;
            assert(a[wi + 1] == ar[wi]);
            assert forall|i: int, j: int| 0 <= i < a.len() && 0 <= j < a.len()
                && enemy_merged(#[trigger] a[i], c) is Some && enemy_merged(#[trigger] a[j], c) is Some implies i == j by {
                if i > 0 && j > 0 {
                    assert(a[i] == ar[i - 1] && a[j] == ar[j - 1]);
                }
            }
            assert forall|i: int| 0 <= i < s.len() && enemy_merged(#[trigger] s[i], c) is Some implies a.len() == s.len()
                && a[i] == enemy_merged(s[i], c)->0 && forall|j: int| 0 <= j < s.len() && j != i ==> a[j] == s[j] by {
                assert(i > 0);
                assert(enemy_merged(rest[i - 1], c) is Some);
                assert forall|j: int| 0 <= j < s.len() && j != i implies a[j] == s[j] by {
                    if j > 0 {
                        assert(ar[j - 1] == rest[j - 1]);
                    }
                }
            }
            if forall|i: int| 0 <= i < s.len() ==> enemy_merged(#[trigger] s[i], c) is None {
                assert forall|i: int| 0 <= i < rest.len() implies enemy_merged(#[trigger] rest[i], c) is None by {
                    assert(enemy_merged(s[i + 1], c) is None);
                }
                assert(a =~= s.push(c));
            }
            assert forall|d: EnemyCondition, k: int| 0 <= k < a.len() && #[trigger] enemy_merged(a[k], d) is Some
                implies enemy_merged(c, d) is Some || exists|mm: int| 0 <= mm < s.len() && enemy_merged(#[trigger] s[mm], d) is Some by {
                if k == 0 {
                    assert(enemy_merged(s[0], d) is Some);
                } else {
                    assert(enemy_merged(ar[k - 1], d) is Some);
                    if !(enemy_merged(c, d) is Some) {
                        let mm = choose|mm: int| 0 <= mm < rest.len() && enemy_merged(#[trigger] rest[mm], d) is Some;
                        assert(enemy_merged(s[mm + 1], d) is Some);
                    }
                }
            }
        }
    }
}

/// The conditions after the start of a turn: each updated, those no longer active dropped.
pub open spec fn after_start<C: Condition>(s: Seq<C>) -> Seq<C>
    decreases s.len(),
{
    if s.len() == 0 {
        Seq::empty()
    } else {
        let (x, active) = s.last().started();
        let rest = after_start(s.drop_last());
        if active { rest.push(x) } else { rest }
    }
}

/// The conditions after the end of a turn: each updated, those no longer active dropped.
pub open spec fn after_end<C: Condition>(s: Seq<C>) -> Seq<C>
    decreases s.len(),
{
    if s.len() == 0 {
        Seq::empty()
    } else {
        let (x, active) = s.last().ended();
        let rest = after_end(s.drop_last());
        if active { rest.push(x) } else { rest }
    }
}

/// Applies a condition: merges it into the first condition it combines with, or adds it.
pub fn merge_or_push<C: Condition + Copy>(conditions: &mut Vec<C>, condition: C)
    requires
        apply_fits(old(conditions)@, condition),
    ensures
        final(conditions)@ == applied(old(conditions)@, condition),
{
    let ghost s = conditions@;
    let mut i: usize = 0;
    assert(s.subrange(0, s.len() as int) == s);
    assert(s.subrange(0, 0) + applied(s, condition) == applied(s, condition));
    while i < conditions.len()
        invariant
            i <= conditions@.len(),
            conditions@ == s,
            s == old(conditions)@,
            apply_fits(s.subrange(i as int, s.len() as int), condition),
            applied(s, condition) == s.subrange(0, i as int) + applied(s.subrange(i as int, s.len() as int), condition),
        decreases conditions@.len() - i,
    {
        let ghost tail = s.subrange(i as int, s.len() as int);
        assert(tail[0] == s[i as int]);
        assert(tail.drop_first() == s.subrange(i as int + 1, s.len() as int));
        let mut existing = conditions[i];
        let ghost before = existing;
        if existing.merge(&condition) {
            conditions.set(i, existing);
            proof {
                assert(before == tail[0]);
                assert(Some(existing) == before.merged(condition));
                assert(applied(tail, condition) == seq![tail[0].merged(condition)->0] + tail.drop_first());
                assert(applied(tail, condition) == seq![existing] + tail.drop_first());
                assert(conditions@ =~= s.subrange(0, i as int) + (seq![existing] + tail.drop_first()));
                assert(conditions@ == applied(s, condition));
            }
            return;
        }
        proof {
            assert(s.subrange(0, i as int + 1) == s.subrange(0, i as int) + seq![s[i as int]]);
            assert(applied(s, condition) =~= s.subrange(0, i as int + 1) + applied(s.subrange(i as int + 1, s.len() as int), condition));
        }
        i = i + 1;
    }
    conditions.push(condition);
    proof {
        assert(s.subrange(0, s.len() as int) == s);
        assert(s.subrange(s.len() as int, s.len() as int) == Seq::<C>::empty());
        assert(conditions@ =~= s + seq![condition]);
    }
}

/// Starts a turn for each condition, in order, keeping those still active.
pub fn retain_started<C: Condition + Copy>(conditions: &mut Vec<C>)
    ensures
        final(conditions)@ == after_start(old(conditions)@),
{
    let ghost s = conditions@;
    let mut kept: Vec<C> = Vec::new();
    let mut i: usize = 0;
    while i < conditions.len()
        invariant
            i <= conditions@.len(),
            conditions@ == s,
            kept@ == after_start(s.subrange(0, i as int)),
        decreases conditions@.len() - i,
    {
        let mut c = conditions[i];
        proof {
            assert(s.subrange(0, i as int + 1).drop_last() == s.subrange(0, i as int));
            assert(s.subrange(0, i as int + 1).last() == c);
        }
        if c.start_turn() {
            kept.push(c);
        }
        i = i + 1;
    }
    assert(s.subrange(0, s.len() as int) == s);
    *conditions = kept;
}

/// Ends a turn for each condition, in order, keeping those still active.
pub fn retain_ended<C: Condition + Copy>(conditions: &mut Vec<C>)
    requires
        forall|i: int| 0 <= i < old(conditions)@.len() ==> (#[trigger] old(conditions)@[i]).can_end_turn(),
    ensures
        final(conditions)@ == after_end(old(conditions)@),
{
    let ghost s = conditions@;
    let mut kept: Vec<C> = Vec::new();
    let mut i: usize = 0;
    while i < conditions.len()
        invariant
            i <= conditions@.len(),
            conditions@ == s,
            forall|k: int| 0 <= k < s.len() ==> (#[trigger] s[k]).can_end_turn(),
            kept@ == after_end(s.subrange(0, i as int)),
        decreases conditions@.len() - i,
    {
        let mut c = conditions[i];
        proof {
            assert(s.subrange(0, i as int + 1).drop_last() == s.subrange(0, i as int));
            assert(s.subrange(0, i as int + 1).last() == c);
            assert(s[i as int].can_end_turn());
        }
        if c.end_turn() {
            kept.push(c);
        }
        i = i + 1;
    }
    assert(s.subrange(0, s.len() as int) == s);
    *conditions = kept;
}

} // verus!
