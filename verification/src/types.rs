use vstd::prelude::*;

verus! {

/// Hit points.
pub type Hp = u32;
/// Maximum hit points.
pub type HpMax = u32;
/// Current and maximum hit points.
pub type Health = (Hp, HpMax);
pub type Gold = u32;
pub type Block = u32;
pub type Energy = u32;
pub type StackCount = u32;
pub type AttackDamage = u32;
pub type AttackCount = u32;
pub type Strength = i32;
pub type Dexterity = i32;
pub type DrawCount = usize;
pub type HandIndex = usize;
pub type DeckIndex = usize;
pub type PotionIndex = usize;
pub type EnemyIndex = usize;
pub type ColumnIndex = usize;
pub type RowIndex = usize;
pub type Floor = u64;

} // verus!
