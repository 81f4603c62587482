pub mod condition;
pub mod enemy_condition;
pub mod damage_calculator;
pub mod condition_system;
pub mod enemy_condition_system;
pub mod energy_system;
pub mod block_system;
pub mod discard_system;
pub mod player_condition_system;
pub mod player_combat_system;
pub mod enemy_combat_system;
pub mod draw_system;
pub mod effect_system;
pub mod enemy_effect_system;
pub mod player_effect_system;
