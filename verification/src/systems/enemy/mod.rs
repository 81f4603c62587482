pub mod enemy_characteristics;
pub mod enemy_state;
pub mod enemy_party;
pub mod enemy_system;
pub mod enemy_in_combat;
pub mod party_generator;
