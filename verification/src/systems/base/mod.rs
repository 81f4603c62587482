pub mod gold_system;
pub mod health_system;
pub mod relic_system;
pub mod potion_system;
pub mod deck_system;
pub mod combat_context;
