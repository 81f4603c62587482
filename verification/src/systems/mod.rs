pub mod combat;
pub mod damage;
pub mod base;
pub mod enemy;
pub mod map;
pub mod player;
