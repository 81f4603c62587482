pub mod block_system;
pub mod damage_system;
