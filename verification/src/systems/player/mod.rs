pub mod player_in_combat;
pub mod main_screen_system;
