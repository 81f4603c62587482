pub mod message;
pub mod state;
pub mod comms;
pub mod action;
pub mod controller;
