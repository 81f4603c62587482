pub mod card;
pub mod event;
pub mod java;
pub mod neow;
pub mod precision;
pub mod relic;
pub mod seed;
pub mod sts;

pub use seed::Seed;
pub use sts::StsRandom;
