//! Reward weights for radios of a wireless coverage network, and the
//! schedule on which their epochs are verified and rewarded.

pub mod decimal;
pub mod speedtest;
pub mod coverage;
pub mod schedule;
pub mod settings;
