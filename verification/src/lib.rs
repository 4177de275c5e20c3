//! Control core for a bank of motorised window blinds driven over a serial
//! link: byte-at-a-time command decoding, per-blind position and target
//! bookkeeping, the direction decision, and the position report.

pub mod blind;
pub mod controller;
pub mod decoder;
pub mod motion;
pub mod registry;
pub mod report;
pub mod simulator;
pub mod token;
