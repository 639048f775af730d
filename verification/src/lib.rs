//! Core of a CANopen bus monitor: frame classification, the driver's
//! bounded message cache, throughput estimation and message filtering,
//! each with a machine-checked contract.

pub mod bitrate;
pub mod driver;
pub mod filter;
pub mod inbox;
pub mod message_cached;
pub mod pinned_filter;
