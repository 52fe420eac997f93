//! Consensus parameters of the supported chains.

pub mod network;
pub mod params;
pub mod pow;
