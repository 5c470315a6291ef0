//! The records the market maker keeps: the global configuration and one curve per token.

pub mod bonding_curve;
pub mod config;
