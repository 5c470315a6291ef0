//! The four operations: configure, launch, swap and migrate.
//!
//! Each takes the accounts it works on as plain values, decides, changes
//! the records it owns and says what has to be moved and announced. Moving
//! balances is left to whoever holds them.

pub mod configure;
pub mod launch;
pub mod migrate;
pub mod swap;
