//! Fixed-point arithmetic and what settlement reports and asks for.

pub mod events;
pub mod fixed_math;
pub mod fixed_math_lemmas;
pub mod transfers;
