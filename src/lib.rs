//! Generic bridge to a black-box numerical minimizer, with a portfolio mode
//! that races several independent copies of the engine and keeps the best
//! candidate any of them evaluated.
//!
//! This crate holds the decisions of that protocol: the order on scores, the
//! shared best-result register, the parameters and the plan of one engine
//! call. Reals are carried as their IEEE-754 binary64 bit patterns.
pub mod float_bits;
pub mod params;
pub mod portfolio;
pub mod register;
