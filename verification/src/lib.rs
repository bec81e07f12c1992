//! The decision core of a Black-Scholes pricing kernel.
//!
//! Floating-point values cross this crate as IEEE-754 binary64 bit patterns
//! ([`binary64::Binary64`]), so that every rule about them is a statement on
//! integers.

pub mod binary64;
pub mod error;
pub mod kind;
pub mod params;
pub mod solver;
