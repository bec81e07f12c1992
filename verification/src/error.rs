//! The ways in which an input can be refused.

use vstd::prelude::*;

verus! {

/// Why a set of inputs was not accepted.
#[derive(Clone, Copy, Debug, PartialEq, Eq, Structural)]
pub enum PricingError {
    /// The option kind was spelled as neither `call` nor `put`.
    InvalidOptionKind,
    /// A price, the time to expiry or the volatility was not a finite value
    /// above zero, or the rate was not finite.
    PreconditionViolation,
}

} // verus!
