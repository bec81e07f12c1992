//! The inputs of a pricing, validated once when they are put together.

use vstd::prelude::*;
use crate::binary64::Binary64;
use crate::error::PricingError;
use crate::kind::OptionKind;

verus! {

/// The terms of one pricing, as plain values.
#[derive(Clone, Copy, Debug, PartialEq, Eq, Structural)]
pub struct Terms {
    /// Current price of the underlying.
    pub spot_price: Binary64,
    /// Price at which the option is exercised.
    pub strike_price: Binary64,
    /// Years until expiry.
    pub time_to_expiry: Binary64,
    /// Annualized volatility.
    pub volatility: Binary64,
    /// Continuously compounded risk-free rate.
    pub risk_free_rate: Binary64,
    /// Call or put.
    pub option_kind: OptionKind,
}

impl Terms {
    /// The terms the pricing formula is defined on: both prices, the time
    /// and the volatility are finite and above zero, and the rate is finite.
    pub open spec fn admissible(self) -> bool {
        &&& self.spot_price.positive()
        &&& self.strike_price.positive()
        &&& self.time_to_expiry.positive()
        &&& self.volatility.positive()
        &&& self.risk_free_rate.finite()
    }
}

/// Terms that were found admissible: whoever holds an `OptionParams` holds
/// admissible terms, and they do not change.
#[derive(Clone, Copy, Debug)]
pub struct OptionParams {
    terms: Terms,
}

impl View for OptionParams {
    type V = Terms;

    closed spec fn view(&self) -> Terms {
        self.terms
    }
}

impl OptionParams {
    #[verifier::type_invariant]
    spec fn well_formed(self) -> bool {
        self.terms.admissible()
    }

    /// What `new` makes of its arguments. An unknown spelling of the kind
    /// is reported before anything is said about the numbers.
    pub open spec fn validated(
        spot_price: Binary64,
        strike_price: Binary64,
        time_to_expiry: Binary64,
        volatility: Binary64,
        risk_free_rate: Binary64,
        option_type: Seq<char>,
    ) -> Result<Terms, PricingError> {
        match OptionKind::spelled_by(option_type) {
            None => Err(PricingError::InvalidOptionKind),
            Some(option_kind) => {
                let terms = Terms {
                    spot_price,
                    strike_price,
                    time_to_expiry,
                    volatility,
                    risk_free_rate,
                    option_kind,
                };
                if terms.admissible() {
                    Ok(terms)
                } else {
                    Err(PricingError::PreconditionViolation)
                }
            },
        }
    }

    /// Puts the inputs of a pricing together, or says why they cannot be priced.
    pub fn new(
        spot_price: Binary64,
        strike_price: Binary64,
        time_to_expiry: Binary64,
        volatility: Binary64,
        risk_free_rate: Binary64,
        option_type: String,
    ) -> (r: Result<OptionParams, PricingError>)
        ensures
            match r {
                Ok(params) => OptionParams::validated(
                    spot_price,
                    strike_price,
                    time_to_expiry,
                    volatility,
                    risk_free_rate,
                    option_type@,
                ) == Ok::<Terms, PricingError>(params@),
                Err(error) => OptionParams::validated(
                    spot_price,
                    strike_price,
                    time_to_expiry,
                    volatility,
                    risk_free_rate,
                    option_type@,
                ) == Err::<Terms, PricingError>(error),
            },
    {
        let option_kind = match OptionKind::parse(option_type.as_str()) {
            Ok(kind) => kind,
            Err(error) => {
                return Err(error);
            },
        };
        if spot_price.is_positive() && strike_price.is_positive() && time_to_expiry.is_positive()
            && volatility.is_positive() && risk_free_rate.is_finite() {
            Ok(
                OptionParams {
                    terms: Terms {
                        spot_price,
                        strike_price,
                        time_to_expiry,
                        volatility,
                        risk_free_rate,
                        option_kind,
                    },
                },
            )
        } else {
            Err(PricingError::PreconditionViolation)
        }
    }

    /// The terms held, which are admissible.
    pub fn terms(&self) -> (terms: Terms)
        ensures
            terms == self@,
            terms.admissible(),
    {
        proof {
            use_type_invariant(self);
        }
        self.terms
    }
}

} // verus!
