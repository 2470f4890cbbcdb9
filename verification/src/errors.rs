//! Error taxonomy of the projection core.

use vstd::prelude::*;

verus! {

/// The fixed vocabulary of rate curves a rate set can hold.
#[derive(Clone, Copy, Debug, PartialEq, Eq, Structural)]
pub enum CurveKind {
    PremiumLoads,
    PolicyFees,
    UnitLoads,
    CorridorFactors,
    NaarDiscounts,
    CoiRates,
    InterestRates,
}

/// A failure of the projection core.
#[derive(Clone, Debug)]
pub enum EngineError {
    /// A rate set could not be built: its backing tables were unreadable or
    /// malformed. The message describes the underlying failure.
    Provision(String),
    /// A required curve is absent from the rate set handed to the engine.
    MissingCurve(CurveKind),
    /// The solver's bracketing or bisection exceeded its iteration cap
    /// without converging.
    NoConvergence,
}

impl EngineError {
    /// A short description of the error.
    pub fn describe(&self) -> (r: String)
        ensures
            r@.len() > 0,
    {
        match self {
            EngineError::Provision(_) => {
                proof {
                    reveal_strlit("rate set could not be built");
                }
                "rate set could not be built".to_owned()
            },
            EngineError::MissingCurve(_) => {
                proof {
                    reveal_strlit("required rate curve is missing");
                }
                "required rate curve is missing".to_owned()
            },
            EngineError::NoConvergence => {
                proof {
                    reveal_strlit("premium solver did not converge");
                }
                "premium solver did not converge".to_owned()
            },
        }
    }
}

} // verus!
