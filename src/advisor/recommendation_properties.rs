use vstd::prelude::*;

verus! {

/// The category of the recommendation.
#[derive(Clone, Copy, Debug, PartialEq, Eq, Structural)]
pub enum Category {
    HighAvailability,
    Security,
    Performance,
    Cost,
}

/// The business impact of the recommendation.
#[derive(Clone, Copy, Debug, PartialEq, Eq, Structural)]
pub enum Impact {
    High,
    Medium,
    Low,
}

/// The potential risk of not implementing the recommendation.
#[derive(Clone, Copy, Debug, PartialEq, Eq, Structural)]
pub enum Risk {
    Error,
    Warning,
    /// No risk (named `None` on the wire).
    NoRisk,
}

} // verus!
