use vstd::prelude::*;

verus! {

/// Acceleration algorithm to use in the fixed-point iteration.
#[derive(Debug, Clone, Copy, PartialEq, Eq, Structural)]
pub enum Algorithm {
    /// Successive substitution (Picard iteration). No acceleration; next input = `g(x)`.
    Simple,
    /// Secant-based acceleration applied element-wise every 3rd iteration.
    Newton,
    /// Aitken's delta-squared extrapolation applied element-wise every 3rd iteration.
    Aitken,
    /// Anderson mixing over a sliding window of the `max_m` most recent iterates.
    Anderson,
    /// Minimal Polynomial Extrapolation, applied every `extrapolation_period` iterations.
    MPE,
    /// Reduced Rank Extrapolation, applied every `extrapolation_period` iterations.
    RRE,
    /// Vector Epsilon Algorithm (Wynn epsilon, pseudoinverse), applied every `extrapolation_period` iterations.
    VEA,
    /// Scalar Epsilon Algorithm (Wynn epsilon, element-wise), applied every `extrapolation_period` iterations.
    SEA,
}

/// Why the fixed-point iteration loop stopped.
#[derive(Debug, Clone, Copy, PartialEq, Eq, Structural)]
pub enum TerminationStatus {
    /// The convergence measure of the last iterate fell below the threshold.
    Converged,
    /// The loop ran for `max_iter` iterations without converging.
    MaxIterationsReached,
    /// The acceleration step produced no usable proposal (for example a
    /// non-finite value from a near-zero denominator).  The history holds all
    /// iterates up to the failure point and can be resumed with another algorithm.
    NumericalFailure,
    /// The map `g` returned an unusable (non-finite) value for the current
    /// input.  The history holds all valid iterates up to, but not including,
    /// the failing call.
    FunctionFailure,
}

impl TerminationStatus {
    /// The name under which a status is shown to users.
    pub open spec fn label(self) -> Seq<char> {
        match self {
            TerminationStatus::Converged => "Converged"@,
            TerminationStatus::MaxIterationsReached => "MaxIterationsReached"@,
            TerminationStatus::NumericalFailure => "NumericalFailure"@,
            TerminationStatus::FunctionFailure => "FunctionFailure"@,
        }
    }

    /// The status's name, as it is displayed (`Converged`, `MaxIterationsReached`, ...).
    pub fn name(&self) -> (s: String)
        ensures
            s@ == self.label(),
    {
        match self {
            TerminationStatus::Converged => "Converged".to_owned(),
            TerminationStatus::MaxIterationsReached => "MaxIterationsReached".to_owned(),
            TerminationStatus::NumericalFailure => "NumericalFailure".to_owned(),
            TerminationStatus::FunctionFailure => "FunctionFailure".to_owned(),
        }
    }
}

/// The integer settings of a fixed-point run: which algorithm, how many
/// iterations at most, how large the history window is, and how often the
/// periodic extrapolation methods fire.  (The convergence threshold and the
/// damping factor are real numbers and are applied by the caller's closures.)
#[derive(Debug, Clone, Copy, PartialEq, Eq, Structural)]
pub struct Schedule {
    /// Acceleration algorithm to use. Default: `Anderson`.
    pub algorithm: Algorithm,
    /// Hard cap on the number of iterations. Default: `1000`.
    pub max_iter: usize,
    /// History window for Anderson, MPE, RRE, SEA, and VEA. Default: `10`.
    pub max_m: usize,
    /// How often MPE, RRE, SEA, and VEA fire (in iterations). Default: `7`.
    pub extrapolation_period: usize,
}

impl Default for Schedule {
    fn default() -> (s: Self)
        ensures
            s.algorithm == Algorithm::Anderson,
            s.max_iter == 1000,
            s.max_m == 10,
            s.extrapolation_period == 7,
    {
        Schedule { algorithm: Algorithm::Anderson, max_iter: 1000, max_m: 10, extrapolation_period: 7 }
    }
}

} // verus!
