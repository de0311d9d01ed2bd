use vstd::prelude::*;
use crate::types::Algorithm;

verus! {

/// The kind of step the iteration takes to form its next input, decided from
/// the algorithm and the number `k` of iterates produced so far by this run.
/// The arithmetic of each step is carried out by the caller on the history.
#[derive(Debug, Clone, Copy, PartialEq, Eq, Structural)]
pub enum Step {
    /// Plain substitution: the next input is the last output.
    Substitute,
    /// Aitken's delta-squared extrapolation from the last two iterates.
    Aitken,
    /// Secant (Newton) step from the last two iterates.
    Newton,
    /// Anderson mixing over the last `window` iterates.
    Anderson { window: usize },
    /// Minimal Polynomial Extrapolation over the last `window` outputs.
    Mpe { window: usize },
    /// Reduced Rank Extrapolation over the last `window` outputs.
    Rre { window: usize },
    /// Wynn epsilon extrapolation over the last `window` outputs (an odd
    /// number); `scalar` selects the element-wise variant (SEA) over the
    /// vector variant (VEA).
    Epsilon { window: usize, scalar: bool },
}

/// `k` is a multiple of `period`; a period of zero has only zero as multiple.
pub open spec fn fires(k: int, period: int) -> bool {
    if period == 0 {
        k == 0
    } else {
        k % period == 0
    }
}

/// The history window: the `max_m` most recent iterates, or all `k` of them
/// when there are fewer.
pub open spec fn window_size(k: int, max_m: int) -> int {
    if k < max_m {
        k
    } else {
        max_m
    }
}

/// The epsilon table needs an odd number of columns: an even window drops its oldest iterate.
pub open spec fn odd_window(m: int) -> int {
    if m % 2 == 0 {
        m - 1
    } else {
        m
    }
}

/// The step that `algorithm` takes after the `k`-th iterate of its run.
///
/// Aitken and Newton fire on every third iterate; Anderson fires once two
/// iterates are in the window; MPE, SEA and VEA (three iterates) and RRE (four)
/// fire every `period` iterates.  Every other iterate is a plain substitution.
pub open spec fn planned_step(algorithm: Algorithm, k: int, max_m: int, period: int) -> Step {
    let m: int = window_size(k, max_m);
    match algorithm {
        Algorithm::Simple => Step::Substitute,
        Algorithm::Aitken => if k % 3 == 0 { Step::Aitken } else { Step::Substitute },
        Algorithm::Newton => if k % 3 == 0 { Step::Newton } else { Step::Substitute },
        Algorithm::Anderson => if m >= 2 {
            Step::Anderson { window: m as usize }
        } else {
            Step::Substitute
        },
        Algorithm::MPE => if fires(k, period) && m >= 3 {
            Step::Mpe { window: m as usize }
        } else {
            Step::Substitute
        },
        Algorithm::RRE => if fires(k, period) && m >= 4 {
            Step::Rre { window: m as usize }
        } else {
            Step::Substitute
        },
        Algorithm::SEA => if fires(k, period) && m >= 3 {
            Step::Epsilon { window: odd_window(m) as usize, scalar: true }
        } else {
            Step::Substitute
        },
        Algorithm::VEA => if fires(k, period) && m >= 3 {
            Step::Epsilon { window: odd_window(m) as usize, scalar: false }
        } else {
            Step::Substitute
        },
    }
}

/// How many of the most recent iterates a step reads.
pub open spec fn history_needed(step: Step) -> int {
    match step {
        Step::Substitute => 1,
        Step::Aitken => 2,
        Step::Newton => 2,
        Step::Anderson { window } => window as int,
        Step::Mpe { window } => window as int,
        Step::Rre { window } => window as int,
        Step::Epsilon { window, .. } => window as int,
    }
}

/// Decides the step that `algorithm` takes after the `k`-th iterate of the
/// current run, with history window `max_m` and extrapolation period
/// `extrapolation_period`.
pub fn plan_step(algorithm: Algorithm, k: usize, max_m: usize, extrapolation_period: usize) -> (s: Step)
    ensures
        s == planned_step(algorithm, k as int, max_m as int, extrapolation_period as int),
{
    let m: usize = if k < max_m { k } else { max_m };
    let periodic: bool = k.is_multiple_of(extrapolation_period);
    match algorithm {
        Algorithm::Simple => Step::Substitute,
        Algorithm::Aitken => if k % 3 == 0 { Step::Aitken } else { Step::Substitute },
        Algorithm::Newton => if k % 3 == 0 { Step::Newton } else { Step::Substitute },
        Algorithm::Anderson => if m >= 2 {
            Step::Anderson { window: m }
        } else {
            Step::Substitute
        },
        Algorithm::MPE => if periodic && m >= 3 {
            Step::Mpe { window: m }
        } else {
            Step::Substitute
        },
        Algorithm::RRE => if periodic && m >= 4 {
            Step::Rre { window: m }
        } else {
            Step::Substitute
        },
        Algorithm::SEA => if periodic && m >= 3 {
            Step::Epsilon { window: if m % 2 == 0 { m - 1 } else { m }, scalar: true }
        } else {
            Step::Substitute
        },
        Algorithm::VEA => if periodic && m >= 3 {
            Step::Epsilon { window: if m % 2 == 0 { m - 1 } else { m }, scalar: false }
        } else {
            Step::Substitute
        },
    }
}

/// A planned step never reads more iterates than the run has produced, and a
/// windowed step never reads more than `max_m` of them.
pub proof fn lemma_step_reads_available_history(algorithm: Algorithm, k: int, max_m: int, period: int)
    requires
        1 <= k <= usize::MAX,
        0 <= max_m <= usize::MAX,
    ensures
        1 <= history_needed(planned_step(algorithm, k, max_m, period)) <= k,
        planned_step(algorithm, k, max_m, period) != Step::Substitute
            && planned_step(algorithm, k, max_m, period) != Step::Aitken
            && planned_step(algorithm, k, max_m, period) != Step::Newton
            ==> history_needed(planned_step(algorithm, k, max_m, period)) <= max_m,
{
}

/// Aitken and Newton accelerate exactly on every third iterate of their run;
/// MPE, RRE, SEA and VEA accelerate only on multiples of the extrapolation
/// period, and substitute in between; Simple always substitutes.
pub proof fn lemma_acceleration_period(algorithm: Algorithm, k: int, max_m: int, period: int)
    ensures
        algorithm == Algorithm::Simple ==> planned_step(algorithm, k, max_m, period) == Step::Substitute,
        algorithm == Algorithm::Aitken ==> (planned_step(algorithm, k, max_m, period) == Step::Aitken
            <==> k % 3 == 0),
        algorithm == Algorithm::Newton ==> (planned_step(algorithm, k, max_m, period) == Step::Newton
            <==> k % 3 == 0),
        (algorithm == Algorithm::MPE || algorithm == Algorithm::RRE || algorithm == Algorithm::SEA
            || algorithm == Algorithm::VEA) && !fires(k, period)
            ==> planned_step(algorithm, k, max_m, period) == Step::Substitute,
{
}

/// The epsilon methods always work on an odd window of at least three iterates.
pub proof fn lemma_epsilon_window_odd(algorithm: Algorithm, k: int, max_m: int, period: int)
    requires
        0 <= k <= usize::MAX,
        0 <= max_m <= usize::MAX,
    ensures
        planned_step(algorithm, k, max_m, period) matches Step::Epsilon { window, .. }
            ==> window >= 3 && window % 2 == 1,
{
}

/// Simple never accelerates: every planned step is a plain substitution.
pub proof fn lemma_simple_step(k: int, max_m: int, period: int)
    ensures
        planned_step(Algorithm::Simple, k, max_m, period) == Step::Substitute,
{
}

/// Aitken takes an Aitken step exactly when `k` is a multiple of three and a
/// plain substitution otherwise; Newton likewise with a Newton step.  Neither
/// ever plans a step of another method.
pub proof fn lemma_aitken_newton_step(k: int, max_m: int, period: int)
    ensures
        k % 3 == 0 ==> planned_step(Algorithm::Aitken, k, max_m, period) == Step::Aitken,
        k % 3 != 0 ==> planned_step(Algorithm::Aitken, k, max_m, period) == Step::Substitute,
        k % 3 == 0 ==> planned_step(Algorithm::Newton, k, max_m, period) == Step::Newton,
        k % 3 != 0 ==> planned_step(Algorithm::Newton, k, max_m, period) == Step::Substitute,
{
}

/// Anderson mixes over the `min(k, max_m)` most recent iterates whenever that
/// window holds at least two of them, and substitutes otherwise.
pub proof fn lemma_anderson_step(k: int, max_m: int, period: int)
    requires
        0 <= k <= usize::MAX,
        0 <= max_m <= usize::MAX,
    ensures
        ({
            let m: int = if k < max_m { k } else { max_m };
            &&& m >= 2 ==> planned_step(Algorithm::Anderson, k, max_m, period)
                == Step::Anderson { window: m as usize }
            &&& m < 2 ==> planned_step(Algorithm::Anderson, k, max_m, period) == Step::Substitute
        }),
{
}

/// MPE extrapolates over the `min(k, max_m)` most recent outputs on every
/// multiple `k` of the period (a period of zero has none among positive `k`)
/// when that window holds at least three of them, and substitutes otherwise:
/// an MPE run plans no other kind of step.
pub proof fn lemma_mpe_step(k: int, max_m: int, period: int)
    requires
        0 <= k <= usize::MAX,
        0 <= max_m <= usize::MAX,
    ensures
        ({
            let m: int = if k < max_m { k } else { max_m };
            let on_period: bool = if period == 0 { k == 0 } else { k % period == 0 };
            &&& on_period && m >= 3 ==> planned_step(Algorithm::MPE, k, max_m, period)
                == Step::Mpe { window: m as usize }
            &&& !(on_period && m >= 3) ==> planned_step(Algorithm::MPE, k, max_m, period)
                == Step::Substitute
        }),
{
}

/// RRE extrapolates over the `min(k, max_m)` most recent outputs on every
/// multiple `k` of the period when that window holds at least four of them,
/// and substitutes otherwise.
pub proof fn lemma_rre_step(k: int, max_m: int, period: int)
    requires
        0 <= k <= usize::MAX,
        0 <= max_m <= usize::MAX,
    ensures
        ({
            let m: int = if k < max_m { k } else { max_m };
            let on_period: bool = if period == 0 { k == 0 } else { k % period == 0 };
            &&& on_period && m >= 4 ==> planned_step(Algorithm::RRE, k, max_m, period)
                == Step::Rre { window: m as usize }
            &&& !(on_period && m >= 4) ==> planned_step(Algorithm::RRE, k, max_m, period)
                == Step::Substitute
        }),
{
}

/// SEA and VEA run the epsilon table on every multiple `k` of the period when
/// the window `min(k, max_m)` holds at least three outputs, over that window
/// less one when it is even; SEA inverts element-wise (`scalar`), VEA does
/// not.  Otherwise they substitute.
pub proof fn lemma_epsilon_step(k: int, max_m: int, period: int)
    requires
        0 <= k <= usize::MAX,
        0 <= max_m <= usize::MAX,
    ensures
        ({
            let m: int = if k < max_m { k } else { max_m };
            let on_period: bool = if period == 0 { k == 0 } else { k % period == 0 };
            let w: int = if m % 2 == 0 { m - 1 } else { m };
            &&& on_period && m >= 3 ==> planned_step(Algorithm::SEA, k, max_m, period)
                == Step::Epsilon { window: w as usize, scalar: true }
            &&& on_period && m >= 3 ==> planned_step(Algorithm::VEA, k, max_m, period)
                == Step::Epsilon { window: w as usize, scalar: false }
            &&& !(on_period && m >= 3) ==> planned_step(Algorithm::SEA, k, max_m, period)
                == Step::Substitute
            &&& !(on_period && m >= 3) ==> planned_step(Algorithm::VEA, k, max_m, period)
                == Step::Substitute
        }),
{
}

} // verus!
