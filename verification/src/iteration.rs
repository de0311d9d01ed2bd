use vstd::prelude::*;
use vstd::slice::slice_subrange;
use crate::types::{Schedule, TerminationStatus};
use crate::schedule::{Step, plan_step, planned_step};

verus! {

/// What the caller's measure says of one evaluation `y = g(x)`.
#[derive(Debug)]
pub enum Residual<C> {
    /// The output is unusable (for example it holds a NaN or an infinity).
    NonFinite,
    /// The output is usable; `convergence` is the distance measure between
    /// input and output, and `converged` says whether it is below the threshold.
    Finite { convergence: C, converged: bool },
}

/// The history of a fixed-point run: the input and output of every iteration,
/// the convergence measure of each, and why the run stopped.
#[derive(Debug, Clone)]
pub struct FixedPointResults<T, C> {
    /// Input vector fed to `g` at each iteration.
    pub inputs: Vec<T>,
    /// Output `g(x)` at each iteration.
    pub outputs: Vec<T>,
    /// Convergence measure at each iteration.
    pub convergence_vector: Vec<C>,
    /// Reason the iteration loop stopped.
    pub status: TerminationStatus,
}

/// `y` is a value that `func` returns for `x`.
pub open spec fn maps_to<T, G: Fn(&T) -> T>(func: G, x: T, y: T) -> bool {
    call_ensures(func, (&x,), y)
}

/// `r` is a value that `measure` returns for the evaluation `y = g(x)`.
pub open spec fn measured<T, C, M: Fn(&T, &T) -> Residual<C>>(measure: M, x: T, y: T, r: Residual<C>) -> bool {
    call_ensures(measure, (&x, &y), r)
}

/// `res` is a value that `propose` returns for `step` on the run history `ins`/`outs`.
pub open spec fn proposes<T, P: Fn(Step, &[T], &[T]) -> Option<T>>(
    propose: P,
    step: Step,
    ins: Seq<T>,
    outs: Seq<T>,
    res: Option<T>,
) -> bool {
    exists|a: &[T], b: &[T]| #[trigger] call_ensures(propose, (step, a, b), res) && a@ == ins && b@ == outs
}

/// The step planned after the run history `ins`, by the run's own iteration count.
pub open spec fn plan_after<T>(schedule: Schedule, ins: Seq<T>) -> Step {
    planned_step(
        schedule.algorithm,
        ins.len() as int,
        schedule.max_m as int,
        schedule.extrapolation_period as int,
    )
}

/// `x` is the input that follows the run history `ins`/`outs`: the planned step
/// was proposed as some `q`, and damping `q` against the last input gave `x`.
pub open spec fn follows<T, P: Fn(Step, &[T], &[T]) -> Option<T>, D: Fn(&T, T) -> T>(
    schedule: Schedule,
    propose: P,
    damp: D,
    ins: Seq<T>,
    outs: Seq<T>,
    x: T,
) -> bool {
    exists|q: T|
        proposes(propose, plan_after(schedule, ins), ins, outs, Some(q))
        && #[trigger] call_ensures(damp, (&ins.last(), q), x)
}

/// The measure recorded for the `j`-th iterate of a run whose history of
/// measures is `convs`: finite, and converged only at the last iterate of a
/// run that stopped by converging.
pub open spec fn recorded_residual<C>(convs: Seq<C>, j: int, last_converged: bool) -> Residual<C> {
    Residual::Finite { convergence: convs[j], converged: last_converged && j == convs.len() - 1 }
}

/// The iterates of a run (`ins`, `outs`, `convs`, all of the same length) are
/// the ones the loop produces from `x0`: each output is `g` of its input,
/// each measure is finite and only the last may have converged, the first
/// input is `x0` and every later input follows the history before it.
pub open spec fn run_history<T, C, G, M, P, D>(
    schedule: Schedule,
    func: G,
    measure: M,
    propose: P,
    damp: D,
    x0: T,
    ins: Seq<T>,
    outs: Seq<T>,
    convs: Seq<C>,
    last_converged: bool,
) -> bool where
    G: Fn(&T) -> T,
    M: Fn(&T, &T) -> Residual<C>,
    P: Fn(Step, &[T], &[T]) -> Option<T>,
    D: Fn(&T, T) -> T,
 {
    &&& outs.len() == ins.len()
    &&& convs.len() == ins.len()
    &&& forall|j: int| 0 <= j < ins.len() ==> #[trigger] maps_to(func, ins[j], outs[j])
    &&& forall|j: int|
        0 <= j < ins.len() ==> #[trigger] measured(
            measure,
            ins[j],
            outs[j],
            recorded_residual(convs, j, last_converged),
        )
    &&& ins.len() > 0 ==> ins[0] == x0
    &&& forall|j: int|
        0 <= j < ins.len() - 1 ==> #[trigger] follows(
            schedule,
            propose,
            damp,
            ins.take(j + 1),
            outs.take(j + 1),
            ins[j + 1],
        )
}

/// Recording one more finite evaluation `y = g(x)` of the input `x` that
/// follows a run history extends the history.
proof fn lemma_run_history_push<T, C, G, M, P, D>(
    schedule: Schedule,
    func: G,
    measure: M,
    propose: P,
    damp: D,
    x0: T,
    ins: Seq<T>,
    outs: Seq<T>,
    convs: Seq<C>,
    x: T,
    y: T,
    c: C,
    converged: bool,
) where
    G: Fn(&T) -> T,
    M: Fn(&T, &T) -> Residual<C>,
    P: Fn(Step, &[T], &[T]) -> Option<T>,
    D: Fn(&T, T) -> T,

    requires
        run_history(schedule, func, measure, propose, damp, x0, ins, outs, convs, false),
        next_input(schedule, propose, damp, x0, ins, outs, x),
        maps_to(func, x, y),
        measured(measure, x, y, Residual::Finite { convergence: c, converged }),
    ensures
        run_history(
            schedule,
            func,
            measure,
            propose,
            damp,
            x0,
            ins.push(x),
            outs.push(y),
            convs.push(c),
            converged,
        ),
{
    let ni = ins.push(x);
    let no = outs.push(y);
    let nc = convs.push(c);
    assert forall|j: int| 0 <= j < ni.len() implies #[trigger] maps_to(func, ni[j], no[j]) by {
        if j < ins.len() {
            assert(maps_to(func, ins[j], outs[j]));
        }
    }
    assert forall|j: int| 0 <= j < ni.len() implies #[trigger] measured(
        measure,
        ni[j],
        no[j],
        recorded_residual(nc, j, converged),
    ) by {
        if j < ins.len() {
            assert(measured(measure, ins[j], outs[j], recorded_residual(convs, j, false)));
            assert(recorded_residual(nc, j, converged) == recorded_residual(convs, j, false));
        }
    }
    assert forall|j: int| 0 <= j < ni.len() - 1 implies #[trigger] follows(
        schedule,
        propose,
        damp,
        ni.take(j + 1),
        no.take(j + 1),
        ni[j + 1],
    ) by {
        assert(ni.take(j + 1) =~= ins.take(j + 1));
        assert(no.take(j + 1) =~= outs.take(j + 1));
        if j + 1 < ins.len() {
            assert(follows(schedule, propose, damp, ins.take(j + 1), outs.take(j + 1), ins[j + 1]));
        } else {
            assert(ins.take(j + 1) =~= ins);
            assert(outs.take(j + 1) =~= outs);
        }
    }
}

/// The input the loop would evaluate next after the run history `ins`/`outs`.
pub open spec fn next_input<T, P: Fn(Step, &[T], &[T]) -> Option<T>, D: Fn(&T, T) -> T>(
    schedule: Schedule,
    propose: P,
    damp: D,
    x0: T,
    ins: Seq<T>,
    outs: Seq<T>,
    x: T,
) -> bool {
    if ins.len() == 0 {
        x == x0
    } else {
        follows(schedule, propose, damp, ins, outs, x)
    }
}

/// Every closure of a run accepts every argument.
pub open spec fn callable<T, C, G, M, P, D>(func: G, measure: M, propose: P, damp: D) -> bool where
    G: Fn(&T) -> T,
    M: Fn(&T, &T) -> Residual<C>,
    P: Fn(Step, &[T], &[T]) -> Option<T>,
    D: Fn(&T, T) -> T,
 {
    &&& forall|x: T| #[trigger] call_requires(func, (&x,))
    &&& forall|x: T, y: T| #[trigger] call_requires(measure, (&x, &y))
    &&& forall|s: Step, a: &[T], b: &[T]| #[trigger] call_requires(propose, (s, a, b))
    &&& forall|x: T, q: T| #[trigger] call_requires(damp, (&x, q))
}

/// `r` is what a run from `x0` returns when appended to the history
/// `prior_in`/`prior_out`/`prior_conv`:
/// - the prior history stands unchanged at the start of `r`, and the new part
///   of `r` is a run history from `x0` (`run_history`), with as many inputs,
///   outputs and measures, and at most `max_iter` of them;
/// - `Converged`: at least one new iterate, and the last one's measure said so;
/// - `MaxIterationsReached`: exactly `max_iter` new iterates, none converged,
///   and the last proposal succeeded;
/// - `NumericalFailure`: at least one new iterate, and the proposal for the
///   step planned after the last one gave nothing;
/// - `FunctionFailure`: fewer than `max_iter` new iterates, and `g` at the
///   input that follows them gave an output that the measure found unusable.
pub open spec fn run_outcome<T, C, G, M, P, D>(
    schedule: Schedule,
    func: G,
    measure: M,
    propose: P,
    damp: D,
    x0: T,
    prior_in: Seq<T>,
    prior_out: Seq<T>,
    prior_conv: Seq<C>,
    r: FixedPointResults<T, C>,
) -> bool where
    G: Fn(&T) -> T,
    M: Fn(&T, &T) -> Residual<C>,
    P: Fn(Step, &[T], &[T]) -> Option<T>,
    D: Fn(&T, T) -> T,
 {
    let p: int = prior_in.len() as int;
    let cp: int = prior_conv.len() as int;
    let ins = r.inputs@.skip(p);
    let outs = r.outputs@.skip(p);
    let convs = r.convergence_vector@.skip(cp);
    &&& p <= r.inputs.len()
    &&& cp <= r.convergence_vector.len()
    &&& r.inputs@.take(p) == prior_in
    &&& r.outputs@.take(p) == prior_out
    &&& r.convergence_vector@.take(cp) == prior_conv
    &&& r.inputs.len() == r.outputs.len()
    &&& r.convergence_vector.len() - cp == r.inputs.len() - p
    &&& r.inputs.len() - p <= schedule.max_iter
    &&& run_history(
        schedule,
        func,
        measure,
        propose,
        damp,
        x0,
        ins,
        outs,
        convs,
        r.status == TerminationStatus::Converged,
    )
    &&& r.status == TerminationStatus::Converged ==> ins.len() > 0
    &&& r.status == TerminationStatus::MaxIterationsReached ==> {
        &&& ins.len() == schedule.max_iter
        &&& ins.len() > 0 ==> exists|x: T| #[trigger]
            next_input(schedule, propose, damp, x0, ins, outs, x)
    }
    &&& r.status == TerminationStatus::NumericalFailure ==> {
        &&& ins.len() > 0
        &&& proposes(propose, plan_after(schedule, ins), ins, outs, None)
    }
    &&& r.status == TerminationStatus::FunctionFailure ==> {
        &&& ins.len() < schedule.max_iter
        &&& exists|x: T, y: T|
            next_input(schedule, propose, damp, x0, ins, outs, x)
                && #[trigger] maps_to(func, x, y)
                && measured(measure, x, y, Residual::NonFinite)
    }
}

/// Runs the fixed-point iteration from `x0` for at most `schedule.max_iter`
/// iterations, appending to the given history.
///
/// Each iteration evaluates `func` at the current input.  If `measure` finds
/// the output unusable the run stops with `FunctionFailure`, leaving that
/// evaluation out of the history.  Otherwise input, output and convergence
/// measure are recorded, and the run stops with `Converged` if the measure
/// says so.  Else the step planned for this run's iteration count `k`
/// (counted from 1 at the first iterate of this call, not of the whole
/// history) is handed to `propose` with this run's part of the history; no
/// proposal stops the run with `NumericalFailure`, and a proposal is damped
/// against the last input by `damp` to give the next input.  After
/// `max_iter` iterations the run stops with `MaxIterationsReached`.
#[verifier::loop_isolation(false)]
#[verifier::spinoff_prover]
pub fn run_iterations<T, C, G, M, P, D>(
    schedule: Schedule,
    func: G,
    measure: M,
    propose: P,
    damp: D,
    x0: T,
    mut inputs: Vec<T>,
    mut outputs: Vec<T>,
    mut convergence_vector: Vec<C>,
) -> (r: FixedPointResults<T, C>) where
    G: Fn(&T) -> T,
    M: Fn(&T, &T) -> Residual<C>,
    P: Fn(Step, &[T], &[T]) -> Option<T>,
    D: Fn(&T, T) -> T,

    requires
        inputs.len() == outputs.len(),
        callable(func, measure, propose, damp),
    ensures
        run_outcome(
            schedule,
            func,
            measure,
            propose,
            damp,
            x0,
            inputs@,
            outputs@,
            convergence_vector@,
            r,
        ),
{
    let ghost prior_in = inputs@;
    let ghost prior_out = outputs@;
    let ghost prior_conv = convergence_vector@;
    let prior_len: usize = inputs.len();
    let ghost cp = convergence_vector.len() as int;
    let mut current = x0;
    let mut iter: usize = 0;
    while iter < schedule.max_iter
        invariant
            iter <= schedule.max_iter,
            prior_len == prior_in.len(),
            prior_in.len() == prior_out.len(),
            cp == prior_conv.len(),
            inputs.len() == prior_len + iter,
            outputs.len() == inputs.len(),
            convergence_vector.len() == cp + iter,
            inputs@.take(prior_len as int) == prior_in,
            outputs@.take(prior_len as int) == prior_out,
            convergence_vector@.take(cp) == prior_conv,
            run_history(
                schedule,
                func,
                measure,
                propose,
                damp,
                x0,
                inputs@.skip(prior_len as int),
                outputs@.skip(prior_len as int),
                convergence_vector@.skip(cp),
                false,
            ),
            next_input(
                schedule,
                propose,
                damp,
                x0,
                inputs@.skip(prior_len as int),
                outputs@.skip(prior_len as int),
                current,
            ),
            callable(func, measure, propose, damp),
        decreases schedule.max_iter - iter,
    {
        let current_output = func(&current);
        let assessment = measure(&current, &current_output);
        match assessment {
            Residual::NonFinite => {
                assert(maps_to(func, current, current_output));
                assert(measured(measure, current, current_output, Residual::NonFinite));
                return FixedPointResults {
                    inputs,
                    outputs,
                    convergence_vector,
                    status: TerminationStatus::FunctionFailure,
                };
            },
            Residual::Finite { convergence, converged } => {
                let ghost old_in = inputs@.skip(prior_len as int);
                let ghost old_out = outputs@.skip(prior_len as int);
                let ghost old_conv = convergence_vector@.skip(cp);
                let ghost x = current;
                proof {
                    lemma_run_history_push(
                        schedule,
                        func,
                        measure,
                        propose,
                        damp,
                        x0,
                        old_in,
                        old_out,
                        old_conv,
                        x,
                        current_output,
                        convergence,
                        converged,
                    );
                }
                inputs.push(current);
                outputs.push(current_output);
                convergence_vector.push(convergence);
                iter = iter + 1;
                proof {
                    assert(inputs@.skip(prior_len as int) =~= old_in.push(x));
                    assert(outputs@.skip(prior_len as int) =~= old_out.push(current_output));
                    assert(convergence_vector@.skip(cp) =~= old_conv.push(convergence));
                    assert(inputs@.take(prior_len as int) =~= prior_in);
                    assert(outputs@.take(prior_len as int) =~= prior_out);
                    assert(convergence_vector@.take(cp) =~= prior_conv);
                }
                if converged {
                    return FixedPointResults {
                        inputs,
                        outputs,
                        convergence_vector,
                        status: TerminationStatus::Converged,
                    };
                }
                let n: usize = inputs.len();
                let step = plan_step(
                    schedule.algorithm,
                    n - prior_len,
                    schedule.max_m,
                    schedule.extrapolation_period,
                );
                let ins = slice_subrange(inputs.as_slice(), prior_len, n);
                let outs = slice_subrange(outputs.as_slice(), prior_len, n);
                let proposal = propose(step, ins, outs);
                match proposal {
                    None => {
                        proof {
                            let ri = inputs@.skip(prior_len as int);
                            let ro = outputs@.skip(prior_len as int);
                            assert(ins@ =~= ri);
                            assert(outs@ =~= ro);
                            assert(proposes(propose, plan_after(schedule, ri), ri, ro, None));
                        }
                        return FixedPointResults {
                            inputs,
                            outputs,
                            convergence_vector,
                            status: TerminationStatus::NumericalFailure,
                        };
                    },
                    Some(q) => {
                        current = damp(&inputs[n - 1], q);
                        proof {
                            let ri = inputs@.skip(prior_len as int);
                            let ro = outputs@.skip(prior_len as int);
                            assert(ins@ =~= ri);
                            assert(outs@ =~= ro);
                            assert(proposes(propose, plan_after(schedule, ri), ri, ro, Some(q)));
                            assert(ri.last() == inputs[n - 1]);
                            assert(follows(schedule, propose, damp, ri, ro, current));
                        }
                    },
                }
            },
        }
    }
    assert(next_input(
        schedule,
        propose,
        damp,
        x0,
        inputs@.skip(prior_len as int),
        outputs@.skip(prior_len as int),
        current,
    ));
    FixedPointResults {
        inputs,
        outputs,
        convergence_vector,
        status: TerminationStatus::MaxIterationsReached,
    }
}

/// Runs the fixed-point iteration from `x0` with an empty history.
pub fn iterate<T, C, G, M, P, D>(
    schedule: Schedule,
    func: G,
    measure: M,
    propose: P,
    damp: D,
    x0: T,
) -> (r: FixedPointResults<T, C>) where
    G: Fn(&T) -> T,
    M: Fn(&T, &T) -> Residual<C>,
    P: Fn(Step, &[T], &[T]) -> Option<T>,
    D: Fn(&T, T) -> T,

    requires
        callable(func, measure, propose, damp),
    ensures
        run_outcome(
            schedule,
            func,
            measure,
            propose,
            damp,
            x0,
            Seq::empty(),
            Seq::empty(),
            Seq::empty(),
            r,
        ),
{
    let r = run_iterations(schedule, func, measure, propose, damp, x0, Vec::new(), Vec::new(), Vec::new());
    r
}

/// Continues the iteration from a previous result, possibly with another
/// algorithm: the new run starts from a copy of the last prior output, the
/// whole prior history is kept at the start of the result, and the new
/// algorithm counts its iterations from the first new iterate.
pub fn iterate_from<T: Clone, C, G, M, P, D>(
    schedule: Schedule,
    func: G,
    measure: M,
    propose: P,
    damp: D,
    prior: FixedPointResults<T, C>,
) -> (r: FixedPointResults<T, C>) where
    G: Fn(&T) -> T,
    M: Fn(&T, &T) -> Residual<C>,
    P: Fn(Step, &[T], &[T]) -> Option<T>,
    D: Fn(&T, T) -> T,

    requires
        prior.outputs.len() > 0,
        prior.inputs.len() == prior.outputs.len(),
        callable(func, measure, propose, damp),
    ensures
        exists|x0: T|
            cloned(prior.outputs@.last(), x0) && #[trigger] run_outcome(
                schedule,
                func,
                measure,
                propose,
                damp,
                x0,
                prior.inputs@,
                prior.outputs@,
                prior.convergence_vector@,
                r,
            ),
{
    let last: usize = prior.outputs.len() - 1;
    let x0 = prior.outputs[last].clone();
    let ghost start = x0;
    let r = run_iterations(
        schedule,
        func,
        measure,
        propose,
        damp,
        x0,
        prior.inputs,
        prior.outputs,
        prior.convergence_vector,
    );
    assert(cloned(prior.outputs@.last(), start));
    r
}

/// Switching algorithms keeps both phases: when a warm-up run from `x0` under
/// `warm_schedule` gave `warm`, and continuing it under `schedule` gave `res`,
/// then the first iterates of `res` are exactly the warm-up's and still form
/// its run history (with its status's convergence flag), and the rest form a
/// run history under the new schedule, counted from its own first iterate,
/// from a copy of the warm-up's last output.
pub proof fn lemma_resume_keeps_both_phases<T: Clone, C, G, M, P, D, P2, D2>(
    warm_schedule: Schedule,
    schedule: Schedule,
    func: G,
    measure: M,
    warm_propose: P,
    warm_damp: D,
    propose: P2,
    damp: D2,
    x0: T,
    warm: FixedPointResults<T, C>,
    res: FixedPointResults<T, C>,
) where
    G: Fn(&T) -> T,
    M: Fn(&T, &T) -> Residual<C>,
    P: Fn(Step, &[T], &[T]) -> Option<T>,
    D: Fn(&T, T) -> T,
    P2: Fn(Step, &[T], &[T]) -> Option<T>,
    D2: Fn(&T, T) -> T,

    requires
        run_outcome(
            warm_schedule,
            func,
            measure,
            warm_propose,
            warm_damp,
            x0,
            Seq::empty(),
            Seq::empty(),
            Seq::empty(),
            warm,
        ),
        exists|x1: T|
            cloned(warm.outputs@.last(), x1) && #[trigger] run_outcome(
                schedule,
                func,
                measure,
                propose,
                damp,
                x1,
                warm.inputs@,
                warm.outputs@,
                warm.convergence_vector@,
                res,
            ),
    ensures
        warm.inputs.len() <= res.inputs.len(),
        res.inputs@.take(warm.inputs.len() as int) == warm.inputs@,
        res.outputs@.take(warm.inputs.len() as int) == warm.outputs@,
        res.convergence_vector@.take(warm.inputs.len() as int) == warm.convergence_vector@,
        run_history(
            warm_schedule,
            func,
            measure,
            warm_propose,
            warm_damp,
            x0,
            res.inputs@.take(warm.inputs.len() as int),
            res.outputs@.take(warm.inputs.len() as int),
            res.convergence_vector@.take(warm.inputs.len() as int),
            warm.status == TerminationStatus::Converged,
        ),
        exists|x1: T|
            #[trigger] cloned(warm.outputs@.last(), x1) && run_history(
                schedule,
                func,
                measure,
                propose,
                damp,
                x1,
                res.inputs@.skip(warm.inputs.len() as int),
                res.outputs@.skip(warm.inputs.len() as int),
                res.convergence_vector@.skip(warm.inputs.len() as int),
                res.status == TerminationStatus::Converged,
            ),
{
    let x1 = choose|x1: T|
        cloned(warm.outputs@.last(), x1) && #[trigger] run_outcome(
            schedule,
            func,
            measure,
            propose,
            damp,
            x1,
            warm.inputs@,
            warm.outputs@,
            warm.convergence_vector@,
            res,
        );
    assert(warm.inputs@.skip(0) =~= warm.inputs@);
    assert(warm.outputs@.skip(0) =~= warm.outputs@);
    assert(warm.convergence_vector@.skip(0) =~= warm.convergence_vector@);
    assert(run_history(
        schedule,
        func,
        measure,
        propose,
        damp,
        x1,
        res.inputs@.skip(warm.inputs.len() as int),
        res.outputs@.skip(warm.inputs.len() as int),
        res.convergence_vector@.skip(warm.inputs.len() as int),
        res.status == TerminationStatus::Converged,
    ));
}

/// What a run returns, told index by index over the whole result `r` (the
/// prior history occupies indices below `p`, the run's own iterates `p..n`):
/// the prior history is kept; the run adds at most `max_iter` iterates with
/// as many outputs and measures; its first input is `x0`; each new output is
/// `g` of its input and each new measure is finite, converged only at the
/// last iterate of a converged run; each later input is the damped proposal
/// for the step `planned_step(algorithm, k, ..)` where `k` counts the run's
/// own iterates so far (from 1), made on the run's own part of the history;
/// and each status holds exactly in its case.
pub proof fn lemma_run_outcome_by_index<T, C, G, M, P, D>(
    schedule: Schedule,
    func: G,
    measure: M,
    propose: P,
    damp: D,
    x0: T,
    prior_in: Seq<T>,
    prior_out: Seq<T>,
    prior_conv: Seq<C>,
    r: FixedPointResults<T, C>,
) where
    G: Fn(&T) -> T,
    M: Fn(&T, &T) -> Residual<C>,
    P: Fn(Step, &[T], &[T]) -> Option<T>,
    D: Fn(&T, T) -> T,

    requires
        prior_in.len() == prior_out.len(),
        run_outcome(schedule, func, measure, propose, damp, x0, prior_in, prior_out, prior_conv, r),
    ensures
        prior_in.len() <= r.inputs.len() <= prior_in.len() + schedule.max_iter,
        r.outputs.len() == r.inputs.len(),
        r.convergence_vector.len() == prior_conv.len() + r.inputs.len() - prior_in.len(),
        forall|i: int| 0 <= i < prior_in.len() ==> r.inputs@[i] == prior_in[i] && r.outputs@[i] == prior_out[i],
        forall|i: int| 0 <= i < prior_conv.len() ==> r.convergence_vector@[i] == prior_conv[i],
        r.inputs.len() > prior_in.len() ==> r.inputs@[prior_in.len() as int] == x0,
        forall|i: int|
            prior_in.len() <= i < r.inputs.len() ==> #[trigger] call_ensures(
                func,
                (&r.inputs@[i],),
                r.outputs@[i],
            ),
        forall|i: int|
            #![trigger r.outputs@[i]]
            prior_in.len() <= i < r.inputs.len() - 1 ==> call_ensures(
                measure,
                (&r.inputs@[i], &r.outputs@[i]),
                Residual::Finite {
                    convergence: r.convergence_vector@[prior_conv.len() + i - prior_in.len()],
                    converged: false,
                },
            ),
        r.inputs.len() > prior_in.len() ==> call_ensures(
            measure,
            (&r.inputs@[r.inputs.len() - 1], &r.outputs@[r.inputs.len() - 1]),
            Residual::Finite {
                convergence: r.convergence_vector@[r.convergence_vector.len() - 1],
                converged: r.status == TerminationStatus::Converged,
            },
        ),
        forall|i: int|
            #![trigger r.inputs@[i]]
            prior_in.len() <= i < r.inputs.len() - 1 ==> exists|a: &[T], b: &[T], q: T|
                a@ == r.inputs@.subrange(prior_in.len() as int, i + 1)
                    && b@ == r.outputs@.subrange(prior_in.len() as int, i + 1)
                    && #[trigger] call_ensures(
                    propose,
                    (
                        planned_step(
                            schedule.algorithm,
                            i + 1 - prior_in.len(),
                            schedule.max_m as int,
                            schedule.extrapolation_period as int,
                        ),
                        a,
                        b,
                    ),
                    Some(q),
                ) && call_ensures(damp, (&r.inputs@[i], q), r.inputs@[i + 1]),
        r.status == TerminationStatus::Converged ==> r.inputs.len() > prior_in.len(),
        r.status == TerminationStatus::MaxIterationsReached ==> r.inputs.len() == prior_in.len()
            + schedule.max_iter,
        r.status == TerminationStatus::NumericalFailure ==> r.inputs.len() > prior_in.len() && exists|
            a: &[T],
            b: &[T],
        |
            a@ == r.inputs@.subrange(prior_in.len() as int, r.inputs.len() as int) && b@
                == r.outputs@.subrange(prior_in.len() as int, r.inputs.len() as int)
                && #[trigger] call_ensures(
                propose,
                (
                    planned_step(
                        schedule.algorithm,
                        r.inputs.len() - prior_in.len(),
                        schedule.max_m as int,
                        schedule.extrapolation_period as int,
                    ),
                    a,
                    b,
                ),
                None,
            ),
        r.status == TerminationStatus::FunctionFailure ==> r.inputs.len() < prior_in.len()
            + schedule.max_iter,
{
    let p: int = prior_in.len() as int;
    let cp: int = prior_conv.len() as int;
    let n: int = r.inputs.len() as int;
    let ins = r.inputs@.skip(p);
    let outs = r.outputs@.skip(p);
    let convs = r.convergence_vector@.skip(cp);
    assert forall|i: int| 0 <= i < p implies r.inputs@[i] == prior_in[i] && r.outputs@[i] == prior_out[i] by {
        assert(r.inputs@.take(p)[i] == r.inputs@[i]);
        assert(r.outputs@.take(p)[i] == r.outputs@[i]);
    }
    assert forall|i: int| 0 <= i < cp implies r.convergence_vector@[i] == prior_conv[i] by {
        assert(r.convergence_vector@.take(cp)[i] == r.convergence_vector@[i]);
    }
    if n > p {
        assert(ins[0] == r.inputs@[p]);
    }
    assert forall|i: int| p <= i < n implies #[trigger] call_ensures(func, (&r.inputs@[i],), r.outputs@[i]) by {
        assert(maps_to(func, ins[i - p], outs[i - p]));
    }
    assert forall|i: int| #![trigger r.outputs@[i]] p <= i < n - 1 implies call_ensures(
        measure,
        (&r.inputs@[i], &r.outputs@[i]),
        Residual::Finite { convergence: r.convergence_vector@[cp + i - p], converged: false },
    ) by {
        assert(measured(
            measure,
            ins[i - p],
            outs[i - p],
            recorded_residual(convs, i - p, r.status == TerminationStatus::Converged),
        ));
    }
    if n > p {
        assert(measured(
            measure,
            ins[n - 1 - p],
            outs[n - 1 - p],
            recorded_residual(convs, n - 1 - p, r.status == TerminationStatus::Converged),
        ));
    }
    assert forall|i: int|
        #![trigger r.inputs@[i]]
        p <= i < n - 1 implies exists|a: &[T], b: &[T], q: T|
            a@ == r.inputs@.subrange(p, i + 1) && b@ == r.outputs@.subrange(p, i + 1)
                && #[trigger] call_ensures(
                propose,
                (
                    planned_step(
                        schedule.algorithm,
                        i + 1 - p,
                        schedule.max_m as int,
                        schedule.extrapolation_period as int,
                    ),
                    a,
                    b,
                ),
                Some(q),
            ) && call_ensures(damp, (&r.inputs@[i], q), r.inputs@[i + 1]) by {
        let j: int = i - p;
        assert(follows(schedule, propose, damp, ins.take(j + 1), outs.take(j + 1), ins[j + 1]));
        assert(ins.take(j + 1) =~= r.inputs@.subrange(p, i + 1));
        assert(outs.take(j + 1) =~= r.outputs@.subrange(p, i + 1));
        assert(ins.take(j + 1).last() == r.inputs@[i]);
        assert(ins[j + 1] == r.inputs@[i + 1]);
    }
    if r.status == TerminationStatus::NumericalFailure {
        assert(ins =~= r.inputs@.subrange(p, n));
        assert(outs =~= r.outputs@.subrange(p, n));
    }
}

} // verus!
