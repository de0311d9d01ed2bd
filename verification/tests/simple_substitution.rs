//! Plain substitution on vectors, through the library's iteration loop.
use fixed_point_acceleration::iteration::{iterate, FixedPointResults, Residual};
use fixed_point_acceleration::schedule::Step;
use fixed_point_acceleration::{Algorithm, Schedule, TerminationStatus};
use ndarray::Array1;

const SQRT10: f64 = 3.162_277_660_168_379_5;
const DOTTIE: f64 = 0.739_085_133_215_160_7;
const ANSWER_TOL: f64 = 1e-8;

fn babylonian(x: &Array1<f64>) -> Array1<f64> {
    Array1::from_vec(vec![0.5 * (x[0] + 10.0 / x[0])])
}

fn cosine_fn(x: &Array1<f64>) -> Array1<f64> {
    Array1::from_vec(vec![x[0].cos()])
}

fn linear_3d(x: &Array1<f64>) -> Array1<f64> {
    x * 0.5 + Array1::from_vec(vec![1.0, 2.0, 3.0])
}

fn diverging(x: &Array1<f64>) -> Array1<f64> {
    x * 2.0
}

/// Successive substitution with the mean absolute residual as convergence measure.
fn simple<F: Fn(&Array1<f64>) -> Array1<f64>>(
    func: F,
    x0: Array1<f64>,
    max_iter: usize,
    threshold: f64,
) -> FixedPointResults<Array1<f64>, f64> {
    let schedule = Schedule { algorithm: Algorithm::Simple, max_iter, ..Schedule::default() };
    let measure = move |x: &Array1<f64>, y: &Array1<f64>| {
        if !y.iter().all(|v| v.is_finite()) {
            return Residual::NonFinite;
        }
        let c = (y - x).mapv(f64::abs).mean().unwrap();
        Residual::Finite { convergence: c, converged: c < threshold }
    };
    let propose = |_step: Step, _ins: &[Array1<f64>], outs: &[Array1<f64>]| Some(outs[outs.len() - 1].clone());
    let damp = |_last: &Array1<f64>, q: Array1<f64>| q;
    iterate(schedule, func, measure, propose, damp, x0)
}

fn converged(status: &TerminationStatus) -> bool {
    *status == TerminationStatus::Converged
}

#[test]
fn result_lengths_are_consistent() {
    let res = simple(cosine_fn, Array1::from_vec(vec![0.0]), 1000, 1e-10);
    let n = res.inputs.len();
    assert!(n > 0);
    assert_eq!(res.outputs.len(), n, "outputs length mismatch");
    assert_eq!(res.convergence_vector.len(), n, "convergence_vector length mismatch");
}

#[test]
fn final_convergence_below_threshold() {
    let threshold = 1e-9;
    let res = simple(cosine_fn, Array1::from_vec(vec![0.0]), 1000, threshold);
    assert!(converged(&res.status));
    assert!(*res.convergence_vector.last().unwrap() < threshold);
}

#[test]
fn max_iter_is_respected() {
    let max_iter = 20;
    let res = simple(diverging, Array1::from_vec(vec![1.0]), max_iter, 1e-10);
    assert_eq!(res.status, TerminationStatus::MaxIterationsReached);
    assert_eq!(res.inputs.len(), max_iter);
}

#[test]
fn simple_babylonian() {
    let res = simple(babylonian, Array1::from_vec(vec![1.0]), 1000, 1e-10);
    assert!(converged(&res.status));
    assert!((res.outputs.last().unwrap()[0] - SQRT10).abs() < ANSWER_TOL);
}

#[test]
fn simple_cosine() {
    let res = simple(cosine_fn, Array1::from_vec(vec![0.0]), 1000, 1e-10);
    assert!(converged(&res.status));
    assert!((res.outputs.last().unwrap()[0] - DOTTIE).abs() < ANSWER_TOL);
}

#[test]
fn simple_linear_3d() {
    let res = simple(linear_3d, Array1::from_vec(vec![0.0, 0.0, 0.0]), 1000, 1e-10);
    assert!(converged(&res.status));
    let x = res.outputs.last().unwrap();
    assert!((x[0] - 2.0).abs() < ANSWER_TOL);
    assert!((x[1] - 4.0).abs() < ANSWER_TOL);
    assert!((x[2] - 6.0).abs() < ANSWER_TOL);
}
