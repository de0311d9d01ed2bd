# fixed_point_acceleration

Fixed-point iteration with acceleration (Aitken, Newton, Anderson, MPE, RRE,
SEA, VEA), with its control logic verified in Verus.

- `src/types.rs`: `Algorithm`, `TerminationStatus`, and `Schedule`, the
  integer settings of a run.
- `src/schedule.rs`: `plan_step`, which step each algorithm takes after the
  k-th iterate of its run, with lemmas on the acceleration periods and windows.
- `src/iteration.rs`: the iteration loop (`run_iterations`, `iterate`,
  `iterate_from`), generic over the vector type; the map, the convergence
  measure, the acceleration arithmetic and damping are closures.
- `app/lib.rs`: the `ndarray` front end (`fixed_point`, `fixed_point_from`,
  `FixedPointOptions`) with the floating-point kernels.
