# swe-edge-autoscale-bench

Load runner and saturation-knee detector for autoscale threshold calibration.

- `src/` is the verified library (Verus): bench configuration and its
  builder, validation, the order of a run, aggregation of per-task latency
  samples into integer percentiles, the knee scan, the choice of the step the
  policy derives from, and the error type.
- `app/` drives the async load with Tokio, turns the integer step summaries
  into float throughput and millisecond latencies, computes the per-step knee
  signals and the safety margin in floating point, loads TOML, and renders
  reports.
- `tests/` exercises the library.
