//! Benchmark harness for algorithms that draw `k` distinct values from `[0, n)`.
//!
//! The library holds the rejection sampler, the adaptive timing calibrator and
//! the parameter-sweep policy; recording results is left to the caller.

pub mod calibrate;
pub mod rng;
pub mod sampling;
pub mod sweep;

pub use calibrate::{calibrate_step, time_test, Calibration, CalibrationStep};
pub use sampling::{place, random_order, RejectionSampling, SampleAlgorithm};
pub use sweep::{advance, Counter, Sweep};
