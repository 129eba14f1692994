//! Bookkeeping for a batch gradient-descent run that fits `y = w * x + b`.
//!
//! The run is a state machine: the caller supplies the gradient step, which
//! is floating-point arithmetic; the library validates the inputs, runs the
//! epochs, owns the model parameters, decides which epochs are sampled into
//! the metric series and which are announced as progress, probes process
//! memory and elapsed time, and hands the series out when the run is over.
//!
//! Real numbers cross the library as IEEE 754 binary64 bit patterns (`u64`),
//! memory as bytes and time as nanoseconds.

pub mod binary64;
pub mod cadence;
pub mod config;
pub mod laws;
pub mod probe;
pub mod run;
pub mod trainer;
