//! Deterministic procedural line generation and adaptive frame-time
//! benchmarking.
//!
//! The crate has two halves.  The first is a pure, stateless noise source
//! ([`noise`]) together with two line samplers built on it ([`sampler`]) and
//! the working-set builders that turn sampled lines into renderer-ready
//! vertex streams ([`workload`]).  The second is the measurement machinery:
//! a per-scenario benchmark controller that warms up, times a fixed number
//! of frames and reports once ([`bench`]), an optional workload auto-scaler
//! that doubles the working set until the frame budget is met and then
//! latches stable ([`scaler`]), and the run configuration and scenario list
//! that an orchestrating process dispatches over ([`config`]).
//!
//! Sampled coordinates are IEEE-754 single-precision values.  This crate
//! never performs floating-point arithmetic itself: every coordinate is
//! carried as its 32-bit pattern (`u32`), which keeps the hash pipeline,
//! the sign-bias rules and the sentinel handling bit-exact, and leaves the
//! caller to reinterpret the patterns as floats at the rendering edge.
//! Time is carried as whole nanoseconds for the same reason.

pub mod bench;
pub mod config;
pub mod noise;
pub mod sampler;
pub mod scaler;
pub mod workload;
