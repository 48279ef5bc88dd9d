//! Build orchestration and harness dispatch for multi-engine fuzzing.
//!
//! The crate has two halves. The configuration and job modules translate a
//! small set of build options into engine-specific tool invocations
//! (arguments plus environment overrides) and validate the cross-engine
//! constraints that are easy to violate and hard to diagnose. The session
//! module drives one build per enabled engine, strictly in order, aborting
//! on the first failure. The replay module is the standalone harness
//! adapter: it resolves command-line paths to input files and decides, for
//! each input, whether the harness body runs, so that crash replay and
//! coverage collection behave identically to a live fuzzing run.
//!
//! Spawning build tools, reading files and the live engine loops are I/O and
//! live outside this crate; everything here is pure decision logic with
//! contracts.

pub mod config;
pub mod decimal;
pub mod jobs;
pub mod replay;
pub mod session;
