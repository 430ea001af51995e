//! A minimal build orchestrator for single-crate projects: it describes
//! compiler invocations, decides which to run for a project's entry points,
//! and hands them out in order, stopping at the first failure.

pub mod invocation;
pub mod orchestrator;
pub mod bootstrap;
