//! Decision logic of a single-shot ECS conformance test: the reduction of task
//! snapshots to a verdict, the readiness and completion waiters that poll a
//! cluster against a deadline, and the lookup-or-create of the task template.
//!
//! All cluster calls, sleeping and clocks are done by the caller, which feeds the
//! results into the state machines of this crate and performs the actions they
//! return.

pub mod outcome;
pub mod poll;
pub mod readiness;
pub mod completion;
pub mod template;
pub mod runner;
