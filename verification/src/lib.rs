//! Control logic for cloud test-cluster orchestration.
//!
//! The library covers the three pieces of the orchestration core that carry
//! real failure-handling semantics:
//!
//! - [`retry`]: a fixed-interval, bounded-attempt retry executor;
//! - [`workspace`]: resolution of the workspace identity tag from a compute
//!   inventory response, with retried inventory queries;
//! - [`capacity`]: convergence of an autoscaling group on a desired capacity
//!   via a set-then-poll control loop.
//!
//! All cloud calls themselves (compute inventory, autoscaling, the local
//! metadata endpoint) are I/O and live outside this library; the functions
//! here take the providers' replies as plain values and make every decision
//! the orchestration core makes, under contracts that pin those decisions
//! down exactly.

pub mod retry;
pub mod workspace;
pub mod capacity;
