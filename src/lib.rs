//! Lifecycle and messaging core of a background monitor that reports to a
//! host runtime through callbacks.
//!
//! The host-facing plumbing (callback handles, the native message loop, the
//! teardown hook registration) lives outside this library; what is here is
//! the logic that decides, stated and proved: the set-once registry, the
//! per-channel delivery queue, the monitor's state machine and the teardown
//! coordinator.
use vstd::prelude::*;

pub mod bridge;
pub mod monitor;
pub mod registry;
pub mod shutdown;

verus! {

} // verus!
