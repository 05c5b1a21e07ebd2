//! Lifecycle control for a long-running service: a one-shot stop signal and a
//! controller that turns platform control events and the managed task's
//! outcome into status reports and a process exit code.

pub mod controller;
pub mod signal;
pub mod trace;

pub use signal::StopSignal;
