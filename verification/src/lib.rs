//! Singleton sidecar-process supervisor.
//!
//! The library tracks at most one auxiliary worker process ("the sidecar") on
//! behalf of a host application. All decisions of the supervisor — whether a
//! start request must probe the tracked child, when it is refused, how a spawn
//! outcome updates the tracked handle, and what a stop request detaches — are
//! verified here over a plain model of the state (the tracked PID, if any).
//! The host performs the actual process operations (spawn, liveness probe,
//! kill and reap) and feeds their outcomes back as plain values.

pub mod launch;
pub mod supervisor;
pub mod text;
