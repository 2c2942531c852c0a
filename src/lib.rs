//! Supervision of a small pool of recording jobs: settings validation,
//! admission into a capacity-bounded registry, per-job lifecycle and
//! bounded logs, and the client-facing status projection.

pub mod clock;
pub mod job;
pub mod launch;
pub mod log;
pub mod registry;
pub mod settings;
pub mod text;
