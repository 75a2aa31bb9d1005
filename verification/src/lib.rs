//! Decision logic of an automation worker: the retry and reconnection rules of
//! its backend session, and the synthesis of human-like pointer motion and
//! timing. Nothing here performs I/O; callers run the network and the browser
//! and ask this crate what to do next.

pub mod client;
pub mod stealth;
pub mod supervisor;

pub use crate::stealth::jitter::BehavioralJitter;
pub use crate::stealth::path::DiffusionMousePath;
pub use crate::supervisor::{ConnectionSupervisor, HealthState};
