//! Human-like input: statistically varied delays and pointer paths.

pub mod geometry;
pub mod jitter;
pub mod path;
pub mod random;

pub use self::jitter::BehavioralJitter;
pub use self::path::DiffusionMousePath;
