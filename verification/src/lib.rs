//! Decision logic of a low-latency audio helper: which engine period an
//! endpoint is switched to, whether the process is admitted to the real-time
//! path, and how command-line selectors are resolved.

pub mod admission;
pub mod barrier;
pub mod cpuset;
pub mod selector;
pub mod sound;
