//! CPU time measurement for the current process and the current thread.
//!
//! Two opaque timestamp types, [`ProcessTime`] and [`ThreadTime`], each wrap
//! the cumulative CPU time consumed since an arbitrary epoch (conventionally
//! process or thread start). A timestamp is only meaningful relative to
//! another timestamp of the same kind: take two samples and subtract them to
//! obtain an elapsed [`Duration`] of CPU time, independent of wall-clock time.
//!
//! The sampling entry points read the kernel's per-process and per-thread
//! CPU-time clocks. The [`windows`] module holds the tick-count arithmetic
//! of the backend for systems that report CPU time as pairs of 100-nanosecond
//! tick words.

mod duration;
mod error;
pub mod clock_gettime;
pub mod windows;

pub use duration::Duration;
pub use error::TimeError;
pub use clock_gettime::{ProcessTime, ThreadTime};
