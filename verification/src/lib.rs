//! Playback orchestration for a single-channel FM broadcast device.
//!
//! The orchestrator takes one song at a time, launches a bounded-duration
//! external broadcast process for it on a configurable transmission
//! frequency, and guarantees the process is torn down cleanly whether it
//! finishes naturally, is skipped, or fails to spawn. The state machine and
//! the exact command line handed to the transmitter are verified; the
//! surrounding process, file and network plumbing lives outside this crate.

pub mod digits;
pub mod io;
pub mod radio;
pub mod song;
pub mod system;
