//! The core of a daemon that tunes a host for games and puts everything
//! back when the last game is gone, together with what a launcher needs to
//! start a game through it.
//!
//! The daemon tracks the processes that asked for tuning. While any is
//! tracked, tuning is active; when the last one is reset or found dead, the
//! GPU and the CPU are put back to their baselines, once. The daemon's
//! decisions are in [`daemon`] and [`service`], the monitor of one process
//! in [`watchdog`], and what holds of them whatever the hardware answers
//! in [`laws`].
//!
//! The library decides and the caller acts: an operation hands out the
//! requests to the hardware one at a time and is told the answers. The GPU's
//! side of that is in [`nvml`]; the files of the CPU, the priorities of
//! processes and the process table are the caller's.

pub mod config;
pub mod daemon;
pub mod env;
pub mod epp;
pub mod gpu;
pub mod home;
pub mod hooks;
pub mod launcher;
pub mod laws;
pub mod locate;
pub mod logfmt;
pub mod nvml;
pub mod priority;
pub mod privilege;
pub mod protocol;
pub mod service;
pub mod text;
pub mod textmap;
pub mod watchdog;
