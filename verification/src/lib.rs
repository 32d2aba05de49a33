//! Core of a multi-process supervisor: launch planning for a set of named
//! commands, per-process output line splitting and prefixing, cyclic color
//! assignment, and exit-status tracking. The operating-system work (spawning,
//! pseudo-terminals, signals, console writes) lives outside this crate; this
//! library makes every decision those edges need and proves what it decides.

pub mod color;
pub mod config;
pub mod console;
pub mod env;
pub mod io_arc;
pub mod launch;
pub mod lines;
pub mod report;
pub mod shunt;
