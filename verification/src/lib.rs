//! Bootstrap and lifecycle core of a desktop wallet application.
//!
//! The crate decides, from command-line input and the state of the data
//! directory, which of four mutually exclusive operating modes the process
//! starts in (launcher, installer, loader, running app), and it mediates
//! every transition between those modes as setup steps complete.  All
//! decisions are pure functions of plain values; the surrounding process
//! performs the file reads, daemon calls and rendering and hands the
//! results back as events.

pub mod args;
pub mod config;
pub mod laws;
pub mod lifecycle;
pub mod network;
pub mod text;
