//! Orchestration of document conversions and the history of their outcomes.
//!
//! The library resolves format strings into a closed set of formats,
//! assembles the jobs that a conversion engine runs, judges what the engine
//! reports, and decides how the log of past conversions is loaded and
//! saved. It touches neither the file system nor the engine: callers do
//! that and tell the library what happened.

pub mod convert;
pub mod engine;
pub mod error;
pub mod format;
pub mod history;
pub mod shell;
pub mod text;
