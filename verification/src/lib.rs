//! Command-line argument interpreter for the pylyzer static analyzer.
//!
//! A raw argument sequence (program name already stripped) is turned into
//! either a fully-resolved run configuration or a terminal action (help,
//! version, cache clearing, invalid-option report). The interpreter is a
//! pure function over the token sequence; the thin process entry point
//! performs the actual printing, process exit and dispatch.

pub mod config;
pub mod laws;
pub mod messages;
pub mod text;
