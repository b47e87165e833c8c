//! An endless generator of `"y\n"` lines, built for throughput.
//!
//! The library holds the parts with logic in them: the pattern buffer, the
//! configuration of an engine, and the state machine that decides, after each
//! transfer into the output descriptor, whether the engine goes on or stops.
//! The system calls themselves are made by the caller, who hands each result
//! back to the state machine.
pub mod config;
pub mod engine;
pub mod pattern;
