//! A small launcher library for the rhai scripting engine: it strips an
//! optional shebang line from a script, compiles the script (optionally with
//! full optimization), labels the compiled program with its source name for
//! diagnostics, runs it, and classifies every failure into a conventional
//! process exit code.

pub mod engine;
pub mod outcome;
pub mod preprocess;
pub mod runner;
