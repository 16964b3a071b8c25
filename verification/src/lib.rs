//! A verified core for an interactive commit-message assistant: it
//! inspects pending changes, builds a prompt from each change's diff,
//! asks a pluggable language-model backend for a draft message, runs an
//! optional audit gate over the diff, lets the operator accept or
//! regenerate each draft, and only then stages, commits and optionally
//! pushes the file. The decisions and the data are verified here; the
//! repository commands, the HTTP exchange and the console live in the
//! surrounding program.
pub mod audit;
pub mod cli;
pub mod config;
pub mod git;
pub mod json;
pub mod prompt;
pub mod providers;
pub mod review;
pub mod text;
pub mod utils;
pub mod workflow;
