//! Resolution of run-time settings from a tool configuration document, a build
//! configuration document and command-line overrides, with a fixed order of
//! precedence for each setting.

pub mod document;
pub mod cli;
pub mod config;
pub mod laws;
