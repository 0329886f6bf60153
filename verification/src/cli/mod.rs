//! The command-line interface: what its commands decide and print.
pub mod commands;
