//! The terminal interface: its state machine and what its screens show.
pub mod app;
pub mod view;
