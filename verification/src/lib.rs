//! Verified core of a developer token manager: the token registry, the
//! encrypted vault and its file format, key derivation, the storage
//! backends, the import parsers, the command-line helpers and the state
//! machine of the terminal interface.
pub mod text;
pub mod parse;
pub mod model;
pub mod crypto;
pub mod storage;
pub mod integrations;
pub mod cli;
pub mod tui;
