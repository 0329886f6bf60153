//! Importers that read tokens other tools already hold. Each turns what its
//! tool printed or stored into records ready to be added to the registry.
pub mod entry;
pub mod json;
pub mod gh;
pub mod glab;
pub mod docker;
pub mod gradle;
pub mod pencil;
