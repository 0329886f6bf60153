//! Secret storage: the encrypted vault file and the OS keychain.
pub mod encrypted_file;
pub mod keychain;
