pub mod aead;
pub mod random;
pub mod kdf;
