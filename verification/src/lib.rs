pub mod aead;
pub mod config;
pub mod constants;
pub mod cryptoenvelope;
pub mod error;
pub mod gatekeeper;
pub mod kdf;
pub mod records;
pub mod rng;
pub mod servicekeys;
