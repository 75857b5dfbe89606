//! Packaging of firmware payloads into signed, optionally encrypted boot images.

pub mod bytes;
pub mod cipher;
pub mod digest;
pub mod error;
pub mod firmware;
pub mod layout;
pub mod pull;
pub mod rsa_sign;
pub mod sm2_sign;
pub mod variant;
