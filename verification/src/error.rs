//! The error type of the packaging pipeline.

use vstd::prelude::*;

verus! {

/// The error of libsm's SM4 cipher, carried through unread.
#[verifier::external_type_specification]
#[verifier::external_body]
pub struct ExSm4Error(libsm::sm4::error::Sm4Error);

/// The error of the rsa crate, carried through unread.
#[verifier::external_type_specification]
#[verifier::external_body]
pub struct ExRsaError(rsa::errors::Error);

/// Why an image could not be built.
#[derive(Debug)]
pub enum XtaskError {
    /// The selector text names no variant.
    InvalidEncryptionType,
    /// The SM4 cipher refused its key or its initialisation vector.
    SM4Error(libsm::sm4::error::Sm4Error),
    /// An SM2 key could not be loaded, or signing failed.
    SM2Error(String),
    /// The SM2 identity does not fit the fixed-size key block of the image.
    Sm2IdTooLong,
    /// The AES key or nonce has the wrong length, or AES-GCM refused the input.
    AesError(String),
    /// The RSA key was rejected, or signing failed.
    RsaError(rsa::errors::Error),
    /// An RSA key component is no hexadecimal numeral.
    RsaParseError(String),
    /// A ciphertext did not decrypt to what was encrypted.
    RoundTrip,
}

pub type XtaskResult<T> = Result<T, XtaskError>;

} // verus!
