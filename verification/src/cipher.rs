//! SM4-CBC and AES-256-GCM encryption.

use aes_gcm::{AeadInPlace, Aes256Gcm, Key, KeyInit, Nonce, Tag};
use libsm::sm4::cipher_mode::CipherMode;
use libsm::sm4::error::Sm4Error;
use libsm::sm4::Cipher;
use vstd::prelude::*;

use crate::bytes::same_bytes;
use crate::error::XtaskError;

verus! {

/// The error of the aes-gcm crate, carried through unread.
#[verifier::external_type_specification]
#[verifier::external_body]
pub struct ExAeadError(aes_gcm::Error);

/// The length of an SM4 key and of an SM4 initialisation vector.
pub const SM4_BLOCK: usize = 16;

/// The length of an AES-256 key.
pub const AES_KEY_LEN: usize = 32;

/// The length of an AES-GCM nonce.
pub const AES_NONCE_LEN: usize = 12;

/// The length of an AES-GCM authentication tag.
pub const AES_TAG_LEN: usize = 16;

/// The longest plaintext, and the longest associated data, that AES-GCM takes.
pub const AES_GCM_MAX: u64 = 0x10_0000_0000;

/// The SM4-CBC ciphertext of `data`, padded as PKCS#7 asks, under a 16-byte key and a
/// 16-byte initialisation vector.
pub uninterp spec fn sm4_cbc(key: Seq<u8>, aad: Seq<u8>, data: Seq<u8>, iv: Seq<u8>) -> Seq<u8>;

/// The AES-256-GCM ciphertext and tag of `plaintext` under a 32-byte key and a 12-byte nonce.
pub uninterp spec fn aes256_gcm(key: Seq<u8>, nonce: Seq<u8>, aad: Seq<u8>, plaintext: Seq<u8>) -> (
    Seq<u8>,
    Seq<u8>,
);

/// What SM4-CBC decryption gives for a ciphertext under a key and an initialisation
/// vector; `None` where it gives an error.
pub uninterp spec fn sm4_cbc_opened(key: Seq<u8>, aad: Seq<u8>, ciphertext: Seq<u8>, iv: Seq<u8>) -> Option<Seq<u8>>;

/// What AES-256-GCM decryption gives for a ciphertext and its tag under a 32-byte key and
/// a 12-byte nonce; `None` where the tag does not fit or a length is refused.
pub uninterp spec fn aes256_gcm_opened(
    key: Seq<u8>,
    nonce: Seq<u8>,
    aad: Seq<u8>,
    ciphertext: Seq<u8>,
    tag: Seq<u8>,
) -> Option<Seq<u8>>;

/// The length of the SM4-CBC ciphertext of `len` bytes: the padding fills the last block,
/// or adds one where the data ends with a block.
pub open spec fn sm4_cbc_len(len: nat) -> nat {
    (len / SM4_BLOCK as nat + 1) * SM4_BLOCK as nat
}

/// Calls `Cipher::new` in CBC mode and `Cipher::encrypt` of libsm. Trusted: the call fails
/// exactly when the key or the initialisation vector is not 16 bytes long, and otherwise
/// returns the ciphertext, which is the data's whole blocks and one block more.
#[verifier::external_body]
pub(crate) fn sm4_cbc_seal(key: &[u8], aad: &[u8], data: &[u8], iv: &[u8]) -> (res: Result<Vec<u8>, Sm4Error>)
    ensures
        res.is_ok() == (key@.len() == SM4_BLOCK && iv@.len() == SM4_BLOCK),
        res matches Ok(ct) ==> ct@ == sm4_cbc(key@, aad@, data@, iv@),
        res matches Ok(ct) ==> ct@.len() == sm4_cbc_len(data@.len()),
{
    Cipher::new(key, CipherMode::Cbc)?.encrypt(aad, data, iv)
}

/// Calls `Aes256Gcm::new` and `encrypt_in_place_detached` of aes-gcm on a copy of the
/// plaintext. Trusted: for a 32-byte key and a 12-byte nonce the call fails exactly when
/// the plaintext or the associated data is longer than 2^36 bytes, and otherwise returns
/// the ciphertext, as long as the plaintext, and the 16-byte tag.
#[verifier::external_body]
pub(crate) fn aes256_gcm_seal(key: &[u8], nonce: &[u8], aad: &[u8], plaintext: &[u8]) -> (res: Result<(Vec<u8>, Vec<u8>), aes_gcm::Error>)
    requires
        key@.len() == AES_KEY_LEN,
        nonce@.len() == AES_NONCE_LEN,
    ensures
        res is Err <==> plaintext@.len() > AES_GCM_MAX || aad@.len() > AES_GCM_MAX,
        res matches Ok((ct, tag)) ==> {
            &&& (ct@, tag@) == aes256_gcm(key@, nonce@, aad@, plaintext@)
            &&& ct@.len() == plaintext@.len()
            &&& tag@.len() == AES_TAG_LEN
        },
{
    let cipher = Aes256Gcm::new(Key::<Aes256Gcm>::from_slice(key));
    let mut buffer = plaintext.to_vec();
    let tag = cipher.encrypt_in_place_detached(Nonce::from_slice(nonce), aad, &mut buffer)?;
    Ok((buffer, tag.to_vec()))
}

/// Calls `Cipher::new` in CBC mode and `Cipher::decrypt` of libsm. Trusted: the result
/// depends on the four arguments alone. A ciphertext without a byte is left out: the call
/// reads its last byte.
#[verifier::external_body]
pub(crate) fn sm4_cbc_open(key: &[u8], aad: &[u8], ciphertext: &[u8], iv: &[u8]) -> (res: Result<Vec<u8>, Sm4Error>)
    requires
        ciphertext@.len() > 0,
    ensures
        res.is_ok() == sm4_cbc_opened(key@, aad@, ciphertext@, iv@).is_some(),
        res matches Ok(plain) ==> Some(plain@) == sm4_cbc_opened(key@, aad@, ciphertext@, iv@),
{
    Cipher::new(key, CipherMode::Cbc)?.decrypt(aad, ciphertext, iv)
}

/// Calls `Aes256Gcm::new` and `decrypt_in_place_detached` of aes-gcm on a copy of the
/// ciphertext. Trusted: for a 32-byte key, a 12-byte nonce and a 16-byte tag the result
/// depends on the five arguments alone.
#[verifier::external_body]
pub(crate) fn aes256_gcm_open(key: &[u8], nonce: &[u8], aad: &[u8], ciphertext: &[u8], tag: &[u8]) -> (res: Result<Vec<u8>, aes_gcm::Error>)
    requires
        key@.len() == AES_KEY_LEN,
        nonce@.len() == AES_NONCE_LEN,
        tag@.len() == AES_TAG_LEN,
    ensures
        res.is_ok() == aes256_gcm_opened(key@, nonce@, aad@, ciphertext@, tag@).is_some(),
        res matches Ok(plain) ==> Some(plain@) == aes256_gcm_opened(key@, nonce@, aad@, ciphertext@, tag@),
{
    let cipher = Aes256Gcm::new(Key::<Aes256Gcm>::from_slice(key));
    let mut buffer = ciphertext.to_vec();
    cipher.decrypt_in_place_detached(Nonce::from_slice(nonce), aad, &mut buffer, Tag::from_slice(tag))?;
    Ok(buffer)
}

/// What `encrypt_sm4_cbc` returns for a ciphertext that the cipher gave.
pub open spec fn sm4_outcome(key: Seq<u8>, aad: Seq<u8>, data: Seq<u8>, iv: Seq<u8>) -> Option<
    Seq<u8>,
> {
    if key.len() == SM4_BLOCK && iv.len() == SM4_BLOCK {
        Some(sm4_cbc(key, aad, data, iv))
    } else {
        None
    }
}

/// Encrypts `plaintext` with SM4 in CBC mode. No tag is produced: the signature over the
/// ciphertext is what authenticates it.
pub fn encrypt_sm4_cbc(key: &[u8], iv: &[u8], aad: &[u8], plaintext: &[u8]) -> (res: Result<Vec<u8>, XtaskError>)
    ensures
        match sm4_outcome(key@, aad@, plaintext@, iv@) {
            Some(ct) => res matches Ok(out) && out@ == ct && ct.len() == sm4_cbc_len(plaintext@.len()),
            None => res matches Err(XtaskError::SM4Error(_)),
        },
{
    match sm4_cbc_seal(key, aad, plaintext, iv) {
        Ok(ct) => Ok(ct),
        Err(e) => Err(XtaskError::SM4Error(e)),
    }
}

/// What `encrypt_aes_gcm` returns: ciphertext and tag, unless a length is refused.
pub open spec fn aes_outcome(key: Seq<u8>, nonce: Seq<u8>, aad: Seq<u8>, plaintext: Seq<u8>) -> Option<
    (Seq<u8>, Seq<u8>),
> {
    if key.len() == AES_KEY_LEN && nonce.len() == AES_NONCE_LEN && plaintext.len() <= AES_GCM_MAX
        && aad.len() <= AES_GCM_MAX {
        Some(aes256_gcm(key, nonce, aad, plaintext))
    } else {
        None
    }
}

/// Encrypts `plaintext` with AES-256 in Galois/Counter mode and returns the ciphertext
/// and the detached 16-byte tag.
pub fn encrypt_aes_gcm(key: &[u8], nonce: &[u8], aad: &[u8], plaintext: &[u8]) -> (res: Result<(Vec<u8>, Vec<u8>), XtaskError>)
    ensures
        match aes_outcome(key@, nonce@, aad@, plaintext@) {
            Some(sealed) => res matches Ok((ct, tag)) && (ct@, tag@) == sealed && ct@.len()
                == plaintext@.len() && tag@.len() == AES_TAG_LEN,
            None => res matches Err(XtaskError::AesError(_)),
        },
{
    if key.len() != AES_KEY_LEN {
        return Err(XtaskError::AesError("the AES-256 key must be 32 bytes long".to_string()));
    }
    if nonce.len() != AES_NONCE_LEN {
        return Err(XtaskError::AesError("the AES-GCM nonce must be 12 bytes long".to_string()));
    }
    match aes256_gcm_seal(key, nonce, aad, plaintext) {
        Ok(sealed) => Ok(sealed),
        Err(e) => Err(XtaskError::AesError(e.to_string())),
    }
}

/// What checking an SM4-CBC ciphertext against its plaintext arrives at.
pub enum Opened {
    /// Decryption gave an error.
    Failed,
    /// Decryption gave another plaintext.
    Differs,
    /// Decryption gave the plaintext.
    Same,
}

/// What decrypting `ciphertext` and comparing with `plaintext` arrives at, for SM4-CBC.
/// Nothing is the ciphertext of no plaintext.
pub open spec fn sm4_check(key: Seq<u8>, iv: Seq<u8>, aad: Seq<u8>, plaintext: Seq<u8>, ciphertext: Seq<u8>) -> Opened {
    if ciphertext.len() == 0 {
        Opened::Differs
    } else {
        match sm4_cbc_opened(key, aad, ciphertext, iv) {
            None => Opened::Failed,
            Some(plain) => if plain == plaintext {
                Opened::Same
            } else {
                Opened::Differs
            },
        }
    }
}

/// What decrypting `ciphertext` with `tag` and comparing with `plaintext` arrives at, for
/// AES-256-GCM. A key, a nonce or a tag of the wrong length fails.
pub open spec fn aes_check(
    key: Seq<u8>,
    nonce: Seq<u8>,
    aad: Seq<u8>,
    plaintext: Seq<u8>,
    ciphertext: Seq<u8>,
    tag: Seq<u8>,
) -> Opened {
    if key.len() != AES_KEY_LEN || nonce.len() != AES_NONCE_LEN || tag.len() != AES_TAG_LEN {
        Opened::Failed
    } else {
        match aes256_gcm_opened(key, nonce, aad, ciphertext, tag) {
            None => Opened::Failed,
            Some(plain) => if plain == plaintext {
                Opened::Same
            } else {
                Opened::Differs
            },
        }
    }
}

/// Decrypts an SM4-CBC ciphertext and holds the result against the plaintext that it
/// was made from.
pub fn check_sm4_cbc(key: &[u8], iv: &[u8], aad: &[u8], plaintext: &[u8], ciphertext: &[u8]) -> (res: Result<(), XtaskError>)
    ensures
        match sm4_check(key@, iv@, aad@, plaintext@, ciphertext@) {
            Opened::Failed => res matches Err(XtaskError::SM4Error(_)),
            Opened::Differs => res matches Err(XtaskError::RoundTrip),
            Opened::Same => res is Ok,
        },
{
    if ciphertext.len() == 0 {
        return Err(XtaskError::RoundTrip);
    }
    match sm4_cbc_open(key, aad, ciphertext, iv) {
        Ok(plain) => if same_bytes(plain.as_slice(), plaintext) {
            Ok(())
        } else {
            Err(XtaskError::RoundTrip)
        },
        Err(e) => Err(XtaskError::SM4Error(e)),
    }
}

/// Decrypts an AES-256-GCM ciphertext with its tag and holds the result against the
/// plaintext that it was made from.
pub fn check_aes_gcm(key: &[u8], nonce: &[u8], aad: &[u8], plaintext: &[u8], ciphertext: &[u8], tag: &[u8]) -> (res: Result<(), XtaskError>)
    ensures
        match aes_check(key@, nonce@, aad@, plaintext@, ciphertext@, tag@) {
            Opened::Failed => res matches Err(XtaskError::AesError(_)),
            Opened::Differs => res matches Err(XtaskError::RoundTrip),
            Opened::Same => res is Ok,
        },
{
    if key.len() != AES_KEY_LEN || nonce.len() != AES_NONCE_LEN || tag.len() != AES_TAG_LEN {
        return Err(XtaskError::AesError("key, nonce or tag of the wrong length".to_string()));
    }
    match aes256_gcm_open(key, nonce, aad, ciphertext, tag) {
        Ok(plain) => if same_bytes(plain.as_slice(), plaintext) {
            Ok(())
        } else {
            Err(XtaskError::RoundTrip)
        },
        Err(e) => Err(XtaskError::AesError(e.to_string())),
    }
}

} // verus!
