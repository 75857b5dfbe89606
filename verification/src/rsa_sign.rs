//! The RSA signer: key components from their numerals, and the PKCS#1 v1.5 signature
//! over the digest of the authentication tag.

use aes_gcm::aead::OsRng;
use num_bigint_dig::BigUint;
use rsa::traits::SignatureScheme;
use rsa::{Pkcs1v15Sign, RsaPrivateKey, RsaPublicKey};
use vstd::prelude::*;
use vstd::string::*;
use vstd::utf8::is_ascii_chars;

use crate::bytes::{
    all_zero,
    append,
    is_all_zero,
    is_shortest,
    le_magnitude,
    magnitude_ends_in_digit,
    shortest_is_significant,
    significant_len,
    u32_magnitude,
};
use crate::digest::{sha256, sha_256};
use crate::error::XtaskError;

verus! {

/// The value of a byte that is a hexadecimal digit, in either letter case.
pub open spec fn hex_byte(b: u8) -> Option<nat> {
    if 0x30 <= b && b <= 0x39 {
        Some((b - 0x30) as nat)
    } else if 0x61 <= b && b <= 0x66 {
        Some((b - 0x61 + 10) as nat)
    } else if 0x41 <= b && b <= 0x46 {
        Some((b - 0x41 + 10) as nat)
    } else {
        None
    }
}

/// The number that hexadecimal digits spell when the underscores among them are passed
/// over; nothing spells 0.
pub open spec fn hex_bytes_number(digits: Seq<u8>) -> Option<nat>
    decreases digits.len(),
{
    if digits.len() == 0 {
        Some(0)
    } else if digits.last() == 0x5f {
        hex_bytes_number(digits.drop_last())
    } else {
        match (hex_bytes_number(digits.drop_last()), hex_byte(digits.last())) {
            (Some(high), Some(low)) => Some(16 * high + low),
            _ => None,
        }
    }
}

/// The number that a hexadecimal numeral stands for, as its shortest little-endian byte
/// string. A numeral is digits, with underscores among them but not in front, behind at
/// most one plus sign; `None` where the text is no such numeral.
pub open spec fn hex_value(text: Seq<u8>) -> Option<Seq<u8>> {
    let digits = if text.len() > 0 && text[0] == 0x2b {
        text.drop_first()
    } else {
        text
    };
    if digits.len() == 0 || digits[0] == 0x5f {
        None
    } else {
        match hex_bytes_number(digits) {
            Some(value) => Some(le_magnitude(value)),
            None => None,
        }
    }
}

/// Whether a signature is accepted as the PKCS#1 v1.5 signature, without a hash prefix,
/// of `hashed` under the public key with modulus `n`, least significant byte first, and
/// exponent `e`.
pub uninterp spec fn rsa_verification(n: Seq<u8>, e: u32, hashed: Seq<u8>, signature: Seq<u8>) -> bool;

/// The value of a hexadecimal digit, in either letter case.
pub open spec fn hex_digit(c: char) -> Option<nat> {
    if '0' <= c && c <= '9' {
        Some((c as nat - '0' as nat) as nat)
    } else if 'a' <= c && c <= 'f' {
        Some((c as nat - 'a' as nat + 10) as nat)
    } else if 'A' <= c && c <= 'F' {
        Some((c as nat - 'A' as nat + 10) as nat)
    } else {
        None
    }
}

/// The number that a run of hexadecimal digits spells; the empty run spells 0.
pub open spec fn hex_number(digits: Seq<char>) -> Option<nat>
    decreases digits.len(),
{
    if digits.len() == 0 {
        Some(0)
    } else {
        match (hex_number(digits.drop_last()), hex_digit(digits.last())) {
            (Some(high), Some(low)) => Some(16 * high + low),
            _ => None,
        }
    }
}

/// The number below 2^32 that a hexadecimal numeral stands for: one digit or more behind
/// at most one plus sign. `None` where the text is no such numeral or the number is too
/// large.
pub open spec fn hex_u32_value(text: Seq<char>) -> Option<u32> {
    let digits = if text.len() > 0 && text[0] == '+' {
        text.drop_first()
    } else {
        text
    };
    if digits.len() == 0 {
        None
    } else {
        match hex_number(digits) {
            Some(value) => if value <= u32::MAX {
                Some(value as u32)
            } else {
                None
            },
            None => None,
        }
    }
}

/// The PKCS#1 v1.5 signature, without a hash prefix, of `hashed` under the private key
/// with modulus `n` and private exponent `d`, both least significant byte first, and
/// public exponent `e`; `None` where the key or the input is refused.
pub uninterp spec fn rsa_signature(n: Seq<u8>, e: u32, d: Seq<u8>, hashed: Seq<u8>) -> Option<Seq<u8>>;

/// The smallest public exponent for which the primes of a key are looked for.
pub const RECOVERY_MIN_EXPONENT: u32 = 65537;

/// Calls `BigUint::parse_bytes` with radix 16 and `BigUint::to_bytes_le` of
/// num-bigint-dig. Trusted: the text is read as `hex_value` says, and the number is
/// written least significant byte first without high zero bytes.
#[verifier::external_body]
fn parse_hex(digits: &[u8]) -> (res: Option<Vec<u8>>)
    ensures
        res.is_some() == hex_value(digits@).is_some(),
        res matches Some(bytes) ==> Some(bytes@) == hex_value(digits@),
{
    match BigUint::parse_bytes(digits, 16) {
        Some(n) => Some(n.to_bytes_le()),
        None => None,
    }
}

/// The digits in front of a numeral spell a number, and no larger one than the numeral.
proof fn leading_digits(digits: Seq<char>, k: int)
    requires
        0 <= k <= digits.len(),
        hex_number(digits) is Some,
    ensures
        hex_number(digits.subrange(0, k)) is Some,
        hex_number(digits.subrange(0, k))->Some_0 <= hex_number(digits)->Some_0,
    decreases digits.len() - k,
{
    if k == digits.len() {
        assert(digits.subrange(0, k) =~= digits);
    } else {
        leading_digits(digits.drop_last(), k);
        assert(digits.drop_last().subrange(0, k) =~= digits.subrange(0, k));
    }
}

/// The value of a character that is a hexadecimal digit.
fn hex_digit_of(c: char) -> (digit: Option<u64>)
    ensures
        match hex_digit(c) {
            Some(value) => digit == Some(value as u64) && value < 16,
            None => digit is None,
        },
{
    let code: u32 = c as u32;
    if '0' <= c && c <= '9' {
        Some((code - 0x30) as u64)
    } else if 'a' <= c && c <= 'f' {
        Some((code - 0x61 + 10) as u64)
    } else if 'A' <= c && c <= 'F' {
        Some((code - 0x41 + 10) as u64)
    } else {
        None
    }
}

/// Reads a hexadecimal numeral below 2^32: digits behind at most one plus sign.
pub fn parse_hex_u32(text: &str) -> (res: Option<u32>)
    ensures
        res == hex_u32_value(text@),
{
    let n = text.unicode_len();
    let start: usize = if n > 0 && text.get_char(0) == '+' {
        1
    } else {
        0
    };
    let ghost digits = if start == 1 {
        text@.drop_first()
    } else {
        text@
    };
    assert(digits =~= text@.subrange(start as int, n as int));
    if start == n {
        return None;
    }
    let mut value: u64 = 0;
    let mut i: usize = start;
    assert(digits.subrange(0, 0) =~= Seq::<char>::empty());
    while i < n
        invariant
            start <= i <= n,
            start < n,
            n == text@.len(),
            digits == text@.subrange(start as int, n as int),
            digits == if text@.len() > 0 && text@[0] == '+' {
                text@.drop_first()
            } else {
                text@
            },
            hex_number(digits.subrange(0, i - start)) == Some(value as nat),
            value <= u32::MAX,
        decreases n - i,
    {
        let ghost longer = digits.subrange(0, i - start + 1);
        proof {
            assert(longer.drop_last() =~= digits.subrange(0, i - start));
            assert(longer.last() == text@[i as int]);
            assert(hex_number(longer) == match (
                hex_number(longer.drop_last()),
                hex_digit(longer.last()),
            ) {
                (Some(high), Some(low)) => Some(16 * high + low),
                _ => None::<nat>,
            });
            if hex_number(digits) is Some {
                leading_digits(digits, i - start + 1);
            }
        }
        match hex_digit_of(text.get_char(i)) {
            Some(digit) => {
                let next: u64 = value * 16 + digit;
                assert(hex_number(longer) == Some(next as nat));
                if next > 0xffff_ffff {
                    return None;
                }
                value = next;
            },
            None => {
                assert(hex_number(longer) is None);
                return None;
            },
        }
        i += 1;
    }
    assert(digits.subrange(0, n - start) =~= digits);
    Some(value as u32)
}

/// Calls `RsaPrivateKey::from_components` with no primes, and `Pkcs1v15Sign::sign` of
/// `Pkcs1v15Sign::new_unprefixed()` without a random number generator. Trusted: success
/// and the signature depend on the four arguments alone, and a signature has as many
/// bytes as the modulus has without its high zero bytes. The primes are recovered from
/// the three numbers, which is refused for an exponent below 65537 and otherwise needs a
/// modulus and a private exponent that are not zero.
#[verifier::external_body]
fn rsa_sign_raw(n: &[u8], e: u32, d: &[u8], hashed: &[u8]) -> (res: Result<Vec<u8>, rsa::errors::Error>)
    requires
        e >= RECOVERY_MIN_EXPONENT ==> !all_zero(n@) && !all_zero(d@),
    ensures
        res.is_ok() == rsa_signature(n@, e, d@, hashed@).is_some(),
        res matches Ok(signature) ==> Some(signature@) == rsa_signature(n@, e, d@, hashed@),
        res matches Ok(signature) ==> signature@.len() == significant_len(n@),
        e < RECOVERY_MIN_EXPONENT ==> res.is_err(),
{
    let key = RsaPrivateKey::from_components(
        BigUint::from_bytes_le(n),
        BigUint::from(e),
        BigUint::from_bytes_le(d),
        Vec::new(),
    )?;
    Pkcs1v15Sign::new_unprefixed().sign::<OsRng>(None, &key, hashed)
}

/// Calls `RsaPublicKey::new_with_max_size` with no limit on the modulus, and
/// `Pkcs1v15Sign::verify` of `Pkcs1v15Sign::new_unprefixed()`. Trusted: the answer depends
/// on the four arguments alone.
#[verifier::external_body]
fn rsa_verify_raw(n: &[u8], e: u32, hashed: &[u8], signature: &[u8]) -> (res: Result<(), rsa::errors::Error>)
    ensures
        res.is_ok() == rsa_verification(n@, e, hashed@, signature@),
{
    let key = RsaPublicKey::new_with_max_size(BigUint::from_bytes_le(n), BigUint::from(e), usize::MAX)?;
    Pkcs1v15Sign::new_unprefixed().verify(&key, hashed, signature)
}

/// The public half of the key and the signature, as the image holds them.
pub struct RsaSigned {
    /// The modulus, least significant byte first, without high zero bytes.
    pub modulus: Vec<u8>,
    /// The public exponent, least significant byte first, without high zero bytes.
    pub exponent: Vec<u8>,
    /// The signature, most significant byte first, as long as the modulus.
    pub signature: Vec<u8>,
}

/// What `rsa_sign` arrives at.
pub enum RsaOutcome {
    /// The modulus is no numeral.
    BadModulus,
    /// The public exponent is no numeral behind a two-character prefix.
    BadExponent,
    /// The private exponent is no numeral.
    BadPrivateExponent,
    /// The modulus or the private exponent is zero where the primes must be recovered.
    ZeroComponent,
    /// The key or the input was refused, or the signature did not verify.
    Refused,
    /// The modulus, the public exponent and the signature.
    Signed { modulus: Seq<u8>, exponent: Seq<u8>, signature: Seq<u8> },
}

/// The digits of the public exponent: what follows the two-character prefix of an ASCII
/// text.
pub open spec fn exponent_digits(e_text: Seq<char>) -> Option<Seq<char>> {
    if is_ascii_chars(e_text) && e_text.len() >= 2 {
        Some(e_text.subrange(2, e_text.len() as int))
    } else {
        None
    }
}

/// The public exponent that a text gives.
pub open spec fn exponent_value(e_text: Seq<char>) -> Option<u32> {
    match exponent_digits(e_text) {
        Some(digits) => hex_u32_value(digits),
        None => None,
    }
}

/// The outcome of signing `tag` under the key that the three numerals give.
pub open spec fn rsa_outcome(n_hex: Seq<u8>, e_text: Seq<char>, d_hex: Seq<u8>, tag: Seq<u8>) -> RsaOutcome {
    match (hex_value(n_hex), exponent_value(e_text), hex_value(d_hex)) {
        (None, _, _) => RsaOutcome::BadModulus,
        (Some(_), None, _) => RsaOutcome::BadExponent,
        (Some(_), Some(_), None) => RsaOutcome::BadPrivateExponent,
        (Some(n), Some(e), Some(d)) => if e >= RECOVERY_MIN_EXPONENT && (all_zero(n) || all_zero(d)) {
            RsaOutcome::ZeroComponent
        } else {
            match rsa_signature(n, e, d, sha256(tag)) {
                Some(signature) => if rsa_verification(n, e, sha256(tag), signature) {
                    RsaOutcome::Signed { modulus: n, exponent: le_magnitude(e as nat), signature }
                } else {
                    RsaOutcome::Refused
                },
                None => RsaOutcome::Refused,
            }
        },
    }
}

/// Reads the public exponent from a text such as `0x10001`.
pub fn parse_exponent(e_text: &str) -> (res: Option<u32>)
    ensures
        res == exponent_value(e_text@),
{
    if !e_text.is_ascii() {
        return None;
    }
    let len = e_text.unicode_len();
    if len < 2 {
        return None;
    }
    parse_hex_u32(e_text.substring_ascii(2, len))
}

/// Whether `error` is what is reported for an outcome that is no signature.
pub open spec fn rsa_reports(outcome: RsaOutcome, error: XtaskError) -> bool {
    match outcome {
        RsaOutcome::BadModulus => error matches XtaskError::RsaParseError(text) && text@
            == "Failed to parse N for RSA"@,
        RsaOutcome::BadExponent => error matches XtaskError::RsaParseError(text) && text@
            == "Failed to parse E for RSA"@,
        RsaOutcome::BadPrivateExponent => error matches XtaskError::RsaParseError(text) && text@
            == "Failed to parse D for RSA"@,
        RsaOutcome::ZeroComponent => error matches XtaskError::RsaParseError(text) && text@
            == "N and D for RSA must not be zero"@,
        RsaOutcome::Refused => error is RsaError,
        RsaOutcome::Signed { .. } => false,
    }
}

/// Computes the hash that identifies the RSA public key whose modulus and public exponent
/// are given as numerals: SHA-256 over both as the image holds them.
pub fn rsa_key_hash(n_hex: &[u8], e_text: &str) -> (res: Result<Vec<u8>, XtaskError>)
    ensures
        match (hex_value(n_hex@), exponent_value(e_text@)) {
            (None, _) => res matches Err(error) && rsa_reports(RsaOutcome::BadModulus, error),
            (Some(_), None) => res matches Err(error) && rsa_reports(RsaOutcome::BadExponent, error),
            (Some(n), Some(e)) => res matches Ok(hash) && hash@ == sha256(n + le_magnitude(e as nat)),
        },
{
    let mut key = match parse_hex(n_hex) {
        Some(n) => n,
        None => {
            return Err(XtaskError::RsaParseError("Failed to parse N for RSA".to_string()));
        },
    };
    let e = match parse_exponent(e_text) {
        Some(e) => e,
        None => {
            return Err(XtaskError::RsaParseError("Failed to parse E for RSA".to_string()));
        },
    };
    let exponent = u32_magnitude(e);
    append(&mut key, exponent.as_slice());
    Ok(sha_256(key.as_slice()))
}

/// Signs the SHA-256 digest of `tag` with PKCS#1 v1.5 padding and no hash prefix, under
/// the private key whose modulus, public exponent and private exponent are given as
/// hexadecimal numerals, the public exponent behind a two-character prefix. The signature
/// is returned only after it has verified under the public half of the key.
pub fn rsa_sign(n_hex: &[u8], e_text: &str, d_hex: &[u8], tag: &[u8]) -> (res: Result<RsaSigned, XtaskError>)
    ensures
        match rsa_outcome(n_hex@, e_text@, d_hex@, tag@) {
            RsaOutcome::Signed { modulus, exponent, signature } => {
                &&& res matches Ok(signed) && signed.modulus@ == modulus && signed.exponent@ == exponent
                    && signed.signature@ == signature
                &&& is_shortest(modulus)
                &&& signature.len() == modulus.len()
            },
            outcome => res matches Err(error) && rsa_reports(outcome, error),
        },
{
    let n = match parse_hex(n_hex) {
        Some(n) => n,
        None => {
            return Err(XtaskError::RsaParseError("Failed to parse N for RSA".to_string()));
        },
    };
    let e = match parse_exponent(e_text) {
        Some(e) => e,
        None => {
            return Err(XtaskError::RsaParseError("Failed to parse E for RSA".to_string()));
        },
    };
    proof {
        magnitude_ends_in_digit(hex_bytes_number(if n_hex@.len() > 0 && n_hex@[0] == 0x2b {
            n_hex@.drop_first()
        } else {
            n_hex@
        })->Some_0);
    }
    let d = match parse_hex(d_hex) {
        Some(d) => d,
        None => {
            return Err(XtaskError::RsaParseError("Failed to parse D for RSA".to_string()));
        },
    };
    if e >= RECOVERY_MIN_EXPONENT && (is_all_zero(n.as_slice()) || is_all_zero(d.as_slice())) {
        return Err(XtaskError::RsaParseError("N and D for RSA must not be zero".to_string()));
    }
    let tag_hash = sha_256(tag);
    let signature = match rsa_sign_raw(n.as_slice(), e, d.as_slice(), tag_hash.as_slice()) {
        Ok(signature) => signature,
        Err(e) => {
            return Err(XtaskError::RsaError(e));
        },
    };
    match rsa_verify_raw(n.as_slice(), e, tag_hash.as_slice(), signature.as_slice()) {
        Ok(()) => {
            proof {
                shortest_is_significant(n@);
            }
            Ok(RsaSigned { modulus: n, exponent: u32_magnitude(e), signature })
        },
        Err(e) => Err(XtaskError::RsaError(e)),
    }
}

} // verus!
