//! The SM2 signer: the identity digest, the signed digest and the signature itself.

use libsm::sm2::ecc::EccCtx;
use libsm::sm2::signature::{SigCtx, Signature};
use vstd::prelude::*;

use crate::bytes::{
    append,
    encode_u32,
    length_code,
    length_code_of,
    reversed,
    u32_le,
    widen,
    widened,
    ByteOrder,
};
use crate::digest::{sm3, sm3_hash};
use crate::error::XtaskError;

verus! {

/// The length of a coordinate, of a private key and of each half of a signature.
pub const SM2_WORD: usize = 32;

/// The coefficient `a` of the SM2 curve, most significant byte first.
pub open spec fn curve_a() -> Seq<u8> {
    seq![
        0xff, 0xff, 0xff, 0xfe, 0xff, 0xff, 0xff, 0xff,
        0xff, 0xff, 0xff, 0xff, 0xff, 0xff, 0xff, 0xff,
        0xff, 0xff, 0xff, 0xff, 0x00, 0x00, 0x00, 0x00,
        0xff, 0xff, 0xff, 0xff, 0xff, 0xff, 0xff, 0xfc,
    ]
}

/// The coefficient `b` of the SM2 curve, most significant byte first.
pub open spec fn curve_b() -> Seq<u8> {
    seq![
        0x28, 0xe9, 0xfa, 0x9e, 0x9d, 0x9f, 0x5e, 0x34,
        0x4d, 0x5a, 0x9e, 0x4b, 0xcf, 0x65, 0x09, 0xa7,
        0xf3, 0x97, 0x89, 0xf5, 0x15, 0xab, 0x8f, 0x92,
        0xdd, 0xbc, 0xbd, 0x41, 0x4d, 0x94, 0x0e, 0x93,
    ]
}

/// The first coordinate of the SM2 base point, most significant byte first.
pub open spec fn base_x() -> Seq<u8> {
    seq![
        0x32, 0xc4, 0xae, 0x2c, 0x1f, 0x19, 0x81, 0x19,
        0x5f, 0x99, 0x04, 0x46, 0x6a, 0x39, 0xc9, 0x94,
        0x8f, 0xe3, 0x0b, 0xbf, 0xf2, 0x66, 0x0b, 0xe1,
        0x71, 0x5a, 0x45, 0x89, 0x33, 0x4c, 0x74, 0xc7,
    ]
}

/// The second coordinate of the SM2 base point, most significant byte first.
pub open spec fn base_y() -> Seq<u8> {
    seq![
        0xbc, 0x37, 0x36, 0xa2, 0xf4, 0xf6, 0x77, 0x9c,
        0x59, 0xbd, 0xce, 0xe3, 0x6b, 0x69, 0x21, 0x53,
        0xd0, 0xa9, 0x87, 0x7c, 0xc6, 0x2a, 0x47, 0x40,
        0x02, 0xdf, 0x32, 0xe5, 0x21, 0x39, 0xf0, 0xa0,
    ]
}

/// Whether libsm loads a public key from its encoded form.
pub uninterp spec fn sm2_key_loads(encoded: Seq<u8>) -> bool;

/// What libsm's verification says of a signature, its halves `r` and `s` most significant
/// byte first, for a digest under an encoded public key; `None` where it gives an error.
pub uninterp spec fn sm2_verification(encoded: Seq<u8>, digest: Seq<u8>, r: Seq<u8>, s: Seq<u8>) -> Option<bool>;

/// Calls `EccCtx::get_a` and `FieldElem::to_bytes` of libsm. Trusted: the result is the
/// curve's coefficient `a`.
#[verifier::external_body]
fn curve_a_bytes() -> (a: Vec<u8>)
    ensures
        a@ == curve_a(),
{
    EccCtx::new().get_a().to_bytes()
}

/// Calls `EccCtx::get_b` and `FieldElem::to_bytes` of libsm. Trusted: the result is the
/// curve's coefficient `b`.
#[verifier::external_body]
fn curve_b_bytes() -> (b: Vec<u8>)
    ensures
        b@ == curve_b(),
{
    EccCtx::new().get_b().to_bytes()
}

/// Calls `EccCtx::generator` of libsm and `FieldElem::to_bytes` on its coordinates; an
/// error is returned as its text. Trusted: the call takes no input and succeeds (libsm
/// itself relies on that whenever it multiplies the base point), and the point is the
/// base point.
#[verifier::external_body]
fn base_point_bytes() -> (res: Result<(Vec<u8>, Vec<u8>), String>)
    ensures
        res is Ok,
        res matches Ok((x, y)) ==> (x@ == base_x() && y@ == base_y()),
{
    match EccCtx::new().generator() {
        Ok(g) => Ok((g.x.to_bytes(), g.y.to_bytes())),
        Err(e) => Err(e.to_string()),
    }
}

/// Calls `SigCtx::load_pubkey` of libsm; an error is returned as its text. Trusted:
/// success depends on the encoded key alone.
#[verifier::external_body]
fn load_public_key(encoded: &[u8]) -> (res: Result<(), String>)
    ensures
        res.is_ok() == sm2_key_loads(encoded@),
{
    match SigCtx::new().load_pubkey(encoded) {
        Ok(_) => Ok(()),
        Err(e) => Err(e.to_string()),
    }
}

/// Calls `SigCtx::load_pubkey`, `Signature::new` and `SigCtx::verify_raw` of libsm; an
/// error is returned as its text. Trusted: the answer depends on the four arguments
/// alone, and a key that does not load gives an error.
#[verifier::external_body]
fn sm2_verify_raw(encoded: &[u8], digest: &[u8], r: &[u8], s: &[u8]) -> (res: Result<bool, String>)
    ensures
        res.is_ok() == sm2_verification(encoded@, digest@, r@, s@).is_some(),
        res matches Ok(accepted) ==> Some(accepted) == sm2_verification(encoded@, digest@, r@, s@),
        !sm2_key_loads(encoded@) ==> res.is_err(),
{
    let ctx = SigCtx::new();
    let pk = match ctx.load_pubkey(encoded) {
        Ok(pk) => pk,
        Err(e) => return Err(e.to_string()),
    };
    match ctx.verify_raw(digest, &pk, &Signature::new(r, s)) {
        Ok(accepted) => Ok(accepted),
        Err(e) => Err(e.to_string()),
    }
}

/// Calls `SigCtx::load_seckey` and `SigCtx::sign_raw` of libsm, and `to_bytes_le` on the
/// two halves of the signature; an error is returned as its text. Signing draws a fresh
/// random number, so nothing is claimed of a signature that is returned. Trusted: a
/// private key that is not 32 bytes long is refused.
#[verifier::external_body]
fn sm2_sign_raw(private_key: &[u8], digest: &[u8]) -> (res: Result<(Vec<u8>, Vec<u8>), String>)
    ensures
        private_key@.len() != SM2_WORD ==> res.is_err(),
{
    let ctx = SigCtx::new();
    let sk = match ctx.load_seckey(private_key) {
        Ok(sk) => sk,
        Err(e) => return Err(e.to_string()),
    };
    match ctx.sign_raw(digest, &sk) {
        Ok(sig) => Ok((sig.get_r().to_bytes_le(), sig.get_s().to_bytes_le())),
        Err(e) => Err(e.to_string()),
    }
}

/// The identity digest: SM3 over the identity's length field, the identity, the curve's
/// parameters and the public key's coordinates.
pub open spec fn identity_digest(id_len: Seq<u8>, id: Seq<u8>, pub_x: Seq<u8>, pub_y: Seq<u8>) -> Seq<u8> {
    sm3(id_len + id + curve_a() + curve_b() + base_x() + base_y() + pub_x + pub_y)
}

/// The digest of a message that is handed to the signer: SM3 over the identity digest
/// followed by the message.
pub open spec fn message_digest(
    id_len: Seq<u8>,
    id: Seq<u8>,
    pub_x: Seq<u8>,
    pub_y: Seq<u8>,
    message: Seq<u8>,
) -> Seq<u8> {
    sm3(identity_digest(id_len, id, pub_x, pub_y) + message)
}

/// Assembles the input of the identity digest from the curve's parameters as they were
/// read, and hashes it with the message.
pub fn digest_with_identity(
    id_len: &[u8],
    id: &[u8],
    a: &[u8],
    b: &[u8],
    x_g: &[u8],
    y_g: &[u8],
    pub_x: &[u8],
    pub_y: &[u8],
    message: &[u8],
) -> (e: Vec<u8>)
    ensures
        e@ == sm3(sm3(id_len@ + id@ + a@ + b@ + x_g@ + y_g@ + pub_x@ + pub_y@) + message@),
        e@.len() == 32,
{
    let mut z: Vec<u8> = Vec::new();
    append(&mut z, id_len);
    append(&mut z, id);
    append(&mut z, a);
    append(&mut z, b);
    append(&mut z, x_g);
    append(&mut z, y_g);
    append(&mut z, pub_x);
    append(&mut z, pub_y);
    assert(z@ == id_len@ + id@ + a@ + b@ + x_g@ + y_g@ + pub_x@ + pub_y@);
    let z_a = sm3_hash(z.as_slice());
    let mut m: Vec<u8> = Vec::new();
    append(&mut m, z_a.as_slice());
    append(&mut m, message);
    assert(m@ == z_a@ + message@);
    sm3_hash(m.as_slice())
}

/// Brings the two halves of a signature, least significant byte first, to 32 bytes each.
pub fn fixed_width_signature(r: &[u8], s: &[u8]) -> (res: Result<(Vec<u8>, Vec<u8>), XtaskError>)
    ensures
        (r@.len() <= SM2_WORD && s@.len() <= SM2_WORD) ==> (res matches Ok((r32, s32)) && r32@
            == widened(r@, SM2_WORD as nat) && s32@ == widened(
            s@,
            SM2_WORD as nat,
        ) && r32@.len() == SM2_WORD && s32@.len() == SM2_WORD),
        !(r@.len() <= SM2_WORD && s@.len() <= SM2_WORD) ==> res matches Err(XtaskError::SM2Error(_)),
{
    match (widen(r, SM2_WORD), widen(s, SM2_WORD)) {
        (Some(r32), Some(s32)) => Ok((r32, s32)),
        _ => Err(XtaskError::SM2Error("the signature does not fit 32 bytes".to_string())),
    }
}

/// The encoded form of the public key with the given coordinates: the mark of an
/// uncompressed point and the two coordinates.
pub open spec fn encoded_key(pub_x: Seq<u8>, pub_y: Seq<u8>) -> Seq<u8> {
    seq![4u8] + pub_x + pub_y
}

/// Whether `r` and `s`, least significant byte first, are accepted as a signature of
/// `message` for the given identity under the public key with the given coordinates.
pub open spec fn sm2_accepts(
    id_len: Seq<u8>,
    id: Seq<u8>,
    pub_x: Seq<u8>,
    pub_y: Seq<u8>,
    message: Seq<u8>,
    r: Seq<u8>,
    s: Seq<u8>,
) -> bool {
    sm2_verification(
        encoded_key(pub_x, pub_y),
        message_digest(id_len, id, pub_x, pub_y, message),
        r.reverse(),
        s.reverse(),
    ) == Some(true)
}

/// What identifies the public key of an identity: SM3 over the identity's length as a
/// four-byte field, the identity and the two coordinates.
pub open spec fn key_hash(id: Seq<u8>, pub_x: Seq<u8>, pub_y: Seq<u8>) -> Seq<u8> {
    sm3(u32_le(length_code(id.len())) + id + pub_x + pub_y)
}

/// Writes the public key with the given coordinates in its encoded form.
pub fn encode_key(pub_x: &[u8], pub_y: &[u8]) -> (encoded: Vec<u8>)
    ensures
        encoded@ == encoded_key(pub_x@, pub_y@),
{
    let mut encoded: Vec<u8> = Vec::new();
    encoded.push(4u8);
    append(&mut encoded, pub_x);
    append(&mut encoded, pub_y);
    encoded
}

/// Computes the hash that identifies the public key of an identity.
pub fn sm2_key_hash(id: &[u8], pub_x: &[u8], pub_y: &[u8]) -> (hash: Vec<u8>)
    ensures
        hash@ == key_hash(id@, pub_x@, pub_y@),
        hash@.len() == 32,
{
    let mut input = encode_u32(ByteOrder::Little, length_code_of(id.len()));
    append(&mut input, id);
    append(&mut input, pub_x);
    append(&mut input, pub_y);
    sm3_hash(input.as_slice())
}

/// Computes the digest that is signed for `message`: the message is hashed behind the
/// identity digest.
pub fn sm2_digest(id_len: &[u8], id: &[u8], pub_x: &[u8], pub_y: &[u8], message: &[u8]) -> (digest: Vec<u8>)
    ensures
        digest@ == message_digest(id_len@, id@, pub_x@, pub_y@, message@),
        digest@.len() == 32,
{
    let a = curve_a_bytes();
    let b = curve_b_bytes();
    let (x_g, y_g) = match base_point_bytes() {
        Ok(g) => g,
        Err(_) => vstd::pervasive::unreached(),
    };
    digest_with_identity(
        id_len,
        id,
        a.as_slice(),
        b.as_slice(),
        x_g.as_slice(),
        y_g.as_slice(),
        pub_x,
        pub_y,
        message,
    )
}

/// The length of an identity as the identity digest holds it: its number of bits as two
/// bytes, the more significant first. An identity of 8192 bytes or more has no such
/// field; the low 16 bits are taken.
pub open spec fn identity_bits(id: Seq<u8>) -> Seq<u8> {
    let bits = (id.len() % 8192) * 8;
    seq![(bits / 256) as u8, (bits % 256) as u8]
}

/// Writes the length field of an identity.
pub fn identity_length_field(id: &[u8]) -> (field: Vec<u8>)
    ensures
        field@ == identity_bits(id@),
{
    let bits: usize = (id.len() % 8192) * 8;
    let mut field: Vec<u8> = Vec::new();
    field.push((bits / 256) as u8);
    field.push((bits % 256) as u8);
    field
}

/// What is returned for a signature that the signer drew, its halves least significant
/// byte first: the halves brought to 32 bytes, where they fit and are accepted for the
/// digest under the encoded public key.
pub open spec fn signature_outcome(encoded: Seq<u8>, digest: Seq<u8>, r: Seq<u8>, s: Seq<u8>) -> Option<
    (Seq<u8>, Seq<u8>),
> {
    if r.len() <= SM2_WORD && s.len() <= SM2_WORD {
        let r32 = widened(r, SM2_WORD as nat);
        let s32 = widened(s, SM2_WORD as nat);
        if sm2_verification(encoded, digest, r32.reverse(), s32.reverse()) == Some(true) {
            Some((r32, s32))
        } else {
            None
        }
    } else {
        None
    }
}

/// Decides on what the signer gave: an error stays an error; a signature is brought to
/// its fixed width, verified for the digest under the encoded public key, and returned
/// only where it is accepted.
pub fn accept_signature(encoded: &[u8], digest: &[u8], drawn: Result<(Vec<u8>, Vec<u8>), String>) -> (res:
    Result<(Vec<u8>, Vec<u8>), XtaskError>)
    ensures
        match drawn {
            Ok((r, s)) => match signature_outcome(encoded@, digest@, r@, s@) {
                Some((r32, s32)) => res matches Ok((a, b)) && a@ == r32 && b@ == s32,
                None => res matches Err(XtaskError::SM2Error(_)),
            },
            Err(_) => res matches Err(XtaskError::SM2Error(_)),
        },
{
    let (r, s) = match drawn {
        Ok((r, s)) => match fixed_width_signature(r.as_slice(), s.as_slice()) {
            Ok(signature) => signature,
            Err(e) => {
                return Err(e);
            },
        },
        Err(text) => {
            return Err(XtaskError::SM2Error(text));
        },
    };
    let r_be = reversed(r.as_slice());
    let s_be = reversed(s.as_slice());
    match sm2_verify_raw(encoded, digest, r_be.as_slice(), s_be.as_slice()) {
        Ok(true) => Ok((r, s)),
        Ok(false) => Err(XtaskError::SM2Error("the signature does not verify".to_string())),
        Err(text) => Err(XtaskError::SM2Error(text)),
    }
}

/// Signs `message` with SM2 under a fresh random number, and returns the signature only
/// after it has verified: `r` and `s`, 32 bytes each, least significant byte first.
pub fn sm2_sign(
    id_len: &[u8],
    id: &[u8],
    pub_x: &[u8],
    pub_y: &[u8],
    private_key: &[u8],
    message: &[u8],
) -> (res: Result<(Vec<u8>, Vec<u8>), XtaskError>)
    ensures
        res matches Ok((r, s)) ==> r@.len() == SM2_WORD && s@.len() == SM2_WORD && sm2_accepts(
            id_len@,
            id@,
            pub_x@,
            pub_y@,
            message@,
            r@,
            s@,
        ),
        res matches Err(e) ==> e is SM2Error,
        !sm2_key_loads(encoded_key(pub_x@, pub_y@)) ==> res is Err,
        private_key@.len() != SM2_WORD ==> res is Err,
{
    let encoded = encode_key(pub_x, pub_y);
    match load_public_key(encoded.as_slice()) {
        Ok(()) => {},
        Err(text) => {
            return Err(XtaskError::SM2Error(text));
        },
    }
    let digest = sm2_digest(id_len, id, pub_x, pub_y, message);
    let drawn = sm2_sign_raw(private_key, digest.as_slice());
    accept_signature(encoded.as_slice(), digest.as_slice(), drawn)
}

} // verus!
