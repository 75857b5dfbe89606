//! Building a firmware image from a payload: the version tag is put in front of the
//! payload, and the variant decides what is encrypted, what is signed and how the parts
//! are laid out.

use vstd::prelude::*;
use vstd::utf8::encode_utf8;

use crate::bytes::{
    append,
    le_magnitude,
    encode_u32,
    length_code,
    length_code_of,
    length_field_round_trip,
    is_shortest,
    native_u32,
    u32_field,
    u32_field_round_trip,
    u32_value,
    ByteOrder,
};
use crate::cipher::{
    aes256_gcm,
    aes256_gcm_opened,
    aes_check,
    aes_outcome,
    check_aes_gcm,
    check_sm4_cbc,
    encrypt_aes_gcm,
    encrypt_sm4_cbc,
    sm4_cbc,
    sm4_cbc_len,
    sm4_cbc_opened,
    sm4_check,
    sm4_outcome,
    Opened,
    AES_TAG_LEN,
};
use crate::digest::{sha256, sha_256};
use crate::error::XtaskError;
use crate::layout::{
    aes_layout,
    aes_layout_fields,
    assemble_aes,
    assemble_plain,
    assemble_sm4,
    check_identity,
    fits_key_block,
    plain_layout,
    plain_layout_fields,
    sm4_layout,
    sm4_layout_fields,
    ID_ROOM,
    KEY_BLOCK,
};
use crate::rsa_sign::{
    exponent_digits,
    hex_u32_value,
    hex_value,
    rsa_outcome,
    rsa_reports,
    rsa_sign,
    rsa_signature,
    rsa_verification,
    RsaOutcome,
};
use crate::sm2_sign::{
    encoded_key,
    identity_bits,
    identity_length_field,
    sm2_accepts,
    sm2_key_loads,
    sm2_sign,
    SM2_WORD,
};
use crate::variant::EncryptionType;

verus! {

/// The configuration of the pipeline: the format's constants and every key. It is only
/// read.
pub struct KeyMaterial {
    /// The text at the start of every image.
    pub magic: String,
    /// The version tag that is put in front of every payload.
    pub version: Vec<u8>,
    /// The associated data of both ciphers.
    pub add_auth_data: Vec<u8>,
    /// The SM4 key, 16 bytes.
    pub sm4_key: Vec<u8>,
    /// The SM4 initialisation vector, 16 bytes.
    pub sm4_iv: Vec<u8>,
    /// The AES-256 key, 32 bytes.
    pub aes_key: Vec<u8>,
    /// The AES-GCM nonce, 12 bytes.
    pub aes_iv: Vec<u8>,
    /// The identity of the SM2 signer.
    pub sm2_id: String,
    /// The first coordinate of the SM2 public key, 32 bytes.
    pub sm2_public_key_x: Vec<u8>,
    /// The second coordinate of the SM2 public key, 32 bytes.
    pub sm2_public_key_y: Vec<u8>,
    /// The SM2 private key, 32 bytes.
    pub sm2_private_key: Vec<u8>,
    /// The RSA modulus as a hexadecimal numeral.
    pub rsa_n: Vec<u8>,
    /// The RSA public exponent as a hexadecimal numeral behind a two-character prefix.
    pub rsa_e: String,
    /// The RSA private exponent as a hexadecimal numeral.
    pub rsa_d: Vec<u8>,
}

impl KeyMaterial {
    /// The bytes of the magic text.
    pub open spec fn magic_bytes(&self) -> Seq<u8> {
        encode_utf8(self.magic@)
    }

    /// The bytes of the signer's identity.
    pub open spec fn id_bytes(&self) -> Seq<u8> {
        encode_utf8(self.sm2_id@)
    }

    /// The payload behind the version tag.
    pub open spec fn versioned(&self, payload: Seq<u8>) -> Seq<u8> {
        self.version@ + payload
    }
}

/// The plain image of a payload, its length field written in the given order.
pub open spec fn plain_image(keys: &KeyMaterial, payload: Seq<u8>, order: ByteOrder) -> Seq<u8> {
    let body = keys.versioned(payload);
    plain_layout(keys.magic_bytes(), u32_field(order, length_code(body.len())), sha256(body), body)
}

/// What the fields of a plain image hold: the digest field is the SHA-256 digest of the
/// version tag and the payload, the length field spells their length where that is below
/// 2^32, the variant code is 0, and version tag and payload are the end of the image.
pub open spec fn plain_fields(keys: &KeyMaterial, payload: Seq<u8>, order: ByteOrder, image: Seq<u8>) -> bool {
    let m = keys.magic_bytes().len() as int;
    let body = keys.versioned(payload);
    &&& image.len() == m + 8 + KEY_BLOCK + body.len()
    &&& image.subrange(0, m) == keys.magic_bytes()
    &&& body.len() < 0x1_0000_0000 ==> u32_value(order, image.subrange(m, m + 4)) == body.len()
    &&& u32_value(ByteOrder::Little, image.subrange(m + 4, m + 8)) == 0
    &&& image.subrange(m + 8, m + 40) == sha256(body)
    &&& image.subrange(m + 524, image.len() as int) == body
    &&& image.subrange(m + 524 + keys.version@.len(), image.len() as int) == payload
}

/// A plain image whose digest has 32 bytes holds its fields where `plain_fields` says.
/// Every digest that is computed has.
proof fn plain_image_fields(keys: &KeyMaterial, payload: Seq<u8>, order: ByteOrder)
    requires
        sha256(keys.versioned(payload)).len() == 32,
    ensures
        plain_fields(keys, payload, order, plain_image(keys, payload, order)),
{
    let m = keys.magic_bytes().len() as int;
    let body = keys.versioned(payload);
    let image = plain_image(keys, payload, order);
    let len_field = u32_field(order, length_code(body.len()));
    u32_field_round_trip(order, length_code(body.len()));
    u32_field_round_trip(ByteOrder::Little, 0);
    plain_layout_fields(keys.magic_bytes(), len_field, sha256(body), body);
    if body.len() < 0x1_0000_0000 {
        length_field_round_trip(order, body.len());
    }
    assert(image.subrange(m + 524 + keys.version@.len(), image.len() as int) =~= payload);
}

/// The SM4 image that holds the given ciphertext and signature.
pub open spec fn sm4_image(keys: &KeyMaterial, ciphertext: Seq<u8>, r: Seq<u8>, s: Seq<u8>) -> Seq<u8> {
    sm4_layout(
        keys.magic_bytes(),
        ciphertext,
        keys.id_bytes(),
        keys.sm2_public_key_x@,
        keys.sm2_public_key_y@,
        r,
        s,
    )
}

/// Whether `image` is an SM4 image around `ciphertext`: every byte but those of the two
/// signature halves is fixed by the keys and the ciphertext.
pub open spec fn is_sm4_image(keys: &KeyMaterial, ciphertext: Seq<u8>, image: Seq<u8>) -> bool {
    let m = keys.magic_bytes().len() as int;
    &&& image.len() == m + 8 + KEY_BLOCK + ciphertext.len()
    &&& image == sm4_image(
        keys,
        ciphertext,
        image.subrange(m + 460, m + 492),
        image.subrange(m + 492, m + 524),
    )
}

/// An SM4 image holds the ciphertext as its end, behind a key block of 516 bytes in which
/// the public key's coordinates and the two halves of the signature stand at fixed
/// places; the length fields spell the lengths of the ciphertext and of the identity.
pub proof fn sm4_image_fields(keys: &KeyMaterial, ciphertext: Seq<u8>, image: Seq<u8>)
    requires
        is_sm4_image(keys, ciphertext, image),
        keys.id_bytes().len() <= ID_ROOM,
        keys.sm2_public_key_x@.len() == SM2_WORD,
        keys.sm2_public_key_y@.len() == SM2_WORD,
    ensures
        ({
            let m = keys.magic_bytes().len() as int;
            let id = keys.id_bytes();
            &&& image.subrange(0, m) == keys.magic_bytes()
            &&& ciphertext.len() < 0x1_0000_0000 ==> u32_value(ByteOrder::Little, image.subrange(m, m + 4))
                == ciphertext.len()
            &&& u32_value(ByteOrder::Little, image.subrange(m + 4, m + 8)) == 1
            &&& u32_value(ByteOrder::Little, image.subrange(m + 8, m + 12)) == id.len()
            &&& image.subrange(m + 12, m + 12 + id.len()) == id
            &&& image.subrange(m + 396, m + 428) == keys.sm2_public_key_x@
            &&& image.subrange(m + 428, m + 460) == keys.sm2_public_key_y@
            &&& image.subrange(m + 524, image.len() as int) == ciphertext
        }),
{
    let m = keys.magic_bytes().len() as int;
    let id = keys.id_bytes();
    let r = image.subrange(m + 460, m + 492);
    let s = image.subrange(m + 492, m + 524);
    sm4_layout_fields(
        keys.magic_bytes(),
        ciphertext,
        id,
        keys.sm2_public_key_x@,
        keys.sm2_public_key_y@,
        r,
        s,
    );
    u32_field_round_trip(ByteOrder::Little, 1);
    length_field_round_trip(ByteOrder::Little, id.len());
    if ciphertext.len() < 0x1_0000_0000 {
        length_field_round_trip(ByteOrder::Little, ciphertext.len());
    }
}

/// Whether the SM2 signer is bound to fail: the public key does not load, or the private
/// key has not its length.
pub open spec fn sm2_refuses(keys: &KeyMaterial) -> bool {
    ||| !sm2_key_loads(encoded_key(keys.sm2_public_key_x@, keys.sm2_public_key_y@))
    ||| keys.sm2_private_key@.len() != SM2_WORD
}

/// Whether the signature that an SM4 image holds is accepted for the ciphertext, the
/// configured identity and the public key that the image holds.
pub open spec fn sm4_image_verifies(keys: &KeyMaterial, ciphertext: Seq<u8>, image: Seq<u8>) -> bool {
    let m = keys.magic_bytes().len() as int;
    sm2_accepts(
        identity_bits(keys.id_bytes()),
        keys.id_bytes(),
        image.subrange(m + 396, m + 428),
        image.subrange(m + 428, m + 460),
        ciphertext,
        image.subrange(m + 460, m + 492),
        image.subrange(m + 492, m + 524),
    )
}

/// What building an SM4 image may return. The ciphertext is decrypted again and the
/// signature is verified before an image is returned.
pub open spec fn sm4_result(keys: &KeyMaterial, payload: Seq<u8>, res: Result<Vec<u8>, XtaskError>) -> bool {
    let body = keys.versioned(payload);
    if keys.id_bytes().len() > ID_ROOM {
        res matches Err(XtaskError::Sm2IdTooLong)
    } else if keys.sm2_public_key_x@.len() != SM2_WORD || keys.sm2_public_key_y@.len() != SM2_WORD {
        res matches Err(XtaskError::SM2Error(_))
    } else {
        match sm4_outcome(keys.sm4_key@, keys.add_auth_data@, body, keys.sm4_iv@) {
            None => res matches Err(XtaskError::SM4Error(_)),
            Some(ciphertext) => match sm4_check(
                keys.sm4_key@,
                keys.sm4_iv@,
                keys.add_auth_data@,
                body,
                ciphertext,
            ) {
                Opened::Failed => res matches Err(XtaskError::SM4Error(_)),
                Opened::Differs => res matches Err(XtaskError::RoundTrip),
                Opened::Same => {
                    &&& ciphertext.len() == sm4_cbc_len(body.len())
                    &&& res matches Err(e) ==> e is SM2Error
                    &&& sm2_refuses(keys) ==> res is Err
                    &&& res matches Ok(image) ==> is_sm4_image(keys, ciphertext, image@)
                        && sm4_image_verifies(keys, ciphertext, image@)
                },
            },
        }
    }
}

/// What building an AES image returns. The ciphertext is decrypted again and the
/// signature is verified before an image is returned.
pub open spec fn aes_result(keys: &KeyMaterial, payload: Seq<u8>, res: Result<Vec<u8>, XtaskError>) -> bool {
    let body = keys.versioned(payload);
    match aes_outcome(keys.aes_key@, keys.aes_iv@, keys.add_auth_data@, body) {
        None => res matches Err(XtaskError::AesError(_)),
        Some((ciphertext, tag)) => match aes_check(
            keys.aes_key@,
            keys.aes_iv@,
            keys.add_auth_data@,
            body,
            ciphertext,
            tag,
        ) {
            Opened::Failed => res matches Err(XtaskError::AesError(_)),
            Opened::Differs => res matches Err(XtaskError::RoundTrip),
            Opened::Same => match rsa_outcome(keys.rsa_n@, keys.rsa_e@, keys.rsa_d@, tag) {
                RsaOutcome::Signed { modulus, exponent, signature } => {
                    &&& res matches Ok(image) && image@ == aes_layout(
                        keys.magic_bytes(),
                        modulus,
                        exponent,
                        signature,
                        ciphertext,
                        tag,
                    )
                    &&& ciphertext.len() == body.len()
                    &&& tag.len() == AES_TAG_LEN
                    &&& is_shortest(modulus)
                    &&& signature.len() == modulus.len()
                },
                outcome => res matches Err(error) && rsa_reports(outcome, error),
            },
        },
    }
}

/// Whether `image` is the plain image of a payload with the length field in one of the
/// two byte orders, and holds its fields accordingly.
pub open spec fn native_plain_image(keys: &KeyMaterial, payload: Seq<u8>, image: Seq<u8>) -> bool {
    ||| image == plain_image(keys, payload, ByteOrder::Little) && plain_fields(
        keys,
        payload,
        ByteOrder::Little,
        image,
    )
    ||| image == plain_image(keys, payload, ByteOrder::Big) && plain_fields(
        keys,
        payload,
        ByteOrder::Big,
        image,
    )
}

/// An SM4 image that was built ends with the SM4-CBC ciphertext of the version tag and
/// the payload under the configured key and vector, and that ciphertext decrypts to
/// them. The image holds the configured public key in front of the signature, and the
/// signature is accepted for the ciphertext and the configured identity under the key
/// that the image holds.
pub proof fn sm4_image_holds_ciphertext(keys: &KeyMaterial, payload: Seq<u8>, res: Result<Vec<u8>, XtaskError>)
    requires
        sm4_result(keys, payload, res),
        res is Ok,
    ensures
        ({
            let image = res->Ok_0@;
            let m = keys.magic_bytes().len() as int;
            let ciphertext = sm4_cbc(
                keys.sm4_key@,
                keys.add_auth_data@,
                keys.versioned(payload),
                keys.sm4_iv@,
            );
            let tail = image.subrange(m + 524, image.len() as int);
            &&& image.len() == m + 8 + KEY_BLOCK + ciphertext.len()
            &&& tail == ciphertext
            &&& sm4_cbc_opened(keys.sm4_key@, keys.add_auth_data@, tail, keys.sm4_iv@) == Some(
                keys.versioned(payload),
            )
            &&& sm2_accepts(
                identity_bits(keys.id_bytes()),
                keys.id_bytes(),
                image.subrange(m + 396, m + 428),
                image.subrange(m + 428, m + 460),
                tail,
                image.subrange(m + 460, m + 492),
                image.subrange(m + 492, m + 524),
            )
            &&& image.subrange(m + 396, m + 428) == keys.sm2_public_key_x@
            &&& image.subrange(m + 428, m + 460) == keys.sm2_public_key_y@
            &&& u32_value(ByteOrder::Little, image.subrange(m + 4, m + 8)) == 1
            &&& ciphertext.len() < 0x1_0000_0000 ==> u32_value(ByteOrder::Little, image.subrange(m, m + 4))
                == ciphertext.len()
        }),
{
    let ciphertext = sm4_cbc(keys.sm4_key@, keys.add_auth_data@, keys.versioned(payload), keys.sm4_iv@);
    sm4_image_fields(keys, ciphertext, res->Ok_0@);
}

/// An AES image that was built ends with the AES-256-GCM ciphertext of the version tag
/// and the payload and with its tag, under the configured key, nonce and associated
/// data, and they decrypt to version tag and payload. In front of them stands the RSA
/// signature of the tag's SHA-256 digest, as long as the modulus, which stands behind the
/// header with the public exponent, and the signature is accepted under that modulus and
/// exponent.
pub proof fn aes_image_holds_sealed(keys: &KeyMaterial, payload: Seq<u8>, res: Result<Vec<u8>, XtaskError>)
    requires
        aes_result(keys, payload, res),
        res is Ok,
    ensures
        ({
            let image = res->Ok_0@;
            let body = keys.versioned(payload);
            let sealed = aes256_gcm(keys.aes_key@, keys.aes_iv@, keys.add_auth_data@, body);
            let outcome = rsa_outcome(keys.rsa_n@, keys.rsa_e@, keys.rsa_d@, sealed.1);
            let e = hex_u32_value(exponent_digits(keys.rsa_e@)->Some_0)->Some_0;
            let k = outcome->modulus.len() as int;
            let modulus_at = keys.magic_bytes().len() as int + 8;
            let exponent_at = modulus_at + k;
            let signature_at = exponent_at + outcome->exponent.len();
            let ciphertext_at = signature_at + k;
            let tag_at = ciphertext_at + body.len();
            let end = image.len() as int;
            &&& outcome is Signed
            &&& end == tag_at + AES_TAG_LEN
            &&& image.subrange(modulus_at, exponent_at) == outcome->modulus
            &&& is_shortest(outcome->modulus)
            &&& image.subrange(exponent_at, signature_at) == le_magnitude(e as nat)
            &&& image.subrange(signature_at, ciphertext_at) == outcome->signature
            &&& image.subrange(ciphertext_at, tag_at) == sealed.0
            &&& image.subrange(tag_at, end) == sealed.1
            &&& aes256_gcm_opened(
                keys.aes_key@,
                keys.aes_iv@,
                keys.add_auth_data@,
                image.subrange(ciphertext_at, tag_at),
                image.subrange(tag_at, end),
            ) == Some(body)
            &&& rsa_verification(
                image.subrange(modulus_at, exponent_at),
                e,
                sha256(image.subrange(tag_at, end)),
                image.subrange(signature_at, ciphertext_at),
            )
            &&& Some(outcome->signature) == rsa_signature(
                outcome->modulus,
                e,
                hex_value(keys.rsa_d@)->Some_0,
                sha256(sealed.1),
            )
            &&& u32_value(ByteOrder::Little, image.subrange(modulus_at - 4, modulus_at)) == 2
            &&& body.len() + AES_TAG_LEN < 0x1_0000_0000 ==> u32_value(
                ByteOrder::Little,
                image.subrange(modulus_at - 8, modulus_at - 4),
            ) == body.len() + AES_TAG_LEN
        }),
{
    let image = res->Ok_0@;
    let body = keys.versioned(payload);
    let sealed = aes256_gcm(keys.aes_key@, keys.aes_iv@, keys.add_auth_data@, body);
    let outcome = rsa_outcome(keys.rsa_n@, keys.rsa_e@, keys.rsa_d@, sealed.1);
    assert(aes_outcome(keys.aes_key@, keys.aes_iv@, keys.add_auth_data@, body) == Some(sealed));
    assert(aes_check(keys.aes_key@, keys.aes_iv@, keys.add_auth_data@, body, sealed.0, sealed.1) is Same);
    assert(outcome is Signed);
    assert(image == aes_layout(
        keys.magic_bytes(),
        outcome->modulus,
        outcome->exponent,
        outcome->signature,
        sealed.0,
        sealed.1,
    ));
    aes_layout_fields(
        keys.magic_bytes(),
        outcome->modulus,
        outcome->exponent,
        outcome->signature,
        sealed.0,
        sealed.1,
    );
    u32_field_round_trip(ByteOrder::Little, 2);
    if body.len() + AES_TAG_LEN < 0x1_0000_0000 {
        length_field_round_trip(ByteOrder::Little, (body.len() + AES_TAG_LEN) as nat);
    }
}

/// What building an image of a payload for a variant may return.
pub open spec fn firmware_result(
    keys: &KeyMaterial,
    encryption: EncryptionType,
    payload: Seq<u8>,
    res: Result<Vec<u8>, XtaskError>,
) -> bool {
    match encryption {
        EncryptionType::Plain => res matches Ok(image) && native_plain_image(keys, payload, image@),
        EncryptionType::Sm4 => sm4_result(keys, payload, res),
        EncryptionType::Aes => aes_result(keys, payload, res),
    }
}

/// An image gives its payload back: whatever the variant, two payloads with the same
/// image under the same keys are the same payload. The plain image holds the payload as
/// its end; the other two hold a ciphertext that decrypts to version tag and payload.
pub proof fn image_fixes_payload(
    keys: &KeyMaterial,
    encryption: EncryptionType,
    first: Seq<u8>,
    second: Seq<u8>,
    image: Vec<u8>,
)
    requires
        firmware_result(keys, encryption, first, Ok(image)),
        firmware_result(keys, encryption, second, Ok(image)),
    ensures
        first == second,
{
    let m = keys.magic_bytes().len() as int;
    let v = keys.version@.len() as int;
    let one = keys.versioned(first);
    let two = keys.versioned(second);
    match encryption {
        EncryptionType::Plain => {},
        EncryptionType::Sm4 => {
            sm4_image_holds_ciphertext(keys, first, Ok(image));
            sm4_image_holds_ciphertext(keys, second, Ok(image));
            assert(one == two);
        },
        EncryptionType::Aes => {
            aes_image_holds_sealed(keys, first, Ok(image));
            aes_image_holds_sealed(keys, second, Ok(image));
            let sealed_one = aes256_gcm(keys.aes_key@, keys.aes_iv@, keys.add_auth_data@, one);
            let sealed_two = aes256_gcm(keys.aes_key@, keys.aes_iv@, keys.add_auth_data@, two);
            let end = image@.len() as int;
            assert(sealed_one.1 == image@.subrange(end - AES_TAG_LEN, end));
            assert(sealed_two.1 == image@.subrange(end - AES_TAG_LEN, end));
            assert(one.len() == two.len()) by {
                let outcome = rsa_outcome(keys.rsa_n@, keys.rsa_e@, keys.rsa_d@, sealed_one.1);
                assert(outcome == rsa_outcome(keys.rsa_n@, keys.rsa_e@, keys.rsa_d@, sealed_two.1));
            }
            assert(one == two);
        },
    }
    assert(first =~= one.subrange(v, one.len() as int));
    assert(second =~= two.subrange(v, two.len() as int));
}

/// The payload with the version tag in front of it.
pub fn with_version(keys: &KeyMaterial, data: &[u8]) -> (body: Vec<u8>)
    ensures
        body@ == keys.versioned(data@),
{
    let mut body: Vec<u8> = Vec::new();
    append(&mut body, keys.version.as_slice());
    append(&mut body, data);
    body
}

/// Builds the plain image of `data` with the length field in the given byte order.
pub fn build_plain_image(keys: &KeyMaterial, data: &[u8], order: ByteOrder) -> (image: Vec<u8>)
    ensures
        image@ == plain_image(keys, data@, order),
        plain_fields(keys, data@, order, image@),
{
    let body = with_version(keys, data);
    let len_field = encode_u32(order, length_code_of(body.len()));
    let digest = sha_256(body.as_slice());
    proof {
        plain_image_fields(keys, data@, order);
    }
    assemble_plain(
        keys.magic.as_str().as_bytes(),
        len_field.as_slice(),
        digest.as_slice(),
        body.as_slice(),
    )
}

/// Builds the plain image of `data`: the payload behind the version tag, unencrypted,
/// with its SHA-256 digest. The length field is written in the byte order of the
/// machine.
pub fn gen_plain(keys: &KeyMaterial, data: &[u8]) -> (image: Vec<u8>)
    ensures
        native_plain_image(keys, data@, image@),
{
    let body = with_version(keys, data);
    let len_field = native_u32(length_code_of(body.len()));
    let digest = sha_256(body.as_slice());
    proof {
        plain_image_fields(keys, data@, ByteOrder::Little);
        plain_image_fields(keys, data@, ByteOrder::Big);
    }
    assemble_plain(
        keys.magic.as_str().as_bytes(),
        len_field.as_slice(),
        digest.as_slice(),
        body.as_slice(),
    )
}

/// Builds the SM4 image of `data`: the payload behind the version tag is encrypted with
/// SM4 in CBC mode, and the ciphertext is signed with SM2.
pub fn gen_sm4(keys: &KeyMaterial, data: &[u8]) -> (res: Result<Vec<u8>, XtaskError>)
    ensures
        sm4_result(keys, data@, res),
{
    let id = keys.sm2_id.as_str().as_bytes();
    let pub_x = keys.sm2_public_key_x.as_slice();
    let pub_y = keys.sm2_public_key_y.as_slice();
    match check_identity(id, pub_x, pub_y) {
        Ok(()) => {},
        Err(e) => {
            return Err(e);
        },
    }
    let body = with_version(keys, data);
    let ciphertext = match encrypt_sm4_cbc(
        keys.sm4_key.as_slice(),
        keys.sm4_iv.as_slice(),
        keys.add_auth_data.as_slice(),
        body.as_slice(),
    ) {
        Ok(ciphertext) => ciphertext,
        Err(e) => {
            return Err(e);
        },
    };
    match check_sm4_cbc(
        keys.sm4_key.as_slice(),
        keys.sm4_iv.as_slice(),
        keys.add_auth_data.as_slice(),
        body.as_slice(),
        ciphertext.as_slice(),
    ) {
        Ok(()) => {},
        Err(e) => {
            return Err(e);
        },
    }
    let id_len = identity_length_field(id);
    let (r, s) = match sm2_sign(
        id_len.as_slice(),
        id,
        pub_x,
        pub_y,
        keys.sm2_private_key.as_slice(),
        ciphertext.as_slice(),
    ) {
        Ok(signature) => signature,
        Err(e) => {
            return Err(e);
        },
    };
    let res = assemble_sm4(
        keys.magic.as_str().as_bytes(),
        ciphertext.as_slice(),
        id,
        pub_x,
        pub_y,
        r.as_slice(),
        s.as_slice(),
    );
    proof {
        assert(fits_key_block(id@, pub_x@, pub_y@, r@, s@));
        sm4_layout_fields(keys.magic_bytes(), ciphertext@, id@, pub_x@, pub_y@, r@, s@);
    }
    res
}

/// Builds the AES image of `data`: the payload behind the version tag is encrypted with
/// AES-256-GCM, the tag follows the ciphertext, and the SHA-256 digest of the tag is
/// signed with RSA.
pub fn gen_aes(keys: &KeyMaterial, data: &[u8]) -> (res: Result<Vec<u8>, XtaskError>)
    ensures
        aes_result(keys, data@, res),
{
    let body = with_version(keys, data);
    let (ciphertext, tag) = match encrypt_aes_gcm(
        keys.aes_key.as_slice(),
        keys.aes_iv.as_slice(),
        keys.add_auth_data.as_slice(),
        body.as_slice(),
    ) {
        Ok(sealed) => sealed,
        Err(e) => {
            return Err(e);
        },
    };
    match check_aes_gcm(
        keys.aes_key.as_slice(),
        keys.aes_iv.as_slice(),
        keys.add_auth_data.as_slice(),
        body.as_slice(),
        ciphertext.as_slice(),
        tag.as_slice(),
    ) {
        Ok(()) => {},
        Err(e) => {
            return Err(e);
        },
    }
    let signed = match rsa_sign(
        keys.rsa_n.as_slice(),
        keys.rsa_e.as_str(),
        keys.rsa_d.as_slice(),
        tag.as_slice(),
    ) {
        Ok(signed) => signed,
        Err(e) => {
            return Err(e);
        },
    };
    Ok(
        assemble_aes(
            keys.magic.as_str().as_bytes(),
            signed.modulus.as_slice(),
            signed.exponent.as_slice(),
            signed.signature.as_slice(),
            ciphertext.as_slice(),
            tag.as_slice(),
        ),
    )
}

/// Builds the image of `data` for the given variant. Either the whole image is returned
/// or an error: no part of an image ever is.
pub fn gen_firmware(data: &[u8], encryption: EncryptionType, keys: &KeyMaterial) -> (res: Result<
    Vec<u8>,
    XtaskError,
>)
    ensures
        firmware_result(keys, encryption, data@, res),
{
    match encryption {
        EncryptionType::Plain => Ok(gen_plain(keys, data)),
        EncryptionType::Sm4 => gen_sm4(keys, data),
        EncryptionType::Aes => gen_aes(keys, data),
    }
}

} // verus!
