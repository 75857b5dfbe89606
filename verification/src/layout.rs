//! The three container layouts, byte for byte.

use vstd::prelude::*;

use crate::bytes::{append, append_zeros, encode_u32, length_code, length_code_of, u32_le, zeros, ByteOrder};
use crate::error::XtaskError;
use crate::sm2_sign::SM2_WORD;
use crate::variant::{wire_code, EncryptionType};

verus! {

/// The length of a SHA-256 digest.
pub const DIGEST_LEN: usize = 32;

/// The zero bytes that follow the digest of a plain image.
pub const PLAIN_PADDING: usize = 484;

/// The length of the block between the variant code and the payload of a plain image,
/// and between the variant code and the ciphertext of an SM4 image.
pub const KEY_BLOCK: usize = 516;

/// The room that the SM2 identity and its padding share.
pub const ID_ROOM: usize = 384;

/// The plain image: magic, length field, variant code 0, digest, padding, body.
pub open spec fn plain_layout(magic: Seq<u8>, len_field: Seq<u8>, digest: Seq<u8>, body: Seq<u8>) -> Seq<u8> {
    magic + len_field + u32_le(wire_code(EncryptionType::Plain)) + digest + zeros(PLAIN_PADDING as nat) + body
}

/// The key block of an SM4 image: the identity's length, the identity, zero bytes up to
/// the fixed room, the public key's coordinates and the signature.
pub open spec fn sm4_key_block(
    id: Seq<u8>,
    pub_x: Seq<u8>,
    pub_y: Seq<u8>,
    r: Seq<u8>,
    s: Seq<u8>,
) -> Seq<u8> {
    u32_le(length_code(id.len())) + id + zeros((ID_ROOM - id.len()) as nat) + pub_x + pub_y + r + s
}

/// The SM4 image: magic, the ciphertext's length, variant code 1, key block, ciphertext.
pub open spec fn sm4_layout(
    magic: Seq<u8>,
    ciphertext: Seq<u8>,
    id: Seq<u8>,
    pub_x: Seq<u8>,
    pub_y: Seq<u8>,
    r: Seq<u8>,
    s: Seq<u8>,
) -> Seq<u8> {
    magic + u32_le(length_code(ciphertext.len())) + u32_le(wire_code(EncryptionType::Sm4))
        + sm4_key_block(id, pub_x, pub_y, r, s)
        + ciphertext
}

/// The AES image: magic, the length of ciphertext and tag, variant code 2, modulus,
/// public exponent, signature, ciphertext, tag. Nothing pads the key fields.
pub open spec fn aes_layout(
    magic: Seq<u8>,
    modulus: Seq<u8>,
    exponent: Seq<u8>,
    signature: Seq<u8>,
    ciphertext: Seq<u8>,
    tag: Seq<u8>,
) -> Seq<u8> {
    magic + u32_le(length_code(ciphertext.len() + tag.len())) + u32_le(wire_code(EncryptionType::Aes))
        + modulus + exponent
        + signature + ciphertext + tag
}

/// Whether an identity and the parts of a key block fit the fixed layout.
pub open spec fn fits_key_block(id: Seq<u8>, pub_x: Seq<u8>, pub_y: Seq<u8>, r: Seq<u8>, s: Seq<u8>) -> bool {
    &&& id.len() <= ID_ROOM
    &&& pub_x.len() == SM2_WORD
    &&& pub_y.len() == SM2_WORD
    &&& r.len() == SM2_WORD
    &&& s.len() == SM2_WORD
}

/// Where the parts of a plain image lie: the header has a fixed length behind the magic,
/// and the body is everything behind it.
pub proof fn plain_layout_fields(magic: Seq<u8>, len_field: Seq<u8>, digest: Seq<u8>, body: Seq<u8>)
    requires
        len_field.len() == 4,
        digest.len() == DIGEST_LEN,
    ensures
        ({
            let image = plain_layout(magic, len_field, digest, body);
            let m = magic.len() as int;
            &&& image.len() == m + 8 + KEY_BLOCK + body.len()
            &&& image.subrange(0, m) == magic
            &&& image.subrange(m, m + 4) == len_field
            &&& image.subrange(m + 4, m + 8) == u32_le(0)
            &&& image.subrange(m + 8, m + 40) == digest
            &&& image.subrange(m + 40, m + 524) == zeros(PLAIN_PADDING as nat)
            &&& image.subrange(m + 524, image.len() as int) == body
        }),
{
    let image = plain_layout(magic, len_field, digest, body);
    let m = magic.len() as int;
    assert(image.subrange(0, m) =~= magic);
    assert(image.subrange(m, m + 4) =~= len_field);
    assert(image.subrange(m + 4, m + 8) =~= u32_le(0));
    assert(image.subrange(m + 8, m + 40) =~= digest);
    assert(image.subrange(m + 40, m + 524) =~= zeros(PLAIN_PADDING as nat));
    assert(image.subrange(m + 524, image.len() as int) =~= body);
}

/// Where the parts of an SM4 image lie: whatever the identity's length, the key block has
/// 516 bytes, the key and the signature stand at fixed places, and the ciphertext is
/// everything behind the key block.
pub proof fn sm4_layout_fields(
    magic: Seq<u8>,
    ciphertext: Seq<u8>,
    id: Seq<u8>,
    pub_x: Seq<u8>,
    pub_y: Seq<u8>,
    r: Seq<u8>,
    s: Seq<u8>,
)
    requires
        fits_key_block(id, pub_x, pub_y, r, s),
    ensures
        sm4_key_block(id, pub_x, pub_y, r, s).len() == KEY_BLOCK,
        ({
            let image = sm4_layout(magic, ciphertext, id, pub_x, pub_y, r, s);
            let m = magic.len() as int;
            &&& image.len() == m + 8 + KEY_BLOCK + ciphertext.len()
            &&& image.subrange(0, m) == magic
            &&& image.subrange(m, m + 4) == u32_le(length_code(ciphertext.len()))
            &&& image.subrange(m + 4, m + 8) == u32_le(1)
            &&& image.subrange(m + 8, m + 524) == sm4_key_block(id, pub_x, pub_y, r, s)
            &&& image.subrange(m + 8, m + 12) == u32_le(length_code(id.len()))
            &&& image.subrange(m + 12, m + 12 + id.len()) == id
            &&& image.subrange(m + 12 + id.len(), m + 396) == zeros((ID_ROOM - id.len()) as nat)
            &&& image.subrange(m + 396, m + 428) == pub_x
            &&& image.subrange(m + 428, m + 460) == pub_y
            &&& image.subrange(m + 460, m + 492) == r
            &&& image.subrange(m + 492, m + 524) == s
            &&& image.subrange(m + 524, image.len() as int) == ciphertext
        }),
{
    let image = sm4_layout(magic, ciphertext, id, pub_x, pub_y, r, s);
    let m = magic.len() as int;
    assert(image.subrange(0, m) =~= magic);
    assert(image.subrange(m, m + 4) =~= u32_le(length_code(ciphertext.len())));
    assert(image.subrange(m + 4, m + 8) =~= u32_le(1));
    assert(image.subrange(m + 8, m + 524) =~= sm4_key_block(id, pub_x, pub_y, r, s));
    assert(image.subrange(m + 8, m + 12) =~= u32_le(length_code(id.len())));
    assert(image.subrange(m + 12, m + 12 + id.len()) =~= id);
    assert(image.subrange(m + 12 + id.len(), m + 396) =~= zeros((ID_ROOM - id.len()) as nat));
    assert(image.subrange(m + 396, m + 428) =~= pub_x);
    assert(image.subrange(m + 428, m + 460) =~= pub_y);
    assert(image.subrange(m + 460, m + 492) =~= r);
    assert(image.subrange(m + 492, m + 524) =~= s);
    assert(image.subrange(m + 524, image.len() as int) =~= ciphertext);
}

/// Where the parts of an AES image lie: the key fields follow the header without
/// padding, and ciphertext and tag are the end of the image.
pub proof fn aes_layout_fields(
    magic: Seq<u8>,
    modulus: Seq<u8>,
    exponent: Seq<u8>,
    signature: Seq<u8>,
    ciphertext: Seq<u8>,
    tag: Seq<u8>,
)
    ensures
        ({
            let image = aes_layout(magic, modulus, exponent, signature, ciphertext, tag);
            let m = magic.len() as int;
            let keys = m + 8 + modulus.len() + exponent.len();
            let sealed = keys + signature.len();
            &&& image.len() == sealed + ciphertext.len() + tag.len()
            &&& image.subrange(0, m) == magic
            &&& image.subrange(m, m + 4) == u32_le(length_code(ciphertext.len() + tag.len()))
            &&& image.subrange(m + 4, m + 8) == u32_le(2)
            &&& image.subrange(m + 8, m + 8 + modulus.len()) == modulus
            &&& image.subrange(m + 8 + modulus.len(), keys) == exponent
            &&& image.subrange(keys, sealed) == signature
            &&& image.subrange(sealed, sealed + ciphertext.len()) == ciphertext
            &&& image.subrange(sealed + ciphertext.len(), image.len() as int) == tag
        }),
{
    let image = aes_layout(magic, modulus, exponent, signature, ciphertext, tag);
    let m = magic.len() as int;
    let keys = m + 8 + modulus.len() + exponent.len();
    let sealed = keys + signature.len();
    assert(image.subrange(0, m) =~= magic);
    assert(image.subrange(m, m + 4) =~= u32_le(length_code(ciphertext.len() + tag.len())));
    assert(image.subrange(m + 4, m + 8) =~= u32_le(2));
    assert(image.subrange(m + 8, m + 8 + modulus.len()) =~= modulus);
    assert(image.subrange(m + 8 + modulus.len(), keys) =~= exponent);
    assert(image.subrange(keys, sealed) =~= signature);
    assert(image.subrange(sealed, sealed + ciphertext.len()) =~= ciphertext);
    assert(image.subrange(sealed + ciphertext.len(), image.len() as int) =~= tag);
}

/// Puts a plain image together from its parts.
pub fn assemble_plain(magic: &[u8], len_field: &[u8], digest: &[u8], body: &[u8]) -> (image: Vec<u8>)
    ensures
        image@ == plain_layout(magic@, len_field@, digest@, body@),
{
    let mut image: Vec<u8> = Vec::new();
    append(&mut image, magic);
    append(&mut image, len_field);
    let code = encode_u32(ByteOrder::Little, EncryptionType::Plain.code());
    append(&mut image, code.as_slice());
    append(&mut image, digest);
    append_zeros(&mut image, PLAIN_PADDING);
    append(&mut image, body);
    image
}

/// Checks what the signature does not depend on: that the identity leaves room for its
/// padding, and that the coordinates of the public key have their fixed length.
pub fn check_identity(id: &[u8], pub_x: &[u8], pub_y: &[u8]) -> (res: Result<(), XtaskError>)
    ensures
        id@.len() > ID_ROOM ==> res matches Err(XtaskError::Sm2IdTooLong),
        id@.len() <= ID_ROOM && (pub_x@.len() != SM2_WORD || pub_y@.len() != SM2_WORD) ==> res matches Err(
            XtaskError::SM2Error(_),
        ),
        id@.len() <= ID_ROOM && pub_x@.len() == SM2_WORD && pub_y@.len() == SM2_WORD ==> res is Ok,
{
    if id.len() > ID_ROOM {
        return Err(XtaskError::Sm2IdTooLong);
    }
    if pub_x.len() != SM2_WORD || pub_y.len() != SM2_WORD {
        return Err(
            XtaskError::SM2Error("a coordinate of the public key must be 32 bytes long".to_string()),
        );
    }
    Ok(())
}

/// Puts an SM4 image together from its parts. An identity that leaves no room for its
/// padding is refused, and so is a coordinate or a signature half that is not 32 bytes
/// long.
pub fn assemble_sm4(
    magic: &[u8],
    ciphertext: &[u8],
    id: &[u8],
    pub_x: &[u8],
    pub_y: &[u8],
    r: &[u8],
    s: &[u8],
) -> (res: Result<Vec<u8>, XtaskError>)
    ensures
        id@.len() > ID_ROOM ==> res matches Err(XtaskError::Sm2IdTooLong),
        id@.len() <= ID_ROOM && !fits_key_block(id@, pub_x@, pub_y@, r@, s@) ==> res matches Err(
            XtaskError::SM2Error(_),
        ),
        fits_key_block(id@, pub_x@, pub_y@, r@, s@) ==> (res matches Ok(image) && image@
            == sm4_layout(magic@, ciphertext@, id@, pub_x@, pub_y@, r@, s@)),
{
    match check_identity(id, pub_x, pub_y) {
        Ok(()) => {},
        Err(e) => {
            return Err(e);
        },
    }
    if r.len() != SM2_WORD || s.len() != SM2_WORD {
        return Err(
            XtaskError::SM2Error("each half of the signature must be 32 bytes long".to_string()),
        );
    }
    let mut image: Vec<u8> = Vec::new();
    append(&mut image, magic);
    let len_field = encode_u32(ByteOrder::Little, length_code_of(ciphertext.len()));
    append(&mut image, len_field.as_slice());
    let code = encode_u32(ByteOrder::Little, EncryptionType::Sm4.code());
    append(&mut image, code.as_slice());
    let id_len = encode_u32(ByteOrder::Little, length_code_of(id.len()));
    append(&mut image, id_len.as_slice());
    append(&mut image, id);
    append_zeros(&mut image, ID_ROOM - id.len());
    append(&mut image, pub_x);
    append(&mut image, pub_y);
    append(&mut image, r);
    append(&mut image, s);
    append(&mut image, ciphertext);
    assert(image@ == sm4_layout(magic@, ciphertext@, id@, pub_x@, pub_y@, r@, s@));
    Ok(image)
}

/// Puts an AES image together from its parts.
pub fn assemble_aes(
    magic: &[u8],
    modulus: &[u8],
    exponent: &[u8],
    signature: &[u8],
    ciphertext: &[u8],
    tag: &[u8],
) -> (image: Vec<u8>)
    ensures
        image@ == aes_layout(magic@, modulus@, exponent@, signature@, ciphertext@, tag@),
{
    let mut sealed: Vec<u8> = Vec::new();
    append(&mut sealed, ciphertext);
    append(&mut sealed, tag);
    let mut image: Vec<u8> = Vec::new();
    append(&mut image, magic);
    let len_field = encode_u32(ByteOrder::Little, length_code_of(sealed.len()));
    append(&mut image, len_field.as_slice());
    let code = encode_u32(ByteOrder::Little, EncryptionType::Aes.code());
    append(&mut image, code.as_slice());
    append(&mut image, modulus);
    append(&mut image, exponent);
    append(&mut image, signature);
    append(&mut image, sealed.as_slice());
    assert(image@ == aes_layout(magic@, modulus@, exponent@, signature@, ciphertext@, tag@));
    image
}

} // verus!
