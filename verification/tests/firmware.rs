use aes_gcm::{AeadInPlace, Aes256Gcm, Key, KeyInit, Nonce, Tag};
use firmware_image::bytes::ByteOrder;
use firmware_image::error::XtaskError;
use firmware_image::firmware::{
    build_plain_image, gen_aes, gen_firmware, gen_plain, gen_sm4, with_version, KeyMaterial,
};
use firmware_image::variant::EncryptionType;
use num_bigint_dig::BigUint;
use rsa::traits::SignatureScheme;
use rsa::{Pkcs1v15Sign, RsaPublicKey};
use sha2::{Digest, Sha256};

const RSA_N: &str = "da02b01487d8877523b12b729d013214fe2fe8528dc3487bdbc0a3888ec831a6967f3f8982b074a8f71a59d42bfb19a7c3e1dd1e34336420b56655ea5b180001d4ffe645b149275fda9dcccd913c42487520f00d3ebf11794825776f039096c57d42c01f85565d61f8ba905a7c24e3f03b16236d49acd3edbc604279e8a07f6f0421dc0e42a6c2cb977e77de062411084adfc926b76a8a88a5883c1a70429909453a7f3a595857467d0f0470289cdd2ee2f4c6d5d033fc366c9bdfd70669eada824a079e42b9bfce501cbcfe6cc122ce478f844b25fa34bdb47f342241af396adc8c5193ab6c85a7256b99e0bf18f1db01eff49b6494da65cdcbd5f4132fe0b7";
const RSA_D: &str = "11ed38a7678841933b4d1d427e7093bab030264d6b84cc580af8eb39966c15d119fcfaaf870495833356825e75035fd7b0bec8dcebf3f1ded2abc892cdccca6b5c2572bcf6580a99d233399d09bd47c207879ed5a7fc3426a1ed1ac61127f98de1bff466632377e84f789fd820ef33a31468bc9f06f8e4305f5617014944b155bbb321cb6b9e0dbe0a34beead114fb45522f4f812b2c78a6a76deb8e3849ebf3379455fb60ecc2836c5d0de9d245ce7968f7ad872c8a448adef3fe1f067668ef9c46699875533db17fe2c68df7c4d5572587c62a05aad7811450ce082c94900d86482aa97433e883ebca3bbc7786e5b91327cdcd30a02aef4ba91df1d1c48031";
const SM2_SECRET: &str = "3945208f7b2144b13f36e38ac6d39f95889393692860b51a42fb81ef4df7c5b8";
const SM2_PUBLIC_X: &str = "09f9df311e5421a150dd7d161e4bc5c672179fad1833fc076bb08ff356f35020";
const SM2_PUBLIC_Y: &str = "ccea490ce26775a52dc6ea718cc1aa600aed05fbf35e084a6632f6072da9ad13";

fn keys() -> KeyMaterial {
    let secret = hex::decode(SM2_SECRET).unwrap();
    let pub_x = hex::decode(SM2_PUBLIC_X).unwrap();
    let pub_y = hex::decode(SM2_PUBLIC_Y).unwrap();
    KeyMaterial {
        magic: "K230".to_string(),
        version: vec![0, 0, 0, 0],
        add_auth_data: b"firmware header".to_vec(),
        sm4_key: hex::decode("0123456789abcdeffedcba9876543210").unwrap(),
        sm4_iv: hex::decode("000102030405060708090a0b0c0d0e0f").unwrap(),
        aes_key: hex::decode("24501ad384e473963d476edcfe08205237acfd49b5b8f33857f8114e863fec7f")
            .unwrap(),
        aes_iv: hex::decode("9f62544c9d3fcab2dd0833df").unwrap(),
        sm2_id: "1234567812345678".to_string(),
        sm2_public_key_x: pub_x,
        sm2_public_key_y: pub_y,
        sm2_private_key: secret,
        rsa_n: RSA_N.as_bytes().to_vec(),
        rsa_e: "0x10001".to_string(),
        rsa_d: RSA_D.as_bytes().to_vec(),
    }
}

fn sha256(data: &[u8]) -> Vec<u8> {
    Sha256::digest(data).to_vec()
}

fn payloads() -> Vec<Vec<u8>> {
    vec![
        vec![],
        vec![0x5a],
        vec![0, 0, 0, 0],
        (0u8..12).collect(),
        (0u8..=255).collect(),
        vec![0xa5; 1000],
    ]
}

fn aes_decrypt(keys: &KeyMaterial, ciphertext: &[u8], tag: &[u8]) -> Option<Vec<u8>> {
    let cipher = Aes256Gcm::new(Key::<Aes256Gcm>::from_slice(&keys.aes_key));
    let mut buffer = ciphertext.to_vec();
    cipher
        .decrypt_in_place_detached(
            Nonce::from_slice(&keys.aes_iv),
            &keys.add_auth_data,
            &mut buffer,
            Tag::from_slice(tag),
        )
        .ok()?;
    Some(buffer)
}

#[test]
fn plain_image_of_four_zero_bytes() {
    let keys = keys();
    let image = gen_firmware(&[0, 0, 0, 0], EncryptionType::Plain, &keys).unwrap();
    let body = vec![0u8; 8];
    let mut expected = Vec::new();
    expected.extend_from_slice(b"K230");
    expected.extend_from_slice(&8u32.to_ne_bytes());
    expected.extend_from_slice(&[0, 0, 0, 0]);
    expected.extend_from_slice(&sha256(&body));
    expected.extend_from_slice(&[0u8; 484]);
    expected.extend_from_slice(&body);
    assert_eq!(image, expected);
    assert_eq!(image.len(), 4 + 4 + 4 + 32 + 484 + 8);
    assert!(image.starts_with(b"K230"));
    assert_eq!(image[4..8], (4 + keys.version.len() as u32).to_ne_bytes());
    assert_eq!(image[8..12], [0, 0, 0, 0]);
    assert!(image[44..528].iter().all(|b| *b == 0));
    assert_eq!(image[528..], body[..]);
}

#[test]
fn plain_image_digest_is_sha256_of_versioned_payload() {
    let mut keys = keys();
    keys.version = b"v1.2".to_vec();
    for payload in payloads() {
        let image = gen_firmware(&payload, EncryptionType::Plain, &keys).unwrap();
        let mut body = keys.version.clone();
        body.extend_from_slice(&payload);
        assert_eq!(image[12..44], sha256(&body)[..]);
        assert_eq!(image[4..8], (body.len() as u32).to_ne_bytes());
        assert_eq!(image[528..], body[..]);
        assert_eq!(image[528 + keys.version.len()..], payload[..]);
    }
}

#[test]
fn plain_image_holds_known_digest() {
    let mut keys = keys();
    keys.version = Vec::new();
    let image = build_plain_image(&keys, b"abc", ByteOrder::Little);
    let expected =
        hex::decode("ba7816bf8f01cfea414140de5dae2223b00361a396177a9cb410ff61f20015ad").unwrap();
    assert_eq!(image[12..44], expected[..]);
}

#[test]
fn plain_image_in_both_byte_orders() {
    let keys = keys();
    let payload = vec![7u8; 300];
    let little = build_plain_image(&keys, &payload, ByteOrder::Little);
    let big = build_plain_image(&keys, &payload, ByteOrder::Big);
    assert_eq!(little[4..8], [0x30, 0x01, 0x00, 0x00]);
    assert_eq!(big[4..8], [0x00, 0x00, 0x01, 0x30]);
    assert_eq!(little[..4], big[..4]);
    assert_eq!(little[8..], big[8..]);
    let native = gen_plain(&keys, &payload);
    assert!(native == little || native == big);
    if 1u32.to_ne_bytes() == 1u32.to_le_bytes() {
        assert_eq!(native, little);
    } else {
        assert_eq!(native, big);
    }
}

#[test]
fn plain_image_with_empty_magic_and_version() {
    let mut keys = keys();
    keys.magic = String::new();
    keys.version = Vec::new();
    let image = build_plain_image(&keys, &[], ByteOrder::Little);
    assert_eq!(image.len(), 524);
    assert_eq!(image[0..8], [0u8; 8]);
    assert_eq!(image[8..40], sha256(&[])[..]);
    assert!(image[40..].iter().all(|b| *b == 0));
}

#[test]
fn version_tag_goes_in_front() {
    let mut keys = keys();
    keys.version = vec![1, 2, 3];
    assert_eq!(with_version(&keys, &[9, 8]), vec![1, 2, 3, 9, 8]);
    assert_eq!(with_version(&keys, &[]), vec![1, 2, 3]);
}

#[test]
fn sm4_identity_without_room_is_rejected() {
    let mut keys = keys();
    keys.sm2_id = "i".repeat(385);
    assert!(matches!(
        gen_firmware(&[1, 2, 3], EncryptionType::Sm4, &keys),
        Err(XtaskError::Sm2IdTooLong)
    ));
    keys.sm2_id = "i".repeat(5000);
    assert!(matches!(gen_sm4(&keys, &[]), Err(XtaskError::Sm2IdTooLong)));
    // The room is counted in bytes: 193 two-byte letters are 386 bytes.
    keys.sm2_id = "\u{00e9}".repeat(193);
    assert!(matches!(gen_sm4(&keys, &[]), Err(XtaskError::Sm2IdTooLong)));
    // 192 of them are 384 bytes and fit; a private key of the wrong length is then
    // what is met next.
    keys.sm2_id = "\u{00e9}".repeat(192);
    keys.sm2_private_key = Vec::new();
    assert!(matches!(gen_sm4(&keys, &[]), Err(XtaskError::SM2Error(_))));
}

#[test]
fn sm4_identity_is_checked_before_the_keys() {
    let mut keys = keys();
    keys.sm2_id = "i".repeat(385);
    keys.sm4_key = vec![0; 3];
    keys.sm2_private_key = vec![];
    assert!(matches!(gen_sm4(&keys, &[]), Err(XtaskError::Sm2IdTooLong)));
}

#[test]
fn sm4_key_of_wrong_length_is_rejected() {
    let mut keys = keys();
    keys.sm4_key = vec![0; 15];
    assert!(matches!(gen_sm4(&keys, &[1]), Err(XtaskError::SM4Error(_))));
    let mut keys = self::keys();
    keys.sm4_key = vec![0; 32];
    assert!(matches!(gen_sm4(&keys, &[1]), Err(XtaskError::SM4Error(_))));
}

#[test]
fn sm4_iv_of_wrong_length_is_rejected() {
    let mut keys = keys();
    keys.sm4_iv = vec![0; 12];
    assert!(matches!(gen_sm4(&keys, &[1]), Err(XtaskError::SM4Error(_))));
    let mut keys = self::keys();
    keys.sm4_iv = Vec::new();
    assert!(matches!(gen_sm4(&keys, &[1]), Err(XtaskError::SM4Error(_))));
}

#[test]
fn sm2_public_key_that_does_not_load_is_rejected() {
    // Coordinates of a point that is not on the curve.
    let mut keys = keys();
    keys.sm2_public_key_x[7] ^= 0xff;
    assert!(matches!(gen_sm4(&keys, &[1]), Err(XtaskError::SM2Error(_))));
    let mut keys = self::keys();
    keys.sm2_public_key_y[31] ^= 1;
    assert!(matches!(
        gen_firmware(&[1], EncryptionType::Sm4, &keys),
        Err(XtaskError::SM2Error(_))
    ));
}

#[test]
fn sm2_private_key_of_wrong_length_is_rejected() {
    let mut keys = keys();
    keys.sm2_private_key.pop();
    assert!(matches!(gen_sm4(&keys, &[1]), Err(XtaskError::SM2Error(_))));
    let mut keys = self::keys();
    keys.sm2_private_key.push(0);
    assert!(matches!(gen_sm4(&keys, &[1]), Err(XtaskError::SM2Error(_))));
}

#[test]
fn sm2_coordinate_of_wrong_length_is_rejected() {
    let mut keys = keys();
    keys.sm2_public_key_x.pop();
    assert!(matches!(gen_sm4(&keys, &[1]), Err(XtaskError::SM2Error(_))));
    let mut keys = self::keys();
    keys.sm2_public_key_y.push(0);
    assert!(matches!(gen_sm4(&keys, &[1]), Err(XtaskError::SM2Error(_))));
}

#[test]
fn aes_image_decrypts_and_verifies() {
    let keys = keys();
    let n = BigUint::parse_bytes(RSA_N.as_bytes(), 16).unwrap();
    let e = BigUint::from(0x10001u32);
    let n_bytes = n.to_bytes_le();
    assert_eq!(n_bytes.len(), 256);
    let public = RsaPublicKey::new(n, e).unwrap();
    for payload in payloads() {
        let image = gen_firmware(&payload, EncryptionType::Aes, &keys).unwrap();
        let mut body = keys.version.clone();
        body.extend_from_slice(&payload);

        assert!(image.starts_with(b"K230"));
        let sealed_len = u32::from_le_bytes(image[4..8].try_into().unwrap()) as usize;
        assert_eq!(sealed_len, body.len() + 16);
        assert_eq!(image[8..12], [2, 0, 0, 0]);
        assert_eq!(image[12..268], n_bytes[..]);
        assert_eq!(image[12..14], [0xb7, 0xe0]);
        assert_eq!(image[266..268], [0x02, 0xda]);
        assert_eq!(image[268..271], [1, 0, 1]);
        assert_eq!(image.len(), 12 + 256 + 3 + 256 + sealed_len);
        let signature = &image[271..527];
        let ciphertext = &image[527..527 + body.len()];
        let tag = &image[527 + body.len()..];
        assert_eq!(tag.len(), 16);

        assert_eq!(aes_decrypt(&keys, ciphertext, tag), Some(body));
        assert!(Pkcs1v15Sign::new_unprefixed()
            .verify(&public, &sha256(tag), signature)
            .is_ok());
    }
}

#[test]
fn aes_image_is_the_same_on_every_run() {
    let keys = keys();
    let first = gen_aes(&keys, b"again").unwrap();
    let second = gen_aes(&keys, b"again").unwrap();
    assert_eq!(first, second);
}

#[test]
fn aes_tag_does_not_open_a_changed_ciphertext() {
    let keys = keys();
    let image = gen_aes(&keys, b"sealed payload").unwrap();
    let body_len = keys.version.len() + 14;
    let mut ciphertext = image[527..527 + body_len].to_vec();
    let tag = &image[527 + body_len..];
    ciphertext[3] ^= 0x80;
    assert_eq!(aes_decrypt(&keys, &ciphertext, tag), None);
}

#[test]
fn aes_key_of_wrong_length_is_rejected() {
    let mut keys = keys();
    keys.aes_key = vec![0; 16];
    assert!(matches!(
        gen_firmware(&[1], EncryptionType::Aes, &keys),
        Err(XtaskError::AesError(_))
    ));
    let mut keys = self::keys();
    keys.aes_key.push(0);
    assert!(matches!(gen_aes(&keys, &[1]), Err(XtaskError::AesError(_))));
}

#[test]
fn aes_nonce_of_wrong_length_is_rejected() {
    let mut keys = keys();
    keys.aes_iv = vec![0; 16];
    assert!(matches!(gen_aes(&keys, &[1]), Err(XtaskError::AesError(_))));
    let mut keys = self::keys();
    keys.aes_iv = Vec::new();
    assert!(matches!(gen_aes(&keys, &[1]), Err(XtaskError::AesError(_))));
}

#[test]
fn rsa_numerals_that_do_not_parse_are_rejected() {
    let mut keys = keys();
    keys.rsa_n = b"not a numeral".to_vec();
    match gen_aes(&keys, &[1]) {
        Err(XtaskError::RsaParseError(text)) => assert_eq!(text, "Failed to parse N for RSA"),
        _ => panic!("the modulus must be refused"),
    }
    let mut keys = self::keys();
    keys.rsa_e = "0xg".to_string();
    match gen_aes(&keys, &[1]) {
        Err(XtaskError::RsaParseError(text)) => assert_eq!(text, "Failed to parse E for RSA"),
        _ => panic!("the public exponent must be refused"),
    }
    let mut keys = self::keys();
    keys.rsa_d = Vec::new();
    match gen_aes(&keys, &[1]) {
        Err(XtaskError::RsaParseError(text)) => assert_eq!(text, "Failed to parse D for RSA"),
        _ => panic!("the private exponent must be refused"),
    }
}

#[test]
fn rsa_modulus_is_read_before_the_exponents() {
    let mut keys = keys();
    keys.rsa_n = vec![0xff];
    keys.rsa_e = String::new();
    keys.rsa_d = b"xyz".to_vec();
    match gen_aes(&keys, &[1]) {
        Err(XtaskError::RsaParseError(text)) => assert_eq!(text, "Failed to parse N for RSA"),
        _ => panic!("the modulus must be refused"),
    }
    keys.rsa_n = RSA_N.as_bytes().to_vec();
    match gen_aes(&keys, &[1]) {
        Err(XtaskError::RsaParseError(text)) => assert_eq!(text, "Failed to parse E for RSA"),
        _ => panic!("the public exponent must be refused"),
    }
}

#[test]
fn rsa_key_that_does_not_fit_is_rejected() {
    let mut keys = keys();
    keys.rsa_d = b"10001".to_vec();
    assert!(matches!(gen_aes(&keys, &[1]), Err(XtaskError::RsaError(_))));
    let mut keys = self::keys();
    keys.rsa_e = "0x3".to_string();
    assert!(matches!(gen_aes(&keys, &[1]), Err(XtaskError::RsaError(_))));
}

#[test]
fn rsa_zero_components_are_rejected() {
    let mut keys = keys();
    keys.rsa_d = b"0".to_vec();
    assert!(matches!(gen_aes(&keys, &[1]), Err(XtaskError::RsaParseError(_))));
    let mut keys = self::keys();
    keys.rsa_n = b"000".to_vec();
    assert!(matches!(gen_aes(&keys, &[1]), Err(XtaskError::RsaParseError(_))));
    // With a small exponent no primes are looked for, and the key is refused as a key.
    let mut keys = self::keys();
    keys.rsa_d = b"0".to_vec();
    keys.rsa_e = "0x3".to_string();
    assert!(matches!(gen_aes(&keys, &[1]), Err(XtaskError::RsaError(_))));
}

#[test]
fn aes_errors_come_before_rsa_errors() {
    let mut keys = keys();
    keys.aes_key = Vec::new();
    keys.rsa_n = b"?".to_vec();
    assert!(matches!(gen_aes(&keys, &[1]), Err(XtaskError::AesError(_))));
}


#[test]
fn plain_and_aes_images_give_back_their_payload() {
    let keys = keys();
    let payload = b"the quick brown fox jumps over the lazy dog".to_vec();
    let v = keys.version.len();

    let plain = gen_firmware(&payload, EncryptionType::Plain, &keys).unwrap();
    assert_eq!(plain[528 + v..], payload[..]);

    let aes = gen_firmware(&payload, EncryptionType::Aes, &keys).unwrap();
    let sealed_len = u32::from_le_bytes(aes[4..8].try_into().unwrap()) as usize;
    let sealed = &aes[aes.len() - sealed_len..];
    let (ciphertext, tag) = sealed.split_at(sealed_len - 16);
    assert_eq!(aes_decrypt(&keys, ciphertext, tag).unwrap()[v..], payload[..]);
}
