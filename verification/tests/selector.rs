use firmware_image::error::XtaskError;
use firmware_image::variant::EncryptionType;

#[test]
fn parses_sm4_in_any_letter_case() {
    assert_eq!(EncryptionType::from_str("SM4").unwrap(), EncryptionType::Sm4);
    assert_eq!(EncryptionType::from_str("sm4").unwrap(), EncryptionType::Sm4);
    assert_eq!(EncryptionType::from_str("Sm4").unwrap(), EncryptionType::Sm4);
    assert_eq!(EncryptionType::from_str("sM4").unwrap(), EncryptionType::Sm4);
}

#[test]
fn parses_none_and_aes_in_any_letter_case() {
    assert_eq!(EncryptionType::from_str("none").unwrap(), EncryptionType::Plain);
    assert_eq!(EncryptionType::from_str("NONE").unwrap(), EncryptionType::Plain);
    assert_eq!(EncryptionType::from_str("NoNe").unwrap(), EncryptionType::Plain);
    assert_eq!(EncryptionType::from_str("aes").unwrap(), EncryptionType::Aes);
    assert_eq!(EncryptionType::from_str("AES").unwrap(), EncryptionType::Aes);
    assert_eq!(EncryptionType::from_str("aEs").unwrap(), EncryptionType::Aes);
}

#[test]
fn rejects_unknown_names() {
    assert!(matches!(
        EncryptionType::from_str("xyz"),
        Err(XtaskError::InvalidEncryptionType)
    ));
    assert!(matches!(
        EncryptionType::from_str(""),
        Err(XtaskError::InvalidEncryptionType)
    ));
    assert!(matches!(
        EncryptionType::from_str("sm44"),
        Err(XtaskError::InvalidEncryptionType)
    ));
    assert!(matches!(
        EncryptionType::from_str("sm"),
        Err(XtaskError::InvalidEncryptionType)
    ));
    assert!(matches!(
        EncryptionType::from_str(" aes"),
        Err(XtaskError::InvalidEncryptionType)
    ));
    assert!(matches!(
        EncryptionType::from_str("rsa"),
        Err(XtaskError::InvalidEncryptionType)
    ));
}

#[test]
fn rejects_letters_outside_ascii() {
    // A full-width letter is no ASCII letter, in either case.
    assert!(matches!(
        EncryptionType::from_str("\u{ff53}m4"),
        Err(XtaskError::InvalidEncryptionType)
    ));
    assert!(matches!(
        EncryptionType::from_str("a\u{00c9}s"),
        Err(XtaskError::InvalidEncryptionType)
    ));
    // Characters next to the letters in the code table do not fold onto them.
    assert!(matches!(
        EncryptionType::from_str("@es"),
        Err(XtaskError::InvalidEncryptionType)
    ));
    assert!(matches!(
        EncryptionType::from_str("[m4"),
        Err(XtaskError::InvalidEncryptionType)
    ));
}

#[test]
fn agrees_with_lowercasing_the_whole_text() {
    let names = [
        "none", "None", "nOne", "SM4", "Sm4", "aes", "Aes", "AES", "xyz", "", "nonee", "s m4",
        "\u{212a}", "AE\u{017f}", "\u{0130}", "sm\u{ff14}",
    ];
    for name in names {
        let expected = match name.to_lowercase().as_str() {
            "none" => Some(EncryptionType::Plain),
            "sm4" => Some(EncryptionType::Sm4),
            "aes" => Some(EncryptionType::Aes),
            _ => None,
        };
        assert_eq!(EncryptionType::from_str(name).ok(), expected);
    }
}

#[test]
fn parses_through_the_std_trait() {
    let parsed: EncryptionType = "Aes".parse().unwrap();
    assert_eq!(parsed, EncryptionType::Aes);
    let failed: Result<EncryptionType, XtaskError> = "des".parse();
    assert!(matches!(failed, Err(XtaskError::InvalidEncryptionType)));
}

#[test]
fn default_variant_is_plain() {
    assert_eq!(EncryptionType::default(), EncryptionType::Plain);
}

#[test]
fn wire_codes_are_zero_one_two() {
    assert_eq!(EncryptionType::Plain.code(), 0);
    assert_eq!(EncryptionType::Sm4.code(), 1);
    assert_eq!(EncryptionType::Aes.code(), 2);
}
