use booking_api::password::validate_password;

#[test]
fn password_accepted_with_all_classes() {
    assert!(validate_password("12345679Bn").is_ok());
    assert!(validate_password("Abcdefg1").is_ok());
    assert!(validate_password("Abcdefghijklmnopqr12").is_ok());
}

#[test]
fn password_too_short_is_a_length_error() {
    let e = validate_password("Ab1").unwrap_err();
    assert_eq!(e.code, "Length");
    assert_eq!(e.message, "Password must be 8-20 characters long");
}

#[test]
fn password_too_long_is_a_length_error() {
    let e = validate_password("Abcdefghijklmnopqr123").unwrap_err();
    assert_eq!(e.code, "Length");
}

#[test]
fn password_length_error_comes_before_format_error() {
    let e = validate_password("1234").unwrap_err();
    assert_eq!(e.code, "Length");
}

#[test]
fn password_length_counts_bytes() {
    // Seven characters, nine bytes.
    assert!(validate_password("Ab1éééé").is_ok());
    // Thirteen characters, twenty-three bytes.
    let e = validate_password("Aéééééééééé1b").unwrap_err();
    assert_eq!(e.code, "Length");
}

#[test]
fn password_missing_a_class_is_a_format_error() {
    for p in ["abcdefg1", "ABCDEFG1", "Abcdefgh"] {
        let e = validate_password(p).unwrap_err();
        assert_eq!(e.code, "format");
        assert_eq!(
            e.message,
            "Password must contain as least one uppercase, one lowercase, and number"
        );
    }
}

#[test]
fn password_classes_are_unicode() {
    // 'Ä' is uppercase, 'ß' lowercase, '٣' (Arabic-Indic three) numeric.
    assert!(validate_password("Äßßßßß٣").is_ok());
}
