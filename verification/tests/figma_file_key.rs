use backend::domain::FigmaFileKey;

#[test]
fn key_is_empty() {
    assert!(FigmaFileKey::parse("".to_string()).is_err());
}

#[test]
fn key_has_invalid_chars() {
    assert!(FigmaFileKey::parse("abc-123!@#".to_string()).is_err());
}

#[test]
fn key_too_short() {
    assert!(FigmaFileKey::parse("abc123".to_string()).is_err());
}

#[test]
fn key_is_valid() {
    let key = FigmaFileKey::parse("aBcD1234EfGh5678IjKl".to_string()).unwrap();
    assert_eq!(key.as_ref(), "aBcD1234EfGh5678IjKl");
}

#[test]
fn key_error_messages() {
    assert_eq!(FigmaFileKey::parse("   ".to_string()).unwrap_err(), "value cannot be empty");
    assert_eq!(
        FigmaFileKey::parse(" abc-123!@# ".to_string()).unwrap_err(),
        "abc-123!@# is not a valid figma key"
    );
    assert_eq!(
        FigmaFileKey::parse("abc123".to_string()).unwrap_err(),
        "abc123 is too short to be a valid figma key"
    );
}

#[test]
fn key_invalid_chars_reported_before_length() {
    assert_eq!(FigmaFileKey::parse("a-b".to_string()).unwrap_err(), "a-b is not a valid figma key");
}

#[test]
fn key_non_ascii_letters_are_invalid() {
    assert!(FigmaFileKey::parse("ÄBCDEFGHIJK".to_string()).is_err());
}

#[test]
fn key_of_exactly_ten_is_valid_and_trimmed() {
    let key = FigmaFileKey::parse("\t0123456789\n".to_string()).unwrap();
    assert_eq!(key.as_ref(), "0123456789");
    let again = FigmaFileKey::parse(key.clone().as_ref().to_string()).unwrap();
    assert_eq!(again.as_ref(), "0123456789");
}
