use perekladach::auth::{Password, PasswordError};
use perekladach::database::user::{Username, UsernameError};

#[test]
fn username_up_to_32_bytes() {
    let name = "a".repeat(32);
    let username = Username::try_from(name.clone()).unwrap();
    assert_eq!(username.inner(), name);
    assert!(Username::try_from(String::new()).is_ok());
    assert_eq!(
        Username::try_from("a".repeat(33)).err(),
        Some(UsernameError::TooLong)
    );
}

#[test]
fn username_length_counts_bytes() {
    // sixteen two-byte characters: 32 bytes
    assert!(Username::try_from("я".repeat(16)).is_ok());
    // seventeen two-byte characters: 34 bytes
    assert!(Username::try_from("я".repeat(17)).is_err());
}

#[test]
fn password_length_bounds() {
    assert_eq!(
        Password::try_from("1234567".to_owned()).err(),
        Some(PasswordError::TooShort)
    );
    assert!(Password::try_from("12345678".to_owned()).is_ok());
    assert!(Password::try_from("x".repeat(64)).is_ok());
    assert_eq!(
        Password::try_from("x".repeat(65)).err(),
        Some(PasswordError::TooLong)
    );
    assert_eq!(Password::try_from(String::new()).err(), Some(PasswordError::TooShort));
}

#[test]
fn password_length_counts_bytes() {
    // four two-byte characters are eight bytes
    assert!(Password::try_from("єєєє".to_owned()).is_ok());
    // three two-byte characters are six bytes
    assert_eq!(
        Password::try_from("єєє".to_owned()).err(),
        Some(PasswordError::TooShort)
    );
    let p = Password::try_from("secret-password".to_owned()).unwrap();
    assert_eq!(p.inner(), "secret-password");
}

#[test]
fn refusal_texts() {
    assert_eq!(UsernameError::TooLong.message(), "Username is too long");
    assert_eq!(PasswordError::TooShort.message(), "Password is too short");
    assert_eq!(PasswordError::TooLong.message(), "Password is too long");
    let e = Username::try_from("x".repeat(40)).err().unwrap();
    assert_eq!(e.message(), "Username is too long");
}
