use perekladach::auth::{auth_token_from_bytes, gen_auth_token, Password};

#[test]
fn token_of_zero_bytes() {
    assert_eq!(auth_token_from_bytes([0u8; 30]), "A".repeat(40));
}

#[test]
fn token_of_known_bytes() {
    let mut bytes = [0u8; 30];
    bytes[0] = b'M';
    bytes[1] = b'a';
    bytes[2] = b'n';
    bytes[29] = 0xff;
    let token = auth_token_from_bytes(bytes);
    assert_eq!(token.len(), 40);
    assert!(token.starts_with("TWFu"));
    assert!(token.ends_with("AAD/"));
}

#[test]
fn generated_tokens_are_forty_base64_chars() {
    let token = gen_auth_token();
    assert_eq!(token.len(), 40);
    assert!(token
        .chars()
        .all(|c| c.is_ascii_alphanumeric() || c == '+' || c == '/' || c == '='));
    assert_ne!(token, gen_auth_token());
}

#[test]
fn hash_then_verify() {
    let password = Password::try_from("correct horse".to_owned()).unwrap();
    let hash = password.compute_hash().ok().unwrap();
    assert!(hash.starts_with("$argon2id$v=19$m=15000,t=2,p=1$"));
    assert_eq!(password.matches_hash(&hash).ok(), Some(true));

    let other = Password::try_from("battery staple".to_owned()).unwrap();
    assert_eq!(other.matches_hash(&hash).ok(), Some(false));
}

#[test]
fn hash_with_fixed_salt_is_deterministic() {
    let password = Password::try_from("correct horse".to_owned()).unwrap();
    let a = password.compute_hash_with_salt("c2FsdHNhbHRzYWx0").ok().unwrap();
    let b = password.compute_hash_with_salt("c2FsdHNhbHRzYWx0").ok().unwrap();
    assert_eq!(a, b);
    assert!(a.contains("$c2FsdHNhbHRzYWx0$"));
}

#[test]
fn hash_with_bad_salt_fails() {
    let password = Password::try_from("correct horse".to_owned()).unwrap();
    assert!(password.compute_hash_with_salt("a").is_err());
    assert!(password.compute_hash_with_salt("not a salt!").is_err());
}

#[test]
fn malformed_hash_is_an_error() {
    let password = Password::try_from("correct horse".to_owned()).unwrap();
    assert!(password.matches_hash("").is_err());
    assert!(password.matches_hash("not a hash").is_err());
}

#[test]
fn fresh_salt_is_sixteen_bytes_in_b64() {
    let password = Password::try_from("correct horse".to_owned()).unwrap();
    let hash = password.compute_hash().ok().unwrap();
    let fields: Vec<&str> = hash.split('$').collect();
    assert_eq!(fields.len(), 6);
    let salt = fields[4];
    assert_eq!(salt.len(), 22);
    assert!(salt.chars().all(|c| c.is_ascii_alphanumeric() || c == '+' || c == '/'));
    assert!(password.compute_hash_with_salt(salt).is_ok());
}

#[test]
fn different_bytes_give_different_tokens() {
    let mut other = [0u8; 30];
    other[29] = 1;
    assert_ne!(auth_token_from_bytes([0u8; 30]), auth_token_from_bytes(other));
    let mut third = [0u8; 30];
    third[0] = 0x80;
    assert_ne!(auth_token_from_bytes(third), auth_token_from_bytes(other));
}
