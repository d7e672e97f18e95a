use keystone_verified::password_hashing::verify_length_and_trunc_password;

#[test]
fn test_verify_length_and_trunc_password() {
    assert_eq!(
        b"abcdefg",
        verify_length_and_trunc_password("abcdefg".as_bytes(), 70)
    );
    assert_eq!(
        b"abcd",
        verify_length_and_trunc_password("abcdefg".as_bytes(), 4)
    );
    // In UTF8 bytes a single unicode is taking 3 bytes already
    assert_eq!(
        b"\xE2\x98\x81a",
        verify_length_and_trunc_password("☁abcdefg".as_bytes(), 4)
    );
}

use keystone_verified::config::{Config, PasswordHashingAlgo};
use keystone_verified::password_hashing::{
    PasswordHashError, bytes_eq, chars_of, detect_algorithm, dummy_password, generate_dummy_hash,
    hash_password, hex_lower_bytes, parse_u32, replace_dots_exec, split_chars, string_from_chars,
    verify_password,
};
use rand::distr::{Alphanumeric, SampleString};

const TEST_PASSWORD: &str = "openstack123";

fn conf_with(algo: PasswordHashingAlgo) -> Config {
    let mut conf = Config::default();
    conf.identity.password_hashing_algorithm = algo;
    conf
}

#[test]
fn test_hash_bcrypt() {
    let conf = Config::default();
    let pass = "abcdefg";
    let hashed = hash_password(&conf, pass.as_bytes()).unwrap();
    assert!(hashed.starts_with("$2b$"));
    assert_eq!(hashed.len(), 60);
}

#[test]
fn test_roundtrip_bcrypt() {
    let conf = Config::default();
    let pass = "abcdefg";
    let hashed = hash_password(&conf, pass.as_bytes()).unwrap();
    assert!(verify_password(&conf, pass.as_bytes(), &hashed).unwrap());
}

#[test]
fn test_roundtrip_bcrypt_longer_than_72() {
    let conf = Config::default();
    let pass = Alphanumeric.sample_string(&mut rand::rng(), 80);
    let hashed = hash_password(&conf, pass.as_bytes()).unwrap();
    assert!(verify_password(&conf, pass.as_bytes(), &hashed).unwrap());
}

#[test]
fn test_roundtrip_bcrypt_mismatch() {
    let conf = Config::default();
    let pass = Alphanumeric.sample_string(&mut rand::rng(), 80);
    let hashed = hash_password(&conf, "other password".as_bytes()).unwrap();
    assert!(!verify_password(&conf, pass.as_bytes(), &hashed).unwrap());
}

#[test]
fn test_roundtrip_bcrypt_bad_hash() {
    let conf = Config::default();
    let pass = Alphanumeric.sample_string(&mut rand::rng(), 80);
    assert!(!verify_password(&conf, pass.as_bytes(), "foobar").unwrap());
}

#[test]
fn test_generate_and_verify_dummy_hash_bcrypt() {
    let conf = Config::default();
    let dummy_hash = generate_dummy_hash(&conf).unwrap();
    // Dummy hash should be a valid bcrypt hash (starts with $2b$)
    assert!(
        dummy_hash.starts_with("$2b$"),
        "Dummy hash should be a valid bcrypt hash"
    );
    // Verify should return false for any random password
    let pass = Alphanumeric.sample_string(&mut rand::rng(), 32);
    let result = verify_password(&conf, pass.as_bytes(), &dummy_hash).unwrap();
    assert!(!result, "Dummy hash should not match random password");
}

#[test]
fn test_generate_dummy_hash_none() {
    let conf = conf_with(PasswordHashingAlgo::Plaintext);
    let dummy_hash = generate_dummy_hash(&conf).unwrap();
    // Dummy hash should be a non-empty string
    assert!(!dummy_hash.is_empty(), "Dummy hash should not be empty");
    let pass = Alphanumeric.sample_string(&mut rand::rng(), 32);
    let result = verify_password(&conf, pass.as_bytes(), &dummy_hash).unwrap();
    assert!(!result, "Dummy hash should not match random password");
}

#[test]
fn test_production_verify_password_integration_with_legacy_pbkdf2() {
    let conf = conf_with(PasswordHashingAlgo::Pbkdf2Sha512);
    let python_pbkdf2_hash = "$pbkdf2-sha512$25000$bo2REsLY.z9HCCFESEmJkQ$qX0JhkudwUVXpDKfMkDrWRgiP2AcYLbocxVkQrOmX4i0SGANHAB8KQUd1vbwVYJEBpbi4RvyvP5QJWZfIhnWTQ";
    let result = verify_password(&conf, TEST_PASSWORD.as_bytes(), python_pbkdf2_hash).unwrap();
    assert!(
        result,
        "The production verify_password function failed to fallback and parse the legacy string!"
    );
}

#[test]
fn legacy_pbkdf2_rejects_wrong_password() {
    let conf = conf_with(PasswordHashingAlgo::Pbkdf2Sha512);
    let python_pbkdf2_hash = "$pbkdf2-sha512$25000$bo2REsLY.z9HCCFESEmJkQ$qX0JhkudwUVXpDKfMkDrWRgiP2AcYLbocxVkQrOmX4i0SGANHAB8KQUd1vbwVYJEBpbi4RvyvP5QJWZfIhnWTQ";
    assert!(!verify_password(&conf, b"wrongpassword", python_pbkdf2_hash).unwrap());
}

#[test]
fn legacy_pbkdf2_error_messages() {
    let conf = conf_with(PasswordHashingAlgo::Pbkdf2Sha512);
    match verify_password(&conf, b"x", "$pbkdf2-sha512$abc") {
        Err(PasswordHashError::CryptoHash(m)) => assert_eq!(m, "Invalid hash format"),
        other => panic!("unexpected {:?}", other),
    }
    match verify_password(&conf, b"x", "$pbkdf2-sha512$10$!!!!$AAAA") {
        Err(PasswordHashError::CryptoHash(m)) => assert_eq!(m, "Invalid legacy salt"),
        other => panic!("unexpected {:?}", other),
    }
    match verify_password(&conf, b"x", "$pbkdf2-sha512$10$AAAA$!!!!") {
        Err(PasswordHashError::CryptoHash(m)) => assert_eq!(m, "Invalid legacy hash"),
        other => panic!("unexpected {:?}", other),
    }
}

#[test]
fn scrypt_parse_failure_is_reported() {
    let conf = Config::default();
    assert!(matches!(
        verify_password(&conf, b"x", "$scrypt$"),
        Err(PasswordHashError::CryptoHash(_))
    ));
}

#[test]
fn plaintext_roundtrip_and_utf8_error() {
    let conf = conf_with(PasswordHashingAlgo::Plaintext);
    let hashed = hash_password(&conf, "päss".as_bytes()).unwrap();
    assert_eq!(hashed, "päss");
    assert!(verify_password(&conf, "päss".as_bytes(), &hashed).unwrap());
    assert!(!verify_password(&conf, "pass".as_bytes(), &hashed).unwrap());
    assert!(matches!(
        hash_password(&conf, &[0xff, 0xfe]),
        Err(PasswordHashError::Utf8 { .. })
    ));
    assert!(matches!(
        verify_password(&conf, &[0xff], "x"),
        Err(PasswordHashError::Utf8 { .. })
    ));
}

#[test]
fn bcrypt_cost_out_of_range_fails() {
    let mut conf = Config::default();
    conf.identity.password_hash_rounds = Some(3);
    assert!(matches!(
        hash_password(&conf, b"abc"),
        Err(PasswordHashError::BCrypt { .. })
    ));
    assert!(generate_dummy_hash(&conf).is_err());
}

#[test]
fn bcrypt_sha256_hash_is_bcrypt_of_hex_digest() {
    let mut conf = conf_with(PasswordHashingAlgo::BcryptSha256);
    conf.identity.password_hash_rounds = Some(4);
    let hashed = hash_password(&conf, b"abc").unwrap();
    // The hash is written as plain bcrypt, so verification picks bcrypt on
    // the raw password and does not match.
    assert!(hashed.starts_with("$2b$"));
    assert!(!verify_password(&conf, b"abc", &hashed).unwrap());
    // It is the bcrypt hash of the hex SHA-256 digest.
    let hex = "ba7816bf8f01cfea414140de5dae2223b00361a396177a9cb410ff61f20015ad";
    assert!(bcrypt::verify(hex, &hashed).unwrap());
}

#[test]
fn hex_of_digest() {
    assert_eq!(hex_lower_bytes(&[0x00, 0x0f, 0xa0, 0xff]), b"000fa0ff".to_vec());
    assert_eq!(hex_lower_bytes(&[]), Vec::<u8>::new());
}

#[test]
fn algorithm_detection_by_prefix() {
    let d = |h: &str| detect_algorithm(&chars_of(h), PasswordHashingAlgo::Plaintext);
    assert_eq!(d("$2b$12$abc"), PasswordHashingAlgo::Bcrypt);
    assert_eq!(d("$2a$12$abc"), PasswordHashingAlgo::Bcrypt);
    assert_eq!(d("$bcrypt-sha256$x"), PasswordHashingAlgo::BcryptSha256);
    assert_eq!(d("$scrypt$x"), PasswordHashingAlgo::Scrypt);
    assert_eq!(d("$pbkdf2-sha512$x"), PasswordHashingAlgo::Pbkdf2Sha512);
    assert_eq!(d("plain"), PasswordHashingAlgo::Plaintext);
    assert_eq!(d("$2"), PasswordHashingAlgo::Plaintext);
}

#[test]
fn text_helpers() {
    let parts = split_chars(&chars_of("$a$$b"), '$');
    let parts: Vec<String> = parts.iter().map(|p| string_from_chars(p)).collect();
    assert_eq!(parts, vec!["", "a", "", "b"]);
    assert_eq!(split_chars(&chars_of(""), '$').len(), 1);
    assert_eq!(string_from_chars(&replace_dots_exec(&chars_of("a.b.c"))), "a+b+c");
    assert!(bytes_eq(b"abc", b"abc"));
    assert!(!bytes_eq(b"abc", b"abd"));
    assert!(!bytes_eq(b"abc", b"ab"));
}

#[test]
fn dummy_password_is_printable() {
    let p = dummy_password(&[0, 94, 95, 255]);
    assert_eq!(p, vec![32, 126, 32, 32 + (255 % 95)]);
}

#[test]
fn trunc_steps_back_over_continuation_bytes() {
    // A cut inside the first character of a multi-byte sequence at the
    // start gives nothing.
    assert_eq!(verify_length_and_trunc_password("☁".as_bytes(), 2), b"");
    assert_eq!(verify_length_and_trunc_password("ab☁".as_bytes(), 3), b"ab");
    assert_eq!(verify_length_and_trunc_password("ab☁".as_bytes(), 5), "ab☁".as_bytes());
    assert_eq!(verify_length_and_trunc_password(b"abc", 0), b"");
}

#[test]
fn bcrypt_hash_carries_configured_cost() {
    let conf = Config::default();
    assert!(hash_password(&conf, b"abcdefg").unwrap().starts_with("$2b$12$"));
    let mut conf = Config::default();
    conf.identity.password_hash_rounds = Some(4);
    let h = hash_password(&conf, b"abcdefg").unwrap();
    assert!(h.starts_with("$2b$04$"));
    assert!(verify_password(&conf, b"abcdefg", &h).unwrap());
    conf.identity.password_hashing_algorithm = PasswordHashingAlgo::BcryptSha256;
    assert!(hash_password(&conf, b"abcdefg").unwrap().starts_with("$2b$04$"));
}

#[test]
fn parse_u32_agrees_with_std() {
    for text in [
        "25000", "0", "+7", "+", "", "-1", "4294967295", "4294967296", "00042", "12a", " 1",
        "99999999999999999999", "+0", "++1",
    ] {
        let chars: Vec<char> = text.chars().collect();
        assert_eq!(parse_u32(&chars), text.parse::<u32>().ok(), "{text:?}");
    }
}
