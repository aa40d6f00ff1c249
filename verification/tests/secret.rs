use tgwsproxy::secret::{gen_secret, resolve_secret, secret_from_bytes, valid_secret};

#[test]
fn valid_secret_accepts_32_hex_digits_of_either_case() {
    assert!(valid_secret("00112233445566778899aabbccddeeff"));
    assert!(valid_secret("00112233445566778899AABBCCDDEEFF"));
    assert!(valid_secret("0011223344556677889AaBbCcDdEeFf0"));
}

#[test]
fn valid_secret_refuses_wrong_length() {
    assert!(!valid_secret(""));
    assert!(!valid_secret("00112233445566778899aabbccddeef"));
    assert!(!valid_secret("00112233445566778899aabbccddeeff00"));
    assert!(!valid_secret("00112233445566778899aabbccddeef0f"));
}

#[test]
fn valid_secret_refuses_non_hex() {
    assert!(!valid_secret("00112233445566778899aabbccddeefg"));
    assert!(!valid_secret("00112233445566778899aabbccddee f"));
    assert!(!valid_secret("dd112233445566778899aabbccddeeff0"));
}

#[test]
fn valid_secret_refuses_non_ascii_of_32_bytes() {
    // 30 hex digits and one two-byte character: 32 bytes in all.
    let s = "00112233445566778899aabbccddee\u{e9}";
    assert_eq!(s.len(), 32);
    assert!(!valid_secret(s));
}

#[test]
fn secret_from_bytes_is_lower_hex() {
    let bytes = [0x00, 0x11, 0x22, 0x33, 0x44, 0x55, 0x66, 0x77, 0x88, 0x99, 0xaa, 0xbb, 0xcc, 0xdd, 0xee, 0xff];
    assert_eq!(secret_from_bytes(&bytes), "00112233445566778899aabbccddeeff");
    let bytes = [0xde, 0xad, 0xbe, 0xef, 0, 1, 2, 3, 4, 5, 6, 7, 8, 9, 10, 0x7f];
    assert_eq!(secret_from_bytes(&bytes), "deadbeef000102030405060708090a7f");
}

#[test]
fn gen_secret_is_valid_lower_hex() {
    for _ in 0..20 {
        let s = gen_secret().expect("random source");
        assert_eq!(s.len(), 32);
        assert!(valid_secret(&s));
        assert!(s.chars().all(|c| c.is_ascii_digit() || ('a'..='f').contains(&c)));
    }
}

#[test]
fn resolve_secret_keeps_a_valid_secret() {
    assert_eq!(
        resolve_secret("00112233445566778899AABBCCDDEEFF").as_deref(),
        Some("00112233445566778899AABBCCDDEEFF")
    );
}

#[test]
fn resolve_secret_replaces_an_invalid_secret() {
    for given in ["", "xyz", "00112233445566778899aabbccddeef"] {
        let s = resolve_secret(given).expect("random source");
        assert_ne!(s, given);
        assert!(valid_secret(&s));
    }
}

#[test]
fn resolved_secret_resolves_to_itself() {
    let s = resolve_secret("not a secret").expect("random source");
    assert_eq!(resolve_secret(&s), Some(s.clone()));
}
