use base64::Engine;
use vanilla_backend::auth::token::{
    accept, generate_token, parse_token_text, payload_text, sign, token_from_random,
    try_generate_token, verify_token, TokenData, TokenParts,
};

const BYTES: [u8; 16] = [0, 1, 2, 3, 4, 5, 6, 7, 8, 9, 10, 11, 12, 13, 14, 255];

#[test]
fn token_is_accepted_under_its_secret() {
    for (id, version) in [("42", 0), ("user", -3), ("", 7), ("ünï", i32::MAX), ("x", i32::MIN)] {
        let token = generate_token(id, version, "secret");
        assert_eq!(
            verify_token(&token, "secret"),
            Some(TokenData { user_id: id.to_string(), version })
        );
        assert_eq!(verify_token(&token, "other"), None);
    }
}

#[test]
fn long_user_id_is_carried() {
    let id = "ü".repeat(5000);
    let token = generate_token(&id, 1, "secret");
    assert_eq!(verify_token(&token, "secret"), Some(TokenData { user_id: id, version: 1 }));
}

#[test]
fn token_is_tried_for_any_user() {
    let token = try_generate_token("42", -1, "secret").unwrap();
    assert_eq!(
        verify_token(&token, "secret"),
        Some(TokenData { user_id: "42".to_string(), version: -1 })
    );
    let token = try_generate_token("4:2", -1, "secret").unwrap();
    assert_eq!(verify_token(&token, "secret"), None);
}

#[test]
fn tokens_of_one_user_differ() {
    assert_ne!(generate_token("42", 1, "s"), generate_token("42", 1, "s"));
}

#[test]
fn colon_in_the_user_id_makes_no_token() {
    let token = generate_token("4:2", 1, "s");
    assert_eq!(verify_token(&token, "s"), None);
}

#[test]
fn token_has_the_expected_form() {
    let token = token_from_random("42", 3, &BYTES.to_vec(), "key");
    let text = base64::engine::general_purpose::STANDARD.decode(&token).unwrap();
    let text = String::from_utf8(text).unwrap();
    let parts: Vec<&str> = text.split(':').collect();
    assert_eq!(parts.len(), 4);
    assert_eq!(parts[0], "42");
    assert_eq!(parts[1], "3");
    assert_eq!(parts[2], "000102030405060708090a0b0c0d0eff");
    assert_eq!(parts[3].len(), 64);
    assert_eq!(parts[3], sign("42:3:000102030405060708090a0b0c0d0eff", "key"));
    assert_eq!(
        verify_token(&token, "key"),
        Some(TokenData { user_id: "42".to_string(), version: 3 })
    );
}

#[test]
fn signature_is_the_hmac_in_hexadecimal() {
    assert_eq!(
        sign("The quick brown fox jumps over the lazy dog", "key"),
        "f7bc83f430538424b13298e6aa6fb143ef4d59a14946175997479dbc2d1a3cd8"
    );
}

#[test]
fn texts_that_are_no_tokens_are_refused() {
    let encode = |t: &[u8]| base64::engine::general_purpose::STANDARD.encode(t);
    assert_eq!(verify_token("%%%", "s"), None);
    assert_eq!(verify_token("", "s"), None);
    assert_eq!(verify_token(&encode(&[0xff, 0xfe]), "s"), None);
    assert_eq!(verify_token(&encode(b"a:1:n"), "s"), None);
    assert_eq!(verify_token(&encode(b"a:x:n:s"), "s"), None);
    assert_eq!(verify_token(&encode(b"a:1:n:s"), "s"), None);
}

#[test]
fn version_is_signed_as_it_is_read() {
    let signature = sign("a:1:n", "s");
    let text = format!("a:+01:n:{}", signature);
    let token = base64::engine::general_purpose::STANDARD.encode(text);
    assert_eq!(verify_token(&token, "s"), Some(TokenData { user_id: "a".to_string(), version: 1 }));
}

#[test]
fn token_text_is_taken_apart() {
    assert_eq!(payload_text("u", -1, "n"), "u:-1:n");
    let parts = TokenParts {
        user_id: "u".to_string(),
        version: -1,
        nonce: "n".to_string(),
        signature: "sig".to_string(),
    };
    assert_eq!(parse_token_text("u:-1:n:sig"), Some(parts));
    assert_eq!(parse_token_text("u:-1:n"), None);
    let parts = parse_token_text("u:-1:n:sig").unwrap();
    assert_eq!(
        accept(parts, "sig"),
        Some(TokenData { user_id: "u".to_string(), version: -1 })
    );
    let parts = parse_token_text("u:-1:n:sig").unwrap();
    assert_eq!(accept(parts, "gis"), None);
}
