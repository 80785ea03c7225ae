use base64::engine::general_purpose;
use base64::Engine as _;
use steamboard::errors::{ErrClass, ErrorType};
use steamboard::vault::{bootstrap_secret_plan, decrypt, encrypt, SecretPlan};

#[test]
fn round_trip_recovers_plaintext() {
    let token = encrypt("correct horse", "partner-api-key-123").unwrap();
    let plain = decrypt("correct horse", &token).unwrap();
    assert_eq!(plain, "partner-api-key-123");
}

#[test]
fn round_trip_empty_plaintext() {
    let token = encrypt("pw", "").unwrap();
    assert_eq!(decrypt("pw", &token).unwrap(), "");
}

#[test]
fn round_trip_unicode_plaintext() {
    let token = encrypt("mot de passe", "clé-secrète-日本語").unwrap();
    assert_eq!(decrypt("mot de passe", &token).unwrap(), "clé-secrète-日本語");
}

#[test]
fn token_has_three_comma_fields() {
    let token = encrypt("pw", "payload").unwrap();
    let parts: Vec<&str> = token.split(',').collect();
    assert_eq!(parts.len(), 3);
}

#[test]
fn token_fields_are_ciphertext_salt_and_nonce() {
    let plaintext = "partner-api-key-123";
    let token = encrypt("pw", plaintext).unwrap();
    let parts: Vec<&str> = token.split(',').collect();
    let ciphertext = general_purpose::STANDARD.decode(parts[0]).unwrap();
    let salt = general_purpose::STANDARD.decode(parts[1]).unwrap();
    let nonce = general_purpose::STANDARD.decode(parts[2]).unwrap();
    assert_eq!(ciphertext.len(), plaintext.len() + 16);
    assert_eq!(salt.len(), 16);
    assert_eq!(nonce.len(), 12);
}

#[test]
fn fresh_salt_and_nonce_per_call() {
    let t1 = encrypt("pw", "same").unwrap();
    let t2 = encrypt("pw", "same").unwrap();
    let f1: Vec<&str> = t1.split(',').collect();
    let f2: Vec<&str> = t2.split(',').collect();
    assert_ne!((f1[1], f1[2]), (f2[1], f2[2]), "salt and nonce must be drawn fresh");
}

#[test]
fn wrong_password_fails_with_token_class() {
    let token = encrypt("password-one", "payload").unwrap();
    let err = decrypt("password-two", &token).unwrap_err();
    assert_eq!(err.class(), ErrClass::BadToken);
}

#[test]
fn tampered_ciphertext_fails_with_token_class() {
    let token = encrypt("pw", "payload").unwrap();
    let parts: Vec<&str> = token.split(',').collect();
    // Re-encode a corrupted ciphertext of the same length.
    let flipped = if parts[0].starts_with('A') {
        format!("B{}", &parts[0][1..])
    } else {
        format!("A{}", &parts[0][1..])
    };
    let tampered = format!("{},{},{}", flipped, parts[1], parts[2]);
    let err = decrypt("pw", &tampered).unwrap_err();
    assert_eq!(err.class(), ErrClass::BadToken);
}

#[test]
fn malformed_token_fails_with_formatting_class() {
    for bad in ["", "justonefield", "two,fields", "a,b,c,d", ",,,"] {
        let err = decrypt("pw", bad).unwrap_err();
        assert_eq!(err.class(), ErrClass::BadFormatting, "token {:?}", bad);
    }
}

#[test]
fn non_base64_fields_fail_with_formatting_class() {
    let err = decrypt("pw", "!!!,###,$$$").unwrap_err();
    assert_eq!(err.class(), ErrClass::BadFormatting);
}

#[test]
fn wrong_nonce_length_fails_with_formatting_class() {
    // Three valid base64 fields, but the nonce decodes to 3 bytes.
    let err = decrypt("pw", "AAAA,AAAAAAAAAAAAAAAAAAAAAA==,AAAA").unwrap_err();
    assert_eq!(err.class(), ErrClass::BadFormatting);
}

#[test]
fn bootstrap_keeps_existing_secret() {
    let plan = bootstrap_secret_plan(Ok("existing".to_string())).unwrap();
    match plan {
        SecretPlan::UseExisting(s) => assert_eq!(s, "existing"),
        _ => panic!("expected the existing secret to be kept"),
    }
}

#[test]
fn bootstrap_generates_on_missing() {
    let plan = bootstrap_secret_plan(Err(ErrorType::Missing("no entry".to_string()))).unwrap();
    match plan {
        SecretPlan::StoreFresh(s) => {
            // 16 random bytes encode to 24 base64 characters.
            assert_eq!(s.len(), 24);
            assert!(!s.contains(','));
        },
        _ => panic!("expected a fresh secret"),
    }
}

#[test]
fn bootstrap_propagates_denial_without_retry() {
    let err = bootstrap_secret_plan(Err(ErrorType::Forbidden("denied".to_string()))).unwrap_err();
    assert_eq!(err.class(), ErrClass::Forbidden);
    assert_eq!(err.message(), "denied");
}
