use iterate::aead::{decrypt, encrypt};
use iterate::cryptoenvelope::CryptoEnvelope;
use iterate::error::IterateError;
use iterate::gatekeeper::{initialize_key_store, master_key_aad, verify_password, KeyStoreRow};
use iterate::kdf::KdfParams;
use iterate::records::encrypt_record;
use iterate::rng::SystemRng;

fn salt_of(blob: &[u8]) -> Vec<u8> {
    match KdfParams::from_bytes(blob).unwrap() {
        KdfParams::Argon2idV1 { salt, .. } => salt,
    }
}

fn nonce_of(blob: &[u8]) -> Vec<u8> {
    match CryptoEnvelope::from_blob(blob).unwrap() {
        CryptoEnvelope::V1(p) => p.nonce,
    }
}

#[test]
fn concrete_scenario_initialize_persist_reopen_verify() {
    let mut rng = SystemRng;
    let (keys, row) = initialize_key_store(&mut rng, b"correct-horse-battery").unwrap();

    // Close and reopen, simulated by carrying only the persisted blobs over.
    let reopened = KeyStoreRow {
        kdf_params: row.kdf_params.clone(),
        wrapped_key: row.wrapped_key.clone(),
    };
    let recovered = verify_password(Some(&reopened), b"correct-horse-battery").unwrap();
    assert_eq!(recovered.content, keys.content);
    assert_eq!(recovered.meta, keys.meta);

    let rejected = verify_password(Some(&reopened), b"wrong-password");
    assert!(matches!(rejected, Err(IterateError::InvalidPassword)));
}

#[test]
fn near_miss_passwords_are_rejected() {
    let mut rng = SystemRng;
    let (_keys, row) = initialize_key_store(&mut rng, b"correct-horse-battery").unwrap();
    let near_misses: [&[u8]; 4] = [
        b"Correct-horse-battery",
        b"correct-horse-battery ",
        b"correct-horse-batter",
        b"",
    ];
    for pw in near_misses {
        let r = verify_password(Some(&row), pw);
        assert!(matches!(r, Err(IterateError::InvalidPassword)));
    }
}

#[test]
fn missing_key_store_row_is_not_a_password_error() {
    let r = verify_password(None, b"correct-horse-battery");
    assert!(matches!(r, Err(IterateError::MissingIntegrityRecord)));
}

#[test]
fn fresh_journals_never_share_salt_nonce_or_wrapped_key() {
    let mut rng = SystemRng;
    let mut salts: Vec<Vec<u8>> = Vec::new();
    let mut nonces: Vec<Vec<u8>> = Vec::new();
    let mut wrapped: Vec<Vec<u8>> = Vec::new();
    for _ in 0..3 {
        let (_keys, row) = initialize_key_store(&mut rng, b"same password").unwrap();
        salts.push(salt_of(&row.kdf_params));
        nonces.push(nonce_of(&row.wrapped_key));
        wrapped.push(row.wrapped_key);
    }
    for i in 0..salts.len() {
        for j in 0..i {
            assert_ne!(salts[i], salts[j]);
            assert_ne!(nonces[i], nonces[j]);
            assert_ne!(wrapped[i], wrapped[j]);
        }
    }
}

#[test]
fn distinct_journals_with_same_password_yield_distinct_service_keys() {
    let mut rng = SystemRng;
    let (k1, _r1) = initialize_key_store(&mut rng, b"same password").unwrap();
    let (k2, _r2) = initialize_key_store(&mut rng, b"same password").unwrap();
    assert_ne!(k1.content, k2.content);
    assert_ne!(k1.meta, k2.meta);
}

#[test]
fn tampered_kdf_blob_fails_closed() {
    let mut rng = SystemRng;
    let (_keys, row) = initialize_key_store(&mut rng, b"pw").unwrap();

    let mut truncated = row.kdf_params.clone();
    truncated.pop();
    let bad = KeyStoreRow { kdf_params: truncated, wrapped_key: row.wrapped_key.clone() };
    assert!(matches!(
        verify_password(Some(&bad), b"pw"),
        Err(IterateError::SerializationFailed)
    ));

    // A flipped salt byte still parses, but derives the wrong key-encryption
    // key: indistinguishable from a wrong password.
    let mut salted = row.kdf_params.clone();
    salted[1] ^= 1;
    let bad = KeyStoreRow { kdf_params: salted, wrapped_key: row.wrapped_key.clone() };
    assert!(matches!(verify_password(Some(&bad), b"pw"), Err(IterateError::InvalidPassword)));
}

#[test]
fn tampered_wrapped_key_blob_is_an_invalid_password() {
    let mut rng = SystemRng;
    let (_keys, row) = initialize_key_store(&mut rng, b"pw").unwrap();

    let mut truncated = row.wrapped_key.clone();
    truncated.truncate(10);
    let bad = KeyStoreRow { kdf_params: row.kdf_params.clone(), wrapped_key: truncated };
    assert!(matches!(
        verify_password(Some(&bad), b"pw"),
        Err(IterateError::SerializationFailed)
    ));

    let mut flipped = row.wrapped_key.clone();
    let last = flipped.len() - 1;
    flipped[last] ^= 1;
    let bad = KeyStoreRow { kdf_params: row.kdf_params.clone(), wrapped_key: flipped };
    assert!(matches!(verify_password(Some(&bad), b"pw"), Err(IterateError::InvalidPassword)));
}

#[test]
fn wrapped_payload_of_wrong_size_is_a_decryption_failure() {
    let mut rng = SystemRng;
    let params = KdfParams::try_new(&mut rng).unwrap();
    let kek = params.derive_key_encryption_key(b"pw").unwrap();
    let short_secret = vec![0x77u8; 31];
    let envelope = encrypt(&mut rng, &kek, &short_secret, &master_key_aad()).unwrap();
    let row = KeyStoreRow {
        kdf_params: params.to_blob().unwrap(),
        wrapped_key: envelope.to_blob().unwrap(),
    };
    assert!(matches!(
        verify_password(Some(&row), b"pw"),
        Err(IterateError::DecryptionFailed)
    ));
}

#[test]
fn record_blob_decrypts_only_under_its_own_identifier() {
    let mut rng = SystemRng;
    let (keys, _row) = initialize_key_store(&mut rng, b"pw").unwrap();
    let record_id = b"018f3a2e-record-id".to_vec();
    let blob = encrypt_record(&mut rng, &keys, &record_id, b"dear diary").unwrap();

    let envelope = CryptoEnvelope::from_blob(&blob).unwrap();
    let body = decrypt(&keys.content, &envelope, &record_id).unwrap();
    assert_eq!(body, b"dear diary".to_vec());

    let other_id = b"018f3a2e-other-row".to_vec();
    assert!(matches!(
        decrypt(&keys.content, &envelope, &other_id),
        Err(IterateError::AeadIntegrityFailure)
    ));
    assert!(matches!(
        decrypt(&keys.meta, &envelope, &record_id),
        Err(IterateError::AeadIntegrityFailure)
    ));
}

#[test]
fn wrapped_key_blob_is_bound_to_the_key_wrapping_context() {
    let mut rng = SystemRng;
    let (_keys, row) = initialize_key_store(&mut rng, b"pw").unwrap();
    let params = KdfParams::from_bytes(&row.kdf_params).unwrap();
    let kek = params.derive_key_encryption_key(b"pw").unwrap();
    let envelope = CryptoEnvelope::from_blob(&row.wrapped_key).unwrap();
    let master_key = decrypt(&kek, &envelope, &master_key_aad()).unwrap();
    assert_eq!(master_key.len(), 32);
    assert!(matches!(
        decrypt(&kek, &envelope, b"some-other-context"),
        Err(IterateError::AeadIntegrityFailure)
    ));
}
