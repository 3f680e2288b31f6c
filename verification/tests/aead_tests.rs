use iterate::aead::{decrypt, encrypt};
use iterate::cryptoenvelope::{AesGcmPacked, CryptoEnvelope};
use iterate::error::IterateError;
use iterate::rng::SystemRng;

fn key_of(byte: u8) -> Vec<u8> {
    vec![byte; 32]
}

fn clone_packed(env: &CryptoEnvelope) -> AesGcmPacked {
    match env {
        CryptoEnvelope::V1(p) => AesGcmPacked {
            nonce: p.nonce.clone(),
            ciphertext: p.ciphertext.clone(),
            tag: p.tag.clone(),
        },
    }
}

#[test]
fn aead_round_trip_returns_original_plaintext() {
    let mut rng = SystemRng;
    let key = key_of(7);
    let plaintext = b"an evening entry, words worth keeping".to_vec();
    let aad = b"record-0001".to_vec();
    let env = encrypt(&mut rng, &key, &plaintext, &aad).unwrap();
    let out = decrypt(&key, &env, &aad).unwrap();
    assert_eq!(out, plaintext);
}

#[test]
fn aead_round_trip_empty_plaintext_and_empty_aad() {
    let mut rng = SystemRng;
    let key = key_of(1);
    let env = encrypt(&mut rng, &key, &[], &[]).unwrap();
    let out = decrypt(&key, &env, &[]).unwrap();
    assert!(out.is_empty());
}

#[test]
fn ciphertext_is_plaintext_length_and_not_plaintext() {
    let mut rng = SystemRng;
    let key = key_of(3);
    let plaintext = b"0123456789abcdef".to_vec();
    let env = encrypt(&mut rng, &key, &plaintext, b"ctx").unwrap();
    let CryptoEnvelope::V1(p) = &env;
    assert_eq!(p.ciphertext.len(), plaintext.len());
    assert_eq!(p.nonce.len(), 12);
    assert_eq!(p.tag.len(), 16);
    assert_ne!(p.ciphertext, plaintext);
}

#[test]
fn flipping_any_bit_of_nonce_ciphertext_or_tag_fails_decryption() {
    let mut rng = SystemRng;
    let key = key_of(9);
    let plaintext = b"tamper".to_vec();
    let aad = b"ctx".to_vec();
    let env = encrypt(&mut rng, &key, &plaintext, &aad).unwrap();
    let packed = clone_packed(&env);

    for byte_idx in 0..packed.nonce.len() {
        for bit in 0..8 {
            let mut p = clone_packed(&env);
            p.nonce[byte_idx] ^= 1 << bit;
            let r = decrypt(&key, &CryptoEnvelope::V1(p), &aad);
            assert!(matches!(r, Err(IterateError::AeadIntegrityFailure)));
        }
    }
    for byte_idx in 0..packed.ciphertext.len() {
        for bit in 0..8 {
            let mut p = clone_packed(&env);
            p.ciphertext[byte_idx] ^= 1 << bit;
            let r = decrypt(&key, &CryptoEnvelope::V1(p), &aad);
            assert!(matches!(r, Err(IterateError::AeadIntegrityFailure)));
        }
    }
    for byte_idx in 0..packed.tag.len() {
        for bit in 0..8 {
            let mut p = clone_packed(&env);
            p.tag[byte_idx] ^= 1 << bit;
            let r = decrypt(&key, &CryptoEnvelope::V1(p), &aad);
            assert!(matches!(r, Err(IterateError::AeadIntegrityFailure)));
        }
    }
}

#[test]
fn mismatched_associated_data_fails_decryption() {
    let mut rng = SystemRng;
    let key = key_of(5);
    let env = encrypt(&mut rng, &key, b"payload", b"context-one").unwrap();
    let r = decrypt(&key, &env, b"context-two");
    assert!(matches!(r, Err(IterateError::AeadIntegrityFailure)));
    let ok = decrypt(&key, &env, b"context-one").unwrap();
    assert_eq!(ok, b"payload".to_vec());
}

#[test]
fn wrong_key_fails_decryption() {
    let mut rng = SystemRng;
    let key = key_of(11);
    let env = encrypt(&mut rng, &key, b"payload", b"ctx").unwrap();
    let mut other = key_of(11);
    other[31] ^= 1;
    let r = decrypt(&other, &env, b"ctx");
    assert!(matches!(r, Err(IterateError::AeadIntegrityFailure)));
}

#[test]
fn envelope_blob_round_trip() {
    let mut rng = SystemRng;
    let key = key_of(13);
    let env = encrypt(&mut rng, &key, b"framed", b"ctx").unwrap();
    let blob = env.to_blob().unwrap();
    let parsed = CryptoEnvelope::from_blob(&blob).unwrap();
    let CryptoEnvelope::V1(orig) = &env;
    let CryptoEnvelope::V1(back) = &parsed;
    assert_eq!(orig.nonce, back.nonce);
    assert_eq!(orig.ciphertext, back.ciphertext);
    assert_eq!(orig.tag, back.tag);
    let out = decrypt(&key, &parsed, b"ctx").unwrap();
    assert_eq!(out, b"framed".to_vec());
}

#[test]
fn envelope_blob_layout_is_version_nonce_tag_ciphertext() {
    let env = CryptoEnvelope::V1(AesGcmPacked {
        nonce: (0u8..12).collect(),
        ciphertext: vec![200, 201, 202],
        tag: (100u8..116).collect(),
    });
    let blob = env.to_blob().unwrap();
    let mut expected = vec![1u8];
    expected.extend(0u8..12);
    expected.extend(100u8..116);
    expected.extend([200, 201, 202]);
    assert_eq!(blob, expected);
}

#[test]
fn truncated_envelope_blob_fails_closed() {
    let r = CryptoEnvelope::from_blob(&[1u8; 28]);
    assert!(matches!(r, Err(IterateError::SerializationFailed)));
    let r = CryptoEnvelope::from_blob(&[]);
    assert!(matches!(r, Err(IterateError::SerializationFailed)));
}

#[test]
fn unknown_envelope_version_fails_closed() {
    let mut blob = vec![2u8];
    blob.extend([0u8; 28]);
    let r = CryptoEnvelope::from_blob(&blob);
    assert!(matches!(r, Err(IterateError::SerializationFailed)));
}

#[test]
fn ill_formed_envelope_cannot_be_framed() {
    let env = CryptoEnvelope::V1(AesGcmPacked {
        nonce: vec![0u8; 11],
        ciphertext: vec![],
        tag: vec![0u8; 16],
    });
    assert!(matches!(env.to_blob(), Err(IterateError::SerializationFailed)));
}
