use iterate::error::IterateError;
use iterate::kdf::{derive_service_keys, KdfParams};
use iterate::rng::SystemRng;

fn fresh_params() -> KdfParams {
    let mut rng = SystemRng;
    KdfParams::try_new(&mut rng).unwrap()
}

fn salt_of(params: &KdfParams) -> Vec<u8> {
    match params {
        KdfParams::Argon2idV1 { salt, .. } => salt.clone(),
    }
}

#[test]
fn fresh_params_carry_fixed_costs_and_random_salt() {
    let params = fresh_params();
    match &params {
        KdfParams::Argon2idV1 { salt, m_cost, t_cost, p_cost } => {
            assert_eq!(salt.len(), 16);
            assert_eq!(*m_cost, 64 * 1024);
            assert_eq!(*t_cost, 3);
            assert_eq!(*p_cost, 4);
        }
    }
}

#[test]
fn params_blob_round_trip() {
    let params = fresh_params();
    let blob = params.to_blob().unwrap();
    assert_eq!(blob.len(), 29);
    let parsed = KdfParams::from_bytes(&blob).unwrap();
    match (&params, &parsed) {
        (
            KdfParams::Argon2idV1 { salt: s1, m_cost: m1, t_cost: t1, p_cost: p1 },
            KdfParams::Argon2idV1 { salt: s2, m_cost: m2, t_cost: t2, p_cost: p2 },
        ) => {
            assert_eq!(s1, s2);
            assert_eq!(m1, m2);
            assert_eq!(t1, t2);
            assert_eq!(p1, p2);
        }
    }
}

#[test]
fn params_blob_layout_is_version_salt_then_costs_little_endian() {
    let params = KdfParams::Argon2idV1 {
        salt: (10u8..26).collect(),
        m_cost: 0x0102_0304,
        t_cost: 5,
        p_cost: 6,
    };
    let blob = params.to_blob().unwrap();
    let mut expected = vec![1u8];
    expected.extend(10u8..26);
    expected.extend([0x04, 0x03, 0x02, 0x01]);
    expected.extend([5, 0, 0, 0]);
    expected.extend([6, 0, 0, 0]);
    assert_eq!(blob, expected);
}

#[test]
fn params_blob_of_wrong_length_fails_closed() {
    assert!(matches!(
        KdfParams::from_bytes(&[1u8; 28]),
        Err(IterateError::SerializationFailed)
    ));
    assert!(matches!(
        KdfParams::from_bytes(&[1u8; 30]),
        Err(IterateError::SerializationFailed)
    ));
    assert!(matches!(KdfParams::from_bytes(&[]), Err(IterateError::SerializationFailed)));
}

#[test]
fn params_blob_of_unknown_version_fails_closed() {
    let mut blob = vec![9u8];
    blob.extend([0u8; 28]);
    assert!(matches!(
        KdfParams::from_bytes(&blob),
        Err(IterateError::SerializationFailed)
    ));
}

#[test]
fn ill_formed_salt_cannot_be_framed() {
    let params = KdfParams::Argon2idV1 { salt: vec![0u8; 15], m_cost: 8, t_cost: 1, p_cost: 1 };
    assert!(matches!(params.to_blob(), Err(IterateError::SerializationFailed)));
}

#[test]
fn key_encryption_key_is_deterministic_and_32_bytes() {
    let params = fresh_params();
    let k1 = params.derive_key_encryption_key(b"a modest password").unwrap();
    let k2 = params.derive_key_encryption_key(b"a modest password").unwrap();
    assert_eq!(k1.len(), 32);
    assert_eq!(k1, k2);
    let k3 = params.derive_key_encryption_key(b"another password").unwrap();
    assert_ne!(k1, k3);
}

#[test]
fn different_salts_give_different_key_encryption_keys() {
    let p1 = fresh_params();
    let p2 = fresh_params();
    assert_ne!(salt_of(&p1), salt_of(&p2));
    let k1 = p1.derive_key_encryption_key(b"same password").unwrap();
    let k2 = p2.derive_key_encryption_key(b"same password").unwrap();
    assert_ne!(k1, k2);
}

#[test]
fn invalid_cost_parameters_fail_key_derivation() {
    let zero_memory =
        KdfParams::Argon2idV1 { salt: vec![0u8; 16], m_cost: 0, t_cost: 3, p_cost: 4 };
    assert!(matches!(
        zero_memory.derive_key_encryption_key(b"pw"),
        Err(IterateError::KeyDerivationFailed)
    ));
    let zero_time = KdfParams::Argon2idV1 { salt: vec![0u8; 16], m_cost: 64, t_cost: 0, p_cost: 1 };
    assert!(matches!(
        zero_time.derive_key_encryption_key(b"pw"),
        Err(IterateError::KeyDerivationFailed)
    ));
    let memory_below_lanes =
        KdfParams::Argon2idV1 { salt: vec![0u8; 16], m_cost: 16, t_cost: 1, p_cost: 4 };
    assert!(matches!(
        memory_below_lanes.derive_key_encryption_key(b"pw"),
        Err(IterateError::KeyDerivationFailed)
    ));
}

#[test]
fn short_salt_fails_key_derivation() {
    let params = KdfParams::Argon2idV1 { salt: vec![0u8; 4], m_cost: 64, t_cost: 1, p_cost: 1 };
    assert!(matches!(
        params.derive_key_encryption_key(b"pw"),
        Err(IterateError::KeyDerivationFailed)
    ));
}

#[test]
fn service_keys_are_deterministic_in_the_master_key() {
    let master = vec![0xabu8; 32];
    let a = derive_service_keys(&master).unwrap();
    let b = derive_service_keys(&master).unwrap();
    assert_eq!(a.content, b.content);
    assert_eq!(a.meta, b.meta);
    assert_eq!(a.content.len(), 32);
    assert_eq!(a.meta.len(), 32);
    assert_ne!(a.content, a.meta);
}

#[test]
fn different_master_keys_share_no_service_key_bytes_in_sequence() {
    let a = derive_service_keys(&vec![0x01u8; 32]).unwrap();
    let b = derive_service_keys(&vec![0x02u8; 32]).unwrap();
    assert_ne!(a.content, b.content);
    assert_ne!(a.meta, b.meta);
    let same_position_matches = a
        .content
        .iter()
        .zip(b.content.iter())
        .filter(|(x, y)| x == y)
        .count();
    assert!(same_position_matches < 8);
}

#[test]
fn service_keys_erase_clears_both_subkeys() {
    let mut keys = derive_service_keys(&vec![0x55u8; 32]).unwrap();
    keys.erase();
    assert!(keys.content.is_empty());
    assert!(keys.meta.is_empty());
}
