use vstd::prelude::*;

use crate::aead;
use crate::aead::{is_encryption_of, spec_gcm_seal};
use crate::constants::{
    AES_GCM_NONCE_LEN, AES_GCM_TAG_LEN, ARGON2_MEMORY_COST, ARGON2_PARALLELISM, ARGON2_SALT_LEN,
    ARGON2_TIME_COST, GCM_P_MAX, MASTER_KEY_LEN,
};
use crate::cryptoenvelope::{lemma_envelope_bytes_injective, spec_envelope_bytes, CryptoEnvelope};
use crate::error::IterateError;
use crate::kdf::{
    derive_service_keys, lemma_kdf_bytes_injective, spec_argon2id_key, spec_content_key,
    spec_kdf_bytes, spec_meta_key, KdfParams,
};
use crate::rng::{wipe_bytes, SystemRng};
use crate::servicekeys::ServiceKeys;

verus! {

/// The single persisted root-of-trust artifact for one journal: the framed
/// KDF parameters, and the framed envelope wrapping the master key.
pub struct KeyStoreRow {
    pub kdf_params: Vec<u8>,
    pub wrapped_key: Vec<u8>,
}

/// The associated data that binds the wrapped master key to its purpose,
/// the ASCII bytes of "master-key-wrapping-v1".
pub open spec fn spec_master_key_aad() -> Seq<u8> {
    seq![109u8, 97, 115, 116, 101, 114, 45, 107, 101, 121, 45, 119, 114, 97, 112, 112, 105, 110, 103, 45, 118, 49]
}

pub fn master_key_aad() -> (r: Vec<u8>)
    ensures
        r@ == spec_master_key_aad(),
{
    let v: Vec<u8> = vec![
        109u8, 97, 115, 116, 101, 114, 45, 107, 101, 121, 45, 119, 114, 97, 112, 112, 105, 110,
        103, 45, 118, 49,
    ];
    proof {
        assert(v@ =~= spec_master_key_aad());
    }
    v
}

/// A key-store row that journal creation can produce for `password` with a
/// given salt, master key and nonce: the KDF blob frames that salt and the
/// fixed cost constants, and the wrapped-key blob frames the AES-256-GCM
/// wrapping of the master key under the password-derived key-encryption
/// key, bound to the key-wrapping context.
pub open spec fn spec_initialized_row(
    password: Seq<u8>,
    kdf_blob: Seq<u8>,
    wrapped_blob: Seq<u8>,
    salt: Seq<u8>,
    master_key: Seq<u8>,
    nonce: Seq<u8>,
) -> bool {
    let kek = spec_argon2id_key(
        password,
        salt,
        ARGON2_MEMORY_COST,
        ARGON2_TIME_COST,
        ARGON2_PARALLELISM,
    );
    let sealed = spec_gcm_seal(kek, nonce, spec_master_key_aad(), master_key);
    &&& salt.len() == ARGON2_SALT_LEN
    &&& master_key.len() == MASTER_KEY_LEN
    &&& nonce.len() == AES_GCM_NONCE_LEN
    &&& sealed.len() == MASTER_KEY_LEN + AES_GCM_TAG_LEN
    &&& kdf_blob == spec_kdf_bytes(
        salt,
        ARGON2_MEMORY_COST,
        ARGON2_TIME_COST,
        ARGON2_PARALLELISM,
    )
    &&& wrapped_blob == spec_envelope_bytes(
        nonce,
        sealed.subrange(0, MASTER_KEY_LEN as int),
        sealed.subrange(MASTER_KEY_LEN as int, sealed.len() as int),
    )
}

/// A key-store row unwraps to `master_key` under `password`: its KDF blob
/// frames some parameter set, its wrapped-key blob frames some envelope,
/// and that envelope is exactly the sealing of `master_key` under the
/// key-encryption key those parameters derive from `password`.
pub open spec fn spec_unwraps_to(
    password: Seq<u8>,
    kdf_blob: Seq<u8>,
    wrapped_blob: Seq<u8>,
    master_key: Seq<u8>,
) -> bool {
    exists|salt: Seq<u8>, m_cost: u32, t_cost: u32, p_cost: u32, nonce: Seq<u8>, ct: Seq<u8>, tag: Seq<u8>|
        {
            &&& salt.len() == ARGON2_SALT_LEN
            &&& nonce.len() == AES_GCM_NONCE_LEN
            &&& tag.len() == AES_GCM_TAG_LEN
            &&& ct.len() == master_key.len()
            &&& kdf_blob == #[trigger] spec_kdf_bytes(salt, m_cost, t_cost, p_cost)
            &&& wrapped_blob == #[trigger] spec_envelope_bytes(nonce, ct, tag)
            &&& ct + tag == spec_gcm_seal(
                spec_argon2id_key(password, salt, m_cost, t_cost, p_cost),
                nonce,
                spec_master_key_aad(),
                master_key,
            )
        }
}

/// Password round trip, at the artifact level: any key-store row that
/// journal creation can produce for a password unwraps, under that same
/// password, to exactly the master key it was created with.
pub proof fn lemma_initialized_row_unwraps(
    password: Seq<u8>,
    kdf_blob: Seq<u8>,
    wrapped_blob: Seq<u8>,
    salt: Seq<u8>,
    master_key: Seq<u8>,
    nonce: Seq<u8>,
)
    requires
        spec_initialized_row(password, kdf_blob, wrapped_blob, salt, master_key, nonce),
    ensures
        spec_unwraps_to(password, kdf_blob, wrapped_blob, master_key),
{
    let kek = spec_argon2id_key(
        password,
        salt,
        ARGON2_MEMORY_COST,
        ARGON2_TIME_COST,
        ARGON2_PARALLELISM,
    );
    let sealed = spec_gcm_seal(kek, nonce, spec_master_key_aad(), master_key);
    let ct = sealed.subrange(0, MASTER_KEY_LEN as int);
    let tag = sealed.subrange(MASTER_KEY_LEN as int, sealed.len() as int);
    assert(ct + tag =~= sealed);
    assert(kdf_blob == spec_kdf_bytes(
        salt,
        ARGON2_MEMORY_COST,
        ARGON2_TIME_COST,
        ARGON2_PARALLELISM,
    ));
    assert(wrapped_blob == spec_envelope_bytes(nonce, ct, tag));
}

/// What a successful journal creation hands back: for some salt, master key
/// and nonce (all fresh and random), the returned row is exactly the
/// initialized row for them, and the returned service keys are the master
/// key's expansion.
pub open spec fn spec_initialize_ok(
    password: Seq<u8>,
    keys: ServiceKeys,
    kdf_blob: Seq<u8>,
    wrapped_blob: Seq<u8>,
) -> bool {
    exists|salt: Seq<u8>, master_key: Seq<u8>, nonce: Seq<u8>|
        #[trigger] spec_initialized_row(password, kdf_blob, wrapped_blob, salt, master_key, nonce)
            && keys.content@ == spec_content_key(master_key) && keys.meta@ == spec_meta_key(
            master_key,
        )
}

/// Create the root of trust for a fresh journal: generate KDF parameters
/// and a random 32-byte master key, wrap the master key under the
/// password-derived key-encryption key, and hand back both the service keys
/// and the single row the storage collaborator must persist. The
/// key-encryption key and the master key are erased before returning, on
/// success and on every error path alike. A randomness failure is fatal;
/// beyond that, only the password hash itself can fail.
pub fn initialize_key_store(rng: &mut SystemRng, password: &[u8]) -> (r: Result<
    (ServiceKeys, KeyStoreRow),
    IterateError,
>)
    ensures
        r matches Ok(out) ==> out.0.well_formed() && spec_initialize_ok(
            password@,
            out.0,
            out.1.kdf_params@,
            out.1.wrapped_key@,
        ),
        r matches Err(e) ==> e == IterateError::SystemRngFailure || e
            == IterateError::KeyDerivationFailed,
{
    let kdf_params = match KdfParams::try_new(rng) {
        Ok(p) => p,
        Err(e) => {
            return Err(e);
        },
    };
    let mut kek = match kdf_params.derive_key_encryption_key(password) {
        Ok(k) => k,
        Err(e) => {
            return Err(e);
        },
    };
    let ghost kek_view = kek@;
    let mut master_key = match rng.try_fill(MASTER_KEY_LEN) {
        Ok(mk) => mk,
        Err(e) => {
            wipe_bytes(&mut kek);
            return Err(e);
        },
    };
    let ghost master_key_view = master_key@;
    let aad = master_key_aad();
    let envelope = match aead::encrypt(rng, kek.as_slice(), master_key.as_slice(), aad.as_slice())
        {
        Ok(env) => env,
        Err(e) => {
            wipe_bytes(&mut kek);
            wipe_bytes(&mut master_key);
            return Err(e);
        },
    };
    wipe_bytes(&mut kek);
    let kdf_blob = match kdf_params.to_blob() {
        Ok(b) => b,
        Err(e) => {
            wipe_bytes(&mut master_key);
            return Err(e);
        },
    };
    let wrapped_blob = match envelope.to_blob() {
        Ok(b) => b,
        Err(e) => {
            wipe_bytes(&mut master_key);
            return Err(e);
        },
    };
    let keys = match derive_service_keys(master_key.as_slice()) {
        Ok(k) => k,
        Err(e) => {
            wipe_bytes(&mut master_key);
            return Err(e);
        },
    };
    wipe_bytes(&mut master_key);
    let row = KeyStoreRow { kdf_params: kdf_blob, wrapped_key: wrapped_blob };
    proof {
        let salt = kdf_params.spec_salt();
        let nonce = envelope.spec_nonce();
        let sealed = spec_gcm_seal(kek_view, nonce, spec_master_key_aad(), master_key_view);
        assert(envelope.spec_ciphertext() + envelope.spec_tag() == sealed);
        assert(envelope.spec_ciphertext() =~= sealed.subrange(0, MASTER_KEY_LEN as int));
        assert(envelope.spec_tag() =~= sealed.subrange(MASTER_KEY_LEN as int, sealed.len() as int));
        assert(spec_initialized_row(
            password@,
            row.kdf_params@,
            row.wrapped_key@,
            salt,
            master_key_view,
            nonce,
        ));
        assert(spec_initialize_ok(password@, keys, row.kdf_params@, row.wrapped_key@));
    }
    Ok((keys, row))
}

/// Unlocking is complete: on a row that journal creation produced for this
/// same password, the result is the service keys of the row's own master
/// key — never an integrity or password error. Only the password hash's
/// resource failure can intervene.
pub open spec fn spec_verify_complete(
    r: Result<ServiceKeys, IterateError>,
    password: Seq<u8>,
    kdf_blob: Seq<u8>,
    wrapped_blob: Seq<u8>,
) -> bool {
    forall|salt: Seq<u8>, master_key: Seq<u8>, nonce: Seq<u8>|
        #[trigger] spec_initialized_row(password, kdf_blob, wrapped_blob, salt, master_key, nonce)
            ==> ((r matches Ok(k) && k.content@ == spec_content_key(master_key) && k.meta@
            == spec_meta_key(master_key)) || r == Err::<ServiceKeys, IterateError>(
            IterateError::KeyDerivationFailed,
        ))
}

/// Unlocking is sound: service keys only ever come from a master key that
/// the row's own blobs unwrap to under the password that was presented.
pub open spec fn spec_verify_sound(
    r: Result<ServiceKeys, IterateError>,
    password: Seq<u8>,
    kdf_blob: Seq<u8>,
    wrapped_blob: Seq<u8>,
) -> bool {
    r matches Ok(k) ==> k.well_formed() && exists|master_key: Seq<u8>|
        #[trigger] spec_unwraps_to(password, kdf_blob, wrapped_blob, master_key)
            && master_key.len() == MASTER_KEY_LEN && k.content@ == spec_content_key(master_key)
            && k.meta@ == spec_meta_key(master_key)
}

/// What an `InvalidPassword` outcome means: no master key at all — within
/// the AES-GCM plaintext bound — unwraps from this row under the password
/// that was presented. Wrong password and tampered row are one and the
/// same outcome.
pub open spec fn spec_verify_rejects(
    r: Result<ServiceKeys, IterateError>,
    password: Seq<u8>,
    kdf_blob: Seq<u8>,
    wrapped_blob: Seq<u8>,
) -> bool {
    r == Err::<ServiceKeys, IterateError>(IterateError::InvalidPassword)
        ==> forall|master_key: Seq<u8>|
        master_key.len() <= GCM_P_MAX ==> !#[trigger] spec_unwraps_to(
            password,
            kdf_blob,
            wrapped_blob,
            master_key,
        )
}

/// Recover the service keys for an existing journal from its persisted
/// key-store row and the user's password.
///
/// A missing row is `MissingIntegrityRecord` — a corruption signal kept
/// distinct from a wrong password. The stored KDF parameters are read back
/// verbatim, never regenerated. Any failure to unwrap the master key —
/// wrong password or tampered blobs — is reported as the single
/// `InvalidPassword` error, so a caller cannot tell the two apart. With the
/// creating password and an untampered row, the original service keys are
/// returned bit for bit; only the password hash's own resource failure can
/// intervene.
pub fn verify_password(row: Option<&KeyStoreRow>, password: &[u8]) -> (r: Result<
    ServiceKeys,
    IterateError,
>)
    ensures
        row is None ==> r == Err::<ServiceKeys, IterateError>(
            IterateError::MissingIntegrityRecord,
        ),
        row matches Some(rw) ==> spec_verify_complete(
            r,
            password@,
            rw.kdf_params@,
            rw.wrapped_key@,
        ),
        row matches Some(rw) ==> spec_verify_sound(r, password@, rw.kdf_params@, rw.wrapped_key@),
        r matches Err(e) ==> e == IterateError::MissingIntegrityRecord || e
            == IterateError::SerializationFailed || e == IterateError::KeyDerivationFailed || e
            == IterateError::InvalidPassword || e == IterateError::DecryptionFailed,
        row is Some ==> (r matches Err(e) ==> e != IterateError::MissingIntegrityRecord),
        row matches Some(rw) ==> spec_verify_rejects(
            r,
            password@,
            rw.kdf_params@,
            rw.wrapped_key@,
        ),
{
    let row_ref = match row {
        Some(rw) => rw,
        None => {
            return Err(IterateError::MissingIntegrityRecord);
        },
    };
    let kdf_params = match KdfParams::from_bytes(row_ref.kdf_params.as_slice()) {
        Ok(p) => p,
        Err(e) => {
            proof {
                assert forall|salt: Seq<u8>, master_key: Seq<u8>, nonce: Seq<u8>|
                    !spec_initialized_row(
                        password@,
                        row_ref.kdf_params@,
                        row_ref.wrapped_key@,
                        salt,
                        master_key,
                        nonce,
                    ) by {
                    assert(salt.len() == ARGON2_SALT_LEN ==> row_ref.kdf_params@
                        != spec_kdf_bytes(
                        salt,
                        ARGON2_MEMORY_COST,
                        ARGON2_TIME_COST,
                        ARGON2_PARALLELISM,
                    ));
                }
            }
            return Err(e);
        },
    };
    let mut kek = match kdf_params.derive_key_encryption_key(password) {
        Ok(k) => k,
        Err(e) => {
            return Err(e);
        },
    };
    let ghost kek_view = kek@;
    let envelope = match CryptoEnvelope::from_blob(row_ref.wrapped_key.as_slice()) {
        Ok(env) => env,
        Err(e) => {
            wipe_bytes(&mut kek);
            proof {
                assert forall|salt: Seq<u8>, master_key: Seq<u8>, nonce: Seq<u8>|
                    !spec_initialized_row(
                        password@,
                        row_ref.kdf_params@,
                        row_ref.wrapped_key@,
                        salt,
                        master_key,
                        nonce,
                    ) by {
                    if spec_initialized_row(
                        password@,
                        row_ref.kdf_params@,
                        row_ref.wrapped_key@,
                        salt,
                        master_key,
                        nonce,
                    ) {
                        let kek0 = spec_argon2id_key(
                            password@,
                            salt,
                            ARGON2_MEMORY_COST,
                            ARGON2_TIME_COST,
                            ARGON2_PARALLELISM,
                        );
                        let sealed = spec_gcm_seal(
                            kek0,
                            nonce,
                            spec_master_key_aad(),
                            master_key,
                        );
                        assert(row_ref.wrapped_key@ != spec_envelope_bytes(
                            nonce,
                            sealed.subrange(0, MASTER_KEY_LEN as int),
                            sealed.subrange(MASTER_KEY_LEN as int, sealed.len() as int),
                        ));
                    }
                }
            }
            return Err(e);
        },
    };
    let aad = master_key_aad();
    let master_key_res = aead::decrypt(kek.as_slice(), &envelope, aad.as_slice());
    wipe_bytes(&mut kek);
    let mut master_key = match master_key_res {
        Ok(mk) => mk,
        Err(_) => {
            proof {
                assert forall|mk: Seq<u8>|
                    mk.len() <= GCM_P_MAX implies !spec_unwraps_to(
                    password@,
                    row_ref.kdf_params@,
                    row_ref.wrapped_key@,
                    mk,
                ) by {
                    if spec_unwraps_to(
                        password@,
                        row_ref.kdf_params@,
                        row_ref.wrapped_key@,
                        mk,
                    ) {
                        let (salt, m_cost, t_cost, p_cost, nonce, ct, tag) = choose|
                            salt: Seq<u8>,
                            m_cost: u32,
                            t_cost: u32,
                            p_cost: u32,
                            nonce: Seq<u8>,
                            ct: Seq<u8>,
                            tag: Seq<u8>,
                        |
                            {
                                &&& salt.len() == ARGON2_SALT_LEN
                                &&& nonce.len() == AES_GCM_NONCE_LEN
                                &&& tag.len() == AES_GCM_TAG_LEN
                                &&& ct.len() == mk.len()
                                &&& row_ref.kdf_params@ == #[trigger] spec_kdf_bytes(
                                    salt,
                                    m_cost,
                                    t_cost,
                                    p_cost,
                                )
                                &&& row_ref.wrapped_key@ == #[trigger] spec_envelope_bytes(
                                    nonce,
                                    ct,
                                    tag,
                                )
                                &&& ct + tag == spec_gcm_seal(
                                    spec_argon2id_key(password@, salt, m_cost, t_cost, p_cost),
                                    nonce,
                                    spec_master_key_aad(),
                                    mk,
                                )
                            };
                        lemma_kdf_bytes_injective(
                            salt,
                            m_cost,
                            t_cost,
                            p_cost,
                            kdf_params.spec_salt(),
                            kdf_params.spec_m_cost(),
                            kdf_params.spec_t_cost(),
                            kdf_params.spec_p_cost(),
                        );
                        lemma_envelope_bytes_injective(
                            nonce,
                            ct,
                            tag,
                            envelope.spec_nonce(),
                            envelope.spec_ciphertext(),
                            envelope.spec_tag(),
                        );
                        assert(is_encryption_of(envelope, kek_view, mk, spec_master_key_aad()));
                    }
                }
                assert forall|salt: Seq<u8>, master_key: Seq<u8>, nonce: Seq<u8>|
                    !spec_initialized_row(
                        password@,
                        row_ref.kdf_params@,
                        row_ref.wrapped_key@,
                        salt,
                        master_key,
                        nonce,
                    ) by {
                    if spec_initialized_row(
                        password@,
                        row_ref.kdf_params@,
                        row_ref.wrapped_key@,
                        salt,
                        master_key,
                        nonce,
                    ) {
                        lemma_initialized_row_unwraps(
                            password@,
                            row_ref.kdf_params@,
                            row_ref.wrapped_key@,
                            salt,
                            master_key,
                            nonce,
                        );
                    }
                }
            }
            return Err(IterateError::InvalidPassword);
        },
    };
    if master_key.len() != MASTER_KEY_LEN {
        proof {
            let mk = master_key@;
            assert(row_ref.kdf_params@ == spec_kdf_bytes(
                kdf_params.spec_salt(),
                kdf_params.spec_m_cost(),
                kdf_params.spec_t_cost(),
                kdf_params.spec_p_cost(),
            ));
            assert(row_ref.wrapped_key@ == spec_envelope_bytes(
                envelope.spec_nonce(),
                envelope.spec_ciphertext(),
                envelope.spec_tag(),
            ));
            assert(spec_unwraps_to(password@, row_ref.kdf_params@, row_ref.wrapped_key@, mk));
            assert forall|salt: Seq<u8>, master_key0: Seq<u8>, nonce: Seq<u8>|
                !spec_initialized_row(
                    password@,
                    row_ref.kdf_params@,
                    row_ref.wrapped_key@,
                    salt,
                    master_key0,
                    nonce,
                ) by {
                if spec_initialized_row(
                    password@,
                    row_ref.kdf_params@,
                    row_ref.wrapped_key@,
                    salt,
                    master_key0,
                    nonce,
                ) {
                    let kek0 = spec_argon2id_key(
                        password@,
                        salt,
                        ARGON2_MEMORY_COST,
                        ARGON2_TIME_COST,
                        ARGON2_PARALLELISM,
                    );
                    let sealed = spec_gcm_seal(kek0, nonce, spec_master_key_aad(), master_key0);
                    lemma_kdf_bytes_injective(
                        salt,
                        ARGON2_MEMORY_COST,
                        ARGON2_TIME_COST,
                        ARGON2_PARALLELISM,
                        kdf_params.spec_salt(),
                        kdf_params.spec_m_cost(),
                        kdf_params.spec_t_cost(),
                        kdf_params.spec_p_cost(),
                    );
                    lemma_envelope_bytes_injective(
                        nonce,
                        sealed.subrange(0, MASTER_KEY_LEN as int),
                        sealed.subrange(MASTER_KEY_LEN as int, sealed.len() as int),
                        envelope.spec_nonce(),
                        envelope.spec_ciphertext(),
                        envelope.spec_tag(),
                    );
                    assert(sealed.subrange(0, MASTER_KEY_LEN as int) + sealed.subrange(
                        MASTER_KEY_LEN as int,
                        sealed.len() as int,
                    ) =~= sealed);
                    assert(is_encryption_of(
                        envelope,
                        kek_view,
                        master_key0,
                        spec_master_key_aad(),
                    ));
                }
            }
        }
        wipe_bytes(&mut master_key);
        return Err(IterateError::DecryptionFailed);
    }
    let ghost master_key_view = master_key@;
    let keys = match derive_service_keys(master_key.as_slice()) {
        Ok(k) => k,
        Err(e) => {
            wipe_bytes(&mut master_key);
            return Err(e);
        },
    };
    wipe_bytes(&mut master_key);
    proof {
        assert(row_ref.kdf_params@ == spec_kdf_bytes(
            kdf_params.spec_salt(),
            kdf_params.spec_m_cost(),
            kdf_params.spec_t_cost(),
            kdf_params.spec_p_cost(),
        ));
        assert(row_ref.wrapped_key@ == spec_envelope_bytes(
            envelope.spec_nonce(),
            envelope.spec_ciphertext(),
            envelope.spec_tag(),
        ));
        assert(spec_unwraps_to(
            password@,
            row_ref.kdf_params@,
            row_ref.wrapped_key@,
            master_key_view,
        ));
        assert forall|salt: Seq<u8>, master_key0: Seq<u8>, nonce: Seq<u8>|
            #[trigger] spec_initialized_row(
                password@,
                row_ref.kdf_params@,
                row_ref.wrapped_key@,
                salt,
                master_key0,
                nonce,
            ) implies master_key_view == master_key0 by {
            let kek0 = spec_argon2id_key(
                password@,
                salt,
                ARGON2_MEMORY_COST,
                ARGON2_TIME_COST,
                ARGON2_PARALLELISM,
            );
            let sealed = spec_gcm_seal(kek0, nonce, spec_master_key_aad(), master_key0);
            lemma_kdf_bytes_injective(
                salt,
                ARGON2_MEMORY_COST,
                ARGON2_TIME_COST,
                ARGON2_PARALLELISM,
                kdf_params.spec_salt(),
                kdf_params.spec_m_cost(),
                kdf_params.spec_t_cost(),
                kdf_params.spec_p_cost(),
            );
            lemma_envelope_bytes_injective(
                nonce,
                sealed.subrange(0, MASTER_KEY_LEN as int),
                sealed.subrange(MASTER_KEY_LEN as int, sealed.len() as int),
                envelope.spec_nonce(),
                envelope.spec_ciphertext(),
                envelope.spec_tag(),
            );
            assert(sealed.subrange(0, MASTER_KEY_LEN as int) + sealed.subrange(
                MASTER_KEY_LEN as int,
                sealed.len() as int,
            ) =~= sealed);
            assert(is_encryption_of(envelope, kek_view, master_key0, spec_master_key_aad()));
        }
    }
    Ok(keys)
}

} // verus!
