use vstd::prelude::*;

use crate::constants::{AES_GCM_NONCE_LEN, AES_GCM_TAG_LEN, GCM_A_MAX, GCM_P_MAX, MASTER_KEY_LEN};
use crate::cryptoenvelope::{AesGcmPacked, CryptoEnvelope};
use crate::error::IterateError;
use crate::rng::SystemRng;

verus! {

/// What AES-256-GCM produces for one key, nonce, associated data and
/// plaintext: the ciphertext followed by the 16-byte tag. It is a function
/// of those four inputs alone; its value is known only to the cipher.
pub uninterp spec fn spec_gcm_seal(
    key: Seq<u8>,
    nonce: Seq<u8>,
    aad: Seq<u8>,
    plaintext: Seq<u8>,
) -> Seq<u8>;

/// The envelope holds exactly the AES-256-GCM encryption of `plaintext`
/// under `key` and the envelope's own nonce, bound to `aad`.
pub open spec fn is_encryption_of(
    env: CryptoEnvelope,
    key: Seq<u8>,
    plaintext: Seq<u8>,
    aad: Seq<u8>,
) -> bool {
    match env {
        CryptoEnvelope::V1(p) => {
            &&& p.nonce@.len() == AES_GCM_NONCE_LEN
            &&& p.tag@.len() == AES_GCM_TAG_LEN
            &&& p.ciphertext@.len() == plaintext.len()
            &&& plaintext.len() <= GCM_P_MAX
            &&& aad.len() <= GCM_A_MAX
            &&& p.ciphertext@ + p.tag@ == spec_gcm_seal(key, p.nonce@, aad, plaintext)
        },
    }
}

/// Relies on aes_gcm::Aes256Gcm (AeadInOut::encrypt_inout_detached):
/// ciphertext and tag are a function of key, nonce, associated data and
/// plaintext alone; the ciphertext is exactly as long as the plaintext and
/// the tag 16 bytes; the call succeeds whenever plaintext and associated
/// data are within the AES-GCM length bounds.
#[verifier::external_body]
fn aes256gcm_seal(key: &[u8], nonce: &[u8], aad: &[u8], plaintext: &[u8]) -> (r: Result<
    (Vec<u8>, Vec<u8>),
    (),
>)
    requires
        key@.len() == MASTER_KEY_LEN,
        nonce@.len() == AES_GCM_NONCE_LEN,
    ensures
        r matches Ok(ct_tag) ==> ct_tag.0@ + ct_tag.1@ == spec_gcm_seal(
            key@,
            nonce@,
            aad@,
            plaintext@,
        ) && ct_tag.0@.len() == plaintext@.len() && ct_tag.1@.len() == AES_GCM_TAG_LEN,
        plaintext@.len() <= GCM_P_MAX && aad@.len() <= GCM_A_MAX ==> r is Ok,
{
    let cipher = <aes_gcm::Aes256Gcm as aes_gcm::KeyInit>::new_from_slice(key).map_err(|_| ())?;
    let nonce_arr = aes_gcm::Nonce::try_from(nonce).map_err(|_| ())?;
    let mut buf = plaintext.to_vec();
    let tag = aes_gcm::AeadInOut::encrypt_inout_detached(
        &cipher,
        &nonce_arr,
        aad,
        buf.as_mut_slice().into(),
    ).map_err(|_| ())?;
    Ok((buf, tag.as_slice().to_vec()))
}

/// The result of opening (ciphertext, tag) is exact: whenever some
/// plaintext within the AES-GCM length bounds seals to exactly this
/// ciphertext and tag under this key, nonce and associated data, the result
/// is that plaintext, not a failure and not an altered payload.
pub open spec fn spec_open_exact(
    r: Result<Vec<u8>, ()>,
    key: Seq<u8>,
    nonce: Seq<u8>,
    aad: Seq<u8>,
    ciphertext: Seq<u8>,
    tag: Seq<u8>,
) -> bool {
    forall|pt: Seq<u8>|
        pt.len() <= GCM_P_MAX && aad.len() <= GCM_A_MAX && ciphertext + tag
            == #[trigger] spec_gcm_seal(key, nonce, aad, pt) ==> (r matches Ok(res) && res@ == pt)
}

/// Relies on aes_gcm::Aes256Gcm (AeadInOut::decrypt_inout_detached): it
/// recomputes the tag over the associated data and ciphertext and returns
/// the plaintext only when the stored tag matches, so it accepts exactly the
/// ciphertext-tag pairs that sealing some plaintext under the same key,
/// nonce and associated data produces, and then returns that plaintext.
#[verifier::external_body]
fn aes256gcm_open(key: &[u8], nonce: &[u8], aad: &[u8], ciphertext: &[u8], tag: &[u8]) -> (r:
    Result<Vec<u8>, ()>)
    requires
        key@.len() == MASTER_KEY_LEN,
        nonce@.len() == AES_GCM_NONCE_LEN,
        tag@.len() == AES_GCM_TAG_LEN,
    ensures
        r matches Ok(pt) ==> ciphertext@ + tag@ == spec_gcm_seal(key@, nonce@, aad@, pt@)
            && pt@.len() == ciphertext@.len() && ciphertext@.len() <= GCM_P_MAX && aad@.len()
            <= GCM_A_MAX,
        spec_open_exact(r, key@, nonce@, aad@, ciphertext@, tag@),
{
    let cipher = <aes_gcm::Aes256Gcm as aes_gcm::KeyInit>::new_from_slice(key).map_err(|_| ())?;
    let nonce_arr = aes_gcm::Nonce::try_from(nonce).map_err(|_| ())?;
    let tag_arr = aes_gcm::Tag::try_from(tag).map_err(|_| ())?;
    let mut buf = ciphertext.to_vec();
    aes_gcm::AeadInOut::decrypt_inout_detached(
        &cipher,
        &nonce_arr,
        aad,
        buf.as_mut_slice().into(),
        &tag_arr,
    ).map_err(|_| ())?;
    Ok(buf)
}

/// Encrypt a payload under a 256-bit key, bound to associated data, with a
/// fresh random nonce. A failure of the randomness source is fatal; the
/// cipher itself cannot fail within the length bounds the signature demands.
pub fn encrypt(
    rng: &mut SystemRng,
    key: &[u8],
    plaintext: &[u8],
    associated_data: &[u8],
) -> (r: Result<CryptoEnvelope, IterateError>)
    requires
        key@.len() == MASTER_KEY_LEN,
        plaintext@.len() <= GCM_P_MAX,
        associated_data@.len() <= GCM_A_MAX,
    ensures
        r matches Ok(env) ==> env.well_formed() && is_encryption_of(
            env,
            key@,
            plaintext@,
            associated_data@,
        ),
        r matches Err(e) ==> e == IterateError::SystemRngFailure,
{
    let nonce = match rng.try_fill(AES_GCM_NONCE_LEN) {
        Ok(n) => n,
        Err(e) => {
            return Err(e);
        },
    };
    match aes256gcm_seal(key, nonce.as_slice(), associated_data, plaintext) {
        Ok(ct_tag) => {
            let (ciphertext, tag) = ct_tag;
            Ok(CryptoEnvelope::V1(AesGcmPacked { nonce, ciphertext, tag }))
        },
        Err(_) => Err(IterateError::AeadIntegrityFailure),
    }
}

/// Decrypt an envelope under a 256-bit key and associated data.
///
/// The two postconditions are the heart of the AEAD contract. The first
/// says decryption is exact on genuine envelopes: whatever plaintext the
/// envelope seals under this key and associated data is returned, unaltered;
/// decrypting what `encrypt` produced gives back the original payload. The
/// second says decryption never invents data: a returned plaintext is always
/// the one the envelope seals. Every rejection — wrong key, wrong associated
/// data, flipped bit — surfaces as the same generic integrity failure, so
/// the caller cannot tell tampering from a wrong key.
pub fn decrypt(key: &[u8], envelope: &CryptoEnvelope, associated_data: &[u8]) -> (r: Result<
    Vec<u8>,
    IterateError,
>)
    requires
        key@.len() == MASTER_KEY_LEN,
    ensures
        forall|pt: Seq<u8>|
            #[trigger] is_encryption_of(*envelope, key@, pt, associated_data@)
                ==> (r matches Ok(res) && res@ == pt),
        r matches Ok(pt) ==> is_encryption_of(*envelope, key@, pt@, associated_data@),
        r matches Err(e) ==> e == IterateError::AeadIntegrityFailure,
{
    match envelope {
        CryptoEnvelope::V1(data) => {
            if data.nonce.len() != AES_GCM_NONCE_LEN || data.tag.len() != AES_GCM_TAG_LEN {
                return Err(IterateError::AeadIntegrityFailure);
            }
            match aes256gcm_open(
                key,
                data.nonce.as_slice(),
                associated_data,
                data.ciphertext.as_slice(),
                data.tag.as_slice(),
            ) {
                Ok(pt) => Ok(pt),
                Err(_) => Err(IterateError::AeadIntegrityFailure),
            }
        },
    }
}

} // verus!
