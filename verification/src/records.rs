use vstd::prelude::*;

use crate::aead;
use crate::constants::{AES_GCM_NONCE_LEN, AES_GCM_TAG_LEN, GCM_A_MAX, GCM_P_MAX};
use crate::cryptoenvelope::spec_envelope_bytes;
use crate::aead::spec_gcm_seal;
use crate::error::IterateError;
use crate::rng::SystemRng;
use crate::servicekeys::ServiceKeys;

verus! {

/// The sealed, framed form of one record body: for some fresh nonce, the
/// blob frames the AES-256-GCM encryption of the text under the content
/// key, bound to the record's own identifier.
pub open spec fn spec_record_blob_ok(
    content_key: Seq<u8>,
    record_id: Seq<u8>,
    text: Seq<u8>,
    blob: Seq<u8>,
) -> bool {
    exists|nonce: Seq<u8>, ct: Seq<u8>, tag: Seq<u8>|
        {
            &&& nonce.len() == AES_GCM_NONCE_LEN
            &&& tag.len() == AES_GCM_TAG_LEN
            &&& ct.len() == text.len()
            &&& blob == #[trigger] spec_envelope_bytes(nonce, ct, tag)
            &&& ct + tag == spec_gcm_seal(content_key, nonce, record_id, text)
        }
}

/// Encrypt one journal record's body under the content service key, bound
/// to the record's own identifier — so one record's blob, swapped onto
/// another record's row, fails decryption — and frame it for storage. Only
/// a randomness failure can stop it.
pub fn encrypt_record(
    rng: &mut SystemRng,
    keys: &ServiceKeys,
    record_id: &[u8],
    text: &[u8],
) -> (r: Result<Vec<u8>, IterateError>)
    requires
        keys.well_formed(),
        text@.len() <= GCM_P_MAX,
        record_id@.len() <= GCM_A_MAX,
    ensures
        r matches Ok(blob) ==> spec_record_blob_ok(keys.content@, record_id@, text@, blob@),
        r matches Err(e) ==> e == IterateError::SystemRngFailure,
{
    let envelope = match aead::encrypt(rng, keys.content.as_slice(), text, record_id) {
        Ok(env) => env,
        Err(e) => {
            return Err(e);
        },
    };
    match envelope.to_blob() {
        Ok(blob) => {
            proof {
                assert(blob@ == spec_envelope_bytes(
                    envelope.spec_nonce(),
                    envelope.spec_ciphertext(),
                    envelope.spec_tag(),
                ));
                assert(spec_record_blob_ok(keys.content@, record_id@, text@, blob@));
            }
            Ok(blob)
        },
        Err(e) => Err(e),
    }
}

} // verus!
