use vstd::prelude::*;

use crate::constants::{AES_GCM_NONCE_LEN, AES_GCM_TAG_LEN};
use crate::error::IterateError;

verus! {

/// One authenticated-encryption result: a fresh nonce, the ciphertext (as
/// long as the plaintext; AEAD adds no padding), and the authentication tag.
pub struct AesGcmPacked {
    pub nonce: Vec<u8>,
    pub ciphertext: Vec<u8>,
    pub tag: Vec<u8>,
}

impl AesGcmPacked {
    /// The packed fields have the sizes AES-256-GCM produces them with.
    pub open spec fn well_formed(&self) -> bool {
        &&& self.nonce@.len() == AES_GCM_NONCE_LEN
        &&& self.tag@.len() == AES_GCM_TAG_LEN
    }
}

/// Versioned container for one ciphertext. New algorithm generations add
/// variants; an unrecognized version in a stored blob fails closed.
pub enum CryptoEnvelope {
    V1(AesGcmPacked),
}

impl CryptoEnvelope {
    pub open spec fn well_formed(&self) -> bool {
        match *self {
            CryptoEnvelope::V1(p) => p.well_formed(),
        }
    }

    pub open spec fn spec_nonce(&self) -> Seq<u8> {
        match *self {
            CryptoEnvelope::V1(p) => p.nonce@,
        }
    }

    pub open spec fn spec_ciphertext(&self) -> Seq<u8> {
        match *self {
            CryptoEnvelope::V1(p) => p.ciphertext@,
        }
    }

    pub open spec fn spec_tag(&self) -> Seq<u8> {
        match *self {
            CryptoEnvelope::V1(p) => p.tag@,
        }
    }
}

/// The binary framing of an envelope, over the raw field contents: a version
/// tag, then nonce, tag and ciphertext.
pub open spec fn spec_envelope_bytes(nonce: Seq<u8>, ciphertext: Seq<u8>, tag: Seq<u8>) -> Seq<u8> {
    seq![1u8] + nonce + tag + ciphertext
}

/// The binary framing of an envelope value.
pub open spec fn spec_envelope_blob(e: CryptoEnvelope) -> Seq<u8> {
    match e {
        CryptoEnvelope::V1(p) => spec_envelope_bytes(p.nonce@, p.ciphertext@, p.tag@),
    }
}

/// Append every byte of `src` to `dst`.
pub(crate) fn push_bytes(dst: &mut Vec<u8>, src: &[u8])
    ensures
        final(dst)@ == old(dst)@ + src@,
{
    let mut i: usize = 0;
    while i < src.len()
        invariant
            i <= src@.len(),
            dst@ == old(dst)@ + src@.subrange(0, i as int),
        decreases src@.len() - i,
    {
        let b = *vstd::slice::slice_index_get(src, i);
        dst.push(b);
        proof {
            assert(src@.subrange(0, i + 1) =~= src@.subrange(0, i as int).push(src@[i as int]));
        }
        i = i + 1;
    }
    proof {
        assert(src@.subrange(0, src@.len() as int) =~= src@);
    }
}

impl CryptoEnvelope {
    /// Frame the envelope for storage. Fails closed, and only, on an envelope
    /// whose fields do not have the AES-GCM sizes.
    pub fn to_blob(&self) -> (r: Result<Vec<u8>, IterateError>)
        ensures
            r matches Ok(b) ==> self.well_formed() && b@ == spec_envelope_blob(*self),
            r matches Err(e) ==> e == IterateError::SerializationFailed && !self.well_formed(),
    {
        match self {
            CryptoEnvelope::V1(p) => {
                if p.nonce.len() != AES_GCM_NONCE_LEN || p.tag.len() != AES_GCM_TAG_LEN {
                    return Err(IterateError::SerializationFailed);
                }
                let mut out: Vec<u8> = Vec::new();
                out.push(1u8);
                push_bytes(&mut out, p.nonce.as_slice());
                push_bytes(&mut out, p.tag.as_slice());
                push_bytes(&mut out, p.ciphertext.as_slice());
                proof {
                    assert(out@ =~= spec_envelope_bytes(p.nonce@, p.ciphertext@, p.tag@));
                }
                Ok(out)
            }
        }
    }

    /// Parse a stored blob back into an envelope. Any blob that no
    /// well-formed envelope could have produced is rejected; the parse never
    /// panics, however the blob was tampered with.
    pub fn from_blob(blob: &[u8]) -> (r: Result<CryptoEnvelope, IterateError>)
        ensures
            r matches Ok(e) ==> e.well_formed() && blob@ == spec_envelope_blob(e),
            r matches Err(err) ==> err == IterateError::SerializationFailed
                && forall|nonce: Seq<u8>, ct: Seq<u8>, tag: Seq<u8>|
                    nonce.len() == AES_GCM_NONCE_LEN && tag.len() == AES_GCM_TAG_LEN
                        ==> blob@ != #[trigger] spec_envelope_bytes(nonce, ct, tag),
    {
        let header_len: usize = 1 + AES_GCM_NONCE_LEN + AES_GCM_TAG_LEN;
        if blob.len() < header_len {
            proof {
                assert forall|nonce: Seq<u8>, ct: Seq<u8>, tag: Seq<u8>|
                    nonce.len() == AES_GCM_NONCE_LEN && tag.len() == AES_GCM_TAG_LEN
                        implies blob@ != #[trigger] spec_envelope_bytes(nonce, ct, tag) by {
                    assert(spec_envelope_bytes(nonce, ct, tag).len() >= 29);
                }
            }
            return Err(IterateError::SerializationFailed);
        }
        let version = *vstd::slice::slice_index_get(blob, 0);
        if version != 1u8 {
            proof {
                assert forall|nonce: Seq<u8>, ct: Seq<u8>, tag: Seq<u8>|
                    nonce.len() == AES_GCM_NONCE_LEN && tag.len() == AES_GCM_TAG_LEN
                        implies blob@ != #[trigger] spec_envelope_bytes(nonce, ct, tag) by {
                    assert(spec_envelope_bytes(nonce, ct, tag)[0] == 1u8);
                }
            }
            return Err(IterateError::SerializationFailed);
        }
        let nonce = vstd::slice::slice_to_vec(vstd::slice::slice_subrange(blob, 1, 1 + AES_GCM_NONCE_LEN));
        let tag = vstd::slice::slice_to_vec(vstd::slice::slice_subrange(
            blob,
            1 + AES_GCM_NONCE_LEN,
            header_len,
        ));
        let ciphertext = vstd::slice::slice_to_vec(vstd::slice::slice_subrange(blob, header_len, blob.len()));
        proof {
            assert(blob@ =~= spec_envelope_bytes(
                blob@.subrange(1, 13),
                blob@.subrange(29, blob@.len() as int),
                blob@.subrange(13, 29),
            ));
        }
        Ok(CryptoEnvelope::V1(AesGcmPacked { nonce, ciphertext, tag }))
    }
}

/// The envelope framing is injective: equal blobs can only come from
/// envelopes with equal fields.
pub proof fn lemma_envelope_bytes_injective(
    nonce1: Seq<u8>,
    ct1: Seq<u8>,
    tag1: Seq<u8>,
    nonce2: Seq<u8>,
    ct2: Seq<u8>,
    tag2: Seq<u8>,
)
    requires
        nonce1.len() == AES_GCM_NONCE_LEN,
        tag1.len() == AES_GCM_TAG_LEN,
        nonce2.len() == AES_GCM_NONCE_LEN,
        tag2.len() == AES_GCM_TAG_LEN,
        spec_envelope_bytes(nonce1, ct1, tag1) == spec_envelope_bytes(nonce2, ct2, tag2),
    ensures
        nonce1 == nonce2,
        ct1 == ct2,
        tag1 == tag2,
{
    let b = spec_envelope_bytes(nonce1, ct1, tag1);
    assert(nonce1 =~= b.subrange(1, 13));
    assert(tag1 =~= b.subrange(13, 29));
    assert(ct1 =~= b.subrange(29, b.len() as int));
    assert(nonce2 =~= b.subrange(1, 13));
    assert(tag2 =~= b.subrange(13, 29));
    assert(ct2 =~= b.subrange(29, b.len() as int));
}

} // verus!
