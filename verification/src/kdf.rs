use vstd::prelude::*;

use crate::constants::{
    ARGON2_MEMORY_COST, ARGON2_PARALLELISM, ARGON2_SALT_LEN, ARGON2_TIME_COST, MASTER_KEY_LEN,
};
use crate::cryptoenvelope::push_bytes;
use crate::error::IterateError;
use crate::rng::SystemRng;
use crate::servicekeys::ServiceKeys;

verus! {

/// The 32-byte Argon2id (version 0x13) hash of a password under a salt and
/// cost parameters. It is a function of those inputs alone; its value is
/// known only to the password-hashing implementation.
pub uninterp spec fn spec_argon2id_key(
    password: Seq<u8>,
    salt: Seq<u8>,
    m_cost: u32,
    t_cost: u32,
    p_cost: u32,
) -> Seq<u8>;

/// The HKDF-SHA-512 output keying material of one 32-byte expansion, as a
/// function of the extraction salt, the input key material and the info
/// label alone.
pub uninterp spec fn spec_hkdf_sha512_okm(salt: Seq<u8>, ikm: Seq<u8>, info: Seq<u8>) -> Seq<u8>;

/// The cost combinations the Argon2id implementation accepts.
pub open spec fn spec_argon2_cost_ok(m_cost: u32, t_cost: u32, p_cost: u32) -> bool {
    &&& m_cost >= 8
    &&& t_cost >= 1
    &&& 1 <= p_cost <= 0xFF_FFFF
    &&& m_cost >= 8 * (p_cost as int)
}

/// The password and salt sizes the Argon2id implementation accepts.
pub open spec fn spec_argon2_inputs_ok(password: Seq<u8>, salt: Seq<u8>) -> bool {
    &&& 8 <= salt.len() <= 0xFFFF_FFFFu64
    &&& password.len() <= 0xFFFF_FFFFu64
}

/// Relies on argon2 (Algorithm::Argon2id, Version::V0x13,
/// Params::new(m, t, p, Some(32)) and Argon2::hash_password_into): the
/// 32-byte output is a function of password, salt and the cost parameters
/// alone; cost parameters or input sizes outside the documented ranges are
/// rejected; obtaining the algorithm's working memory can also fail.
#[verifier::external_body]
fn argon2id_derive32(
    password: &[u8],
    salt: &[u8],
    m_cost: u32,
    t_cost: u32,
    p_cost: u32,
) -> (r: Result<Vec<u8>, ()>)
    ensures
        r matches Ok(k) ==> k@.len() == 32 && k@ == spec_argon2id_key(
            password@,
            salt@,
            m_cost,
            t_cost,
            p_cost,
        ),
        !(spec_argon2_cost_ok(m_cost, t_cost, p_cost) && spec_argon2_inputs_ok(password@, salt@))
            ==> r is Err,
{
    let params = argon2::Params::new(m_cost, t_cost, p_cost, Some(32)).map_err(|_| ())?;
    let ctx = argon2::Argon2::new(argon2::Algorithm::Argon2id, argon2::Version::V0x13, params);
    let mut key = [0u8; 32];
    ctx.hash_password_into(password, salt, &mut key).map_err(|_| ())?;
    Ok(key.to_vec())
}

/// Relies on hkdf::Hkdf<sha2::Sha512> (new, then expand into 32 bytes): the
/// output keying material is a function of salt, input key material and info
/// alone, and a 32-byte request is always within the HKDF-SHA-512 output
/// bound, so the expansion succeeds.
#[verifier::external_body]
fn hkdf_sha512_expand32(salt: &[u8], ikm: &[u8], info: &[u8]) -> (r: Result<Vec<u8>, ()>)
    ensures
        r is Ok,
        r matches Ok(k) ==> k@.len() == 32 && k@ == spec_hkdf_sha512_okm(salt@, ikm@, info@),
{
    let hk = hkdf::Hkdf::<sha2::Sha512>::new(Some(salt), ikm);
    let mut okm = [0u8; 32];
    hk.expand(info, &mut okm).map_err(|_| ())?;
    Ok(okm.to_vec())
}

/// How a password becomes a key-encryption key: self-describing and
/// versioned, so the stored parameters can be read back verbatim on every
/// unlock, and future algorithm generations can coexist with old journals.
pub enum KdfParams {
    Argon2idV1 { salt: Vec<u8>, m_cost: u32, t_cost: u32, p_cost: u32 },
}

impl KdfParams {
    /// The per-journal salt.
    pub open spec fn spec_salt(&self) -> Seq<u8> {
        match *self {
            KdfParams::Argon2idV1 { salt, .. } => salt@,
        }
    }

    pub open spec fn spec_m_cost(&self) -> u32 {
        match *self {
            KdfParams::Argon2idV1 { m_cost, .. } => m_cost,
        }
    }

    pub open spec fn spec_t_cost(&self) -> u32 {
        match *self {
            KdfParams::Argon2idV1 { t_cost, .. } => t_cost,
        }
    }

    pub open spec fn spec_p_cost(&self) -> u32 {
        match *self {
            KdfParams::Argon2idV1 { p_cost, .. } => p_cost,
        }
    }

    /// The salt has the size it was generated with.
    pub open spec fn well_formed(&self) -> bool {
        self.spec_salt().len() == ARGON2_SALT_LEN
    }

    /// The key-encryption key these parameters derive from a password.
    pub open spec fn spec_kek(&self, password: Seq<u8>) -> Seq<u8> {
        spec_argon2id_key(
            password,
            self.spec_salt(),
            self.spec_m_cost(),
            self.spec_t_cost(),
            self.spec_p_cost(),
        )
    }

    /// Fresh parameters for a new journal: a random salt and the fixed,
    /// memory-hard cost constants.
    pub fn try_new(rng: &mut SystemRng) -> (r: Result<KdfParams, IterateError>)
        ensures
            r matches Ok(p) ==> p.well_formed() && p.spec_m_cost() == ARGON2_MEMORY_COST
                && p.spec_t_cost() == ARGON2_TIME_COST && p.spec_p_cost() == ARGON2_PARALLELISM,
            r matches Err(e) ==> e == IterateError::SystemRngFailure,
    {
        match rng.try_fill(ARGON2_SALT_LEN) {
            Ok(salt) => Ok(
                KdfParams::Argon2idV1 {
                    salt,
                    m_cost: ARGON2_MEMORY_COST,
                    t_cost: ARGON2_TIME_COST,
                    p_cost: ARGON2_PARALLELISM,
                },
            ),
            Err(e) => Err(e),
        }
    }

    /// Run the password hash with these (stored) parameters. Deterministic:
    /// the result is a function of the password and the parameters alone,
    /// and is exactly 32 bytes.
    pub fn derive_key_encryption_key(&self, password: &[u8]) -> (r: Result<
        Vec<u8>,
        IterateError,
    >)
        ensures
            r matches Ok(k) ==> k@.len() == MASTER_KEY_LEN && k@ == self.spec_kek(password@),
            r matches Err(e) ==> e == IterateError::KeyDerivationFailed,
            !(spec_argon2_cost_ok(self.spec_m_cost(), self.spec_t_cost(), self.spec_p_cost())
                && spec_argon2_inputs_ok(password@, self.spec_salt())) ==> r is Err,
    {
        match self {
            KdfParams::Argon2idV1 { salt, m_cost, t_cost, p_cost } => {
                match argon2id_derive32(password, salt.as_slice(), *m_cost, *t_cost, *p_cost) {
                    Ok(k) => Ok(k),
                    Err(_) => Err(IterateError::KeyDerivationFailed),
                }
            },
        }
    }
}

/// The binary framing of KDF parameters, over the raw field contents: a
/// version tag, the salt, then the three costs in little-endian order.
pub open spec fn spec_kdf_bytes(salt: Seq<u8>, m_cost: u32, t_cost: u32, p_cost: u32) -> Seq<u8> {
    seq![1u8] + salt + vstd::bytes::spec_u32_to_le_bytes(m_cost)
        + vstd::bytes::spec_u32_to_le_bytes(t_cost) + vstd::bytes::spec_u32_to_le_bytes(p_cost)
}

/// The binary framing of a KdfParams value.
pub open spec fn spec_kdf_params_blob(p: KdfParams) -> Seq<u8> {
    spec_kdf_bytes(p.spec_salt(), p.spec_m_cost(), p.spec_t_cost(), p.spec_p_cost())
}

impl KdfParams {
    /// Frame the parameters for storage beside the wrapped key. Fails
    /// closed, and only, on a salt of the wrong size.
    pub fn to_blob(&self) -> (r: Result<Vec<u8>, IterateError>)
        ensures
            r matches Ok(b) ==> self.well_formed() && b@ == spec_kdf_params_blob(*self),
            r matches Err(e) ==> e == IterateError::SerializationFailed && !self.well_formed(),
    {
        match self {
            KdfParams::Argon2idV1 { salt, m_cost, t_cost, p_cost } => {
                if salt.len() != ARGON2_SALT_LEN {
                    return Err(IterateError::SerializationFailed);
                }
                let mut out: Vec<u8> = Vec::new();
                out.push(1u8);
                push_bytes(&mut out, salt.as_slice());
                let m_bytes = vstd::bytes::u32_to_le_bytes(*m_cost);
                push_bytes(&mut out, m_bytes.as_slice());
                let t_bytes = vstd::bytes::u32_to_le_bytes(*t_cost);
                push_bytes(&mut out, t_bytes.as_slice());
                let p_bytes = vstd::bytes::u32_to_le_bytes(*p_cost);
                push_bytes(&mut out, p_bytes.as_slice());
                proof {
                    assert(out@ =~= spec_kdf_bytes(salt@, *m_cost, *t_cost, *p_cost));
                }
                Ok(out)
            },
        }
    }

    /// Parse stored parameters back, verbatim: an unlock attempt never
    /// regenerates a salt or guesses costs. Any blob that no well-formed
    /// parameter set could have produced is rejected without panicking.
    pub fn from_bytes(bytes: &[u8]) -> (r: Result<KdfParams, IterateError>)
        ensures
            r matches Ok(p) ==> p.well_formed() && bytes@ == spec_kdf_params_blob(p),
            r matches Err(err) ==> err == IterateError::SerializationFailed
                && forall|salt: Seq<u8>, m_cost: u32, t_cost: u32, p_cost: u32|
                    salt.len() == ARGON2_SALT_LEN
                        ==> bytes@ != #[trigger] spec_kdf_bytes(salt, m_cost, t_cost, p_cost),
    {
        proof {
            vstd::bytes::lemma_auto_spec_u32_to_from_le_bytes();
        }
        let expected_len: usize = 1 + ARGON2_SALT_LEN + 12;
        if bytes.len() != expected_len {
            proof {
                assert forall|salt: Seq<u8>, m_cost: u32, t_cost: u32, p_cost: u32|
                    salt.len() == ARGON2_SALT_LEN
                        implies bytes@ != #[trigger] spec_kdf_bytes(salt, m_cost, t_cost, p_cost) by {
                    assert(spec_kdf_bytes(salt, m_cost, t_cost, p_cost).len() == 29);
                }
            }
            return Err(IterateError::SerializationFailed);
        }
        let version = *vstd::slice::slice_index_get(bytes, 0);
        if version != 1u8 {
            proof {
                assert forall|salt: Seq<u8>, m_cost: u32, t_cost: u32, p_cost: u32|
                    salt.len() == ARGON2_SALT_LEN
                        implies bytes@ != #[trigger] spec_kdf_bytes(salt, m_cost, t_cost, p_cost) by {
                    assert(spec_kdf_bytes(salt, m_cost, t_cost, p_cost)[0] == 1u8);
                }
            }
            return Err(IterateError::SerializationFailed);
        }
        let salt = vstd::slice::slice_to_vec(vstd::slice::slice_subrange(bytes, 1, 17));
        let m_cost = vstd::bytes::u32_from_le_bytes(vstd::slice::slice_subrange(bytes, 17, 21));
        let t_cost = vstd::bytes::u32_from_le_bytes(vstd::slice::slice_subrange(bytes, 21, 25));
        let p_cost = vstd::bytes::u32_from_le_bytes(vstd::slice::slice_subrange(bytes, 25, 29));
        proof {
            assert(bytes@ =~= spec_kdf_bytes(
                bytes@.subrange(1, 17),
                vstd::bytes::spec_u32_from_le_bytes(bytes@.subrange(17, 21)),
                vstd::bytes::spec_u32_from_le_bytes(bytes@.subrange(21, 25)),
                vstd::bytes::spec_u32_from_le_bytes(bytes@.subrange(25, 29)),
            ));
        }
        Ok(KdfParams::Argon2idV1 { salt, m_cost, t_cost, p_cost })
    }
}

/// The KDF parameter framing is injective: equal blobs can only come from
/// parameter sets with equal fields.
pub proof fn lemma_kdf_bytes_injective(
    salt1: Seq<u8>,
    m1: u32,
    t1: u32,
    p1: u32,
    salt2: Seq<u8>,
    m2: u32,
    t2: u32,
    p2: u32,
)
    requires
        salt1.len() == ARGON2_SALT_LEN,
        salt2.len() == ARGON2_SALT_LEN,
        spec_kdf_bytes(salt1, m1, t1, p1) == spec_kdf_bytes(salt2, m2, t2, p2),
    ensures
        salt1 == salt2,
        m1 == m2,
        t1 == t2,
        p1 == p2,
{
    vstd::bytes::lemma_auto_spec_u32_to_from_le_bytes();
    let b = spec_kdf_bytes(salt1, m1, t1, p1);
    assert(salt1 =~= b.subrange(1, 17));
    assert(salt2 =~= b.subrange(1, 17));
    assert(vstd::bytes::spec_u32_to_le_bytes(m1) =~= b.subrange(17, 21));
    assert(vstd::bytes::spec_u32_to_le_bytes(m2) =~= b.subrange(17, 21));
    assert(vstd::bytes::spec_u32_to_le_bytes(t1) =~= b.subrange(21, 25));
    assert(vstd::bytes::spec_u32_to_le_bytes(t2) =~= b.subrange(21, 25));
    assert(vstd::bytes::spec_u32_to_le_bytes(p1) =~= b.subrange(25, 29));
    assert(vstd::bytes::spec_u32_to_le_bytes(p2) =~= b.subrange(25, 29));
    assert(m1 == vstd::bytes::spec_u32_from_le_bytes(vstd::bytes::spec_u32_to_le_bytes(m1)));
    assert(m2 == vstd::bytes::spec_u32_from_le_bytes(vstd::bytes::spec_u32_to_le_bytes(m2)));
    assert(t1 == vstd::bytes::spec_u32_from_le_bytes(vstd::bytes::spec_u32_to_le_bytes(t1)));
    assert(t2 == vstd::bytes::spec_u32_from_le_bytes(vstd::bytes::spec_u32_to_le_bytes(t2)));
    assert(p1 == vstd::bytes::spec_u32_from_le_bytes(vstd::bytes::spec_u32_to_le_bytes(p1)));
    assert(p2 == vstd::bytes::spec_u32_from_le_bytes(vstd::bytes::spec_u32_to_le_bytes(p2)));
}

/// The fixed application-wide HKDF extraction salt, the ASCII bytes of
/// "iterate-journal-v1".
pub open spec fn spec_hkdf_domain_salt() -> Seq<u8> {
    seq![105u8, 116, 101, 114, 97, 116, 101, 45, 106, 111, 117, 114, 110, 97, 108, 45, 118, 49]
}

pub fn hkdf_domain_salt() -> (r: Vec<u8>)
    ensures
        r@ == spec_hkdf_domain_salt(),
{
    let v: Vec<u8> = vec![
        105u8, 116, 101, 114, 97, 116, 101, 45, 106, 111, 117, 114, 110, 97, 108, 45, 118, 49,
    ];
    proof {
        assert(v@ =~= spec_hkdf_domain_salt());
    }
    v
}

/// The expansion label of the content-encryption service key, the ASCII
/// bytes of "content-encryption-key".
pub open spec fn spec_content_info() -> Seq<u8> {
    seq![99u8, 111, 110, 116, 101, 110, 116, 45, 101, 110, 99, 114, 121, 112, 116, 105, 111, 110, 45, 107, 101, 121]
}

pub fn content_info() -> (r: Vec<u8>)
    ensures
        r@ == spec_content_info(),
{
    let v: Vec<u8> = vec![
        99u8, 111, 110, 116, 101, 110, 116, 45, 101, 110, 99, 114, 121, 112, 116, 105, 111, 110,
        45, 107, 101, 121,
    ];
    proof {
        assert(v@ =~= spec_content_info());
    }
    v
}

/// The expansion label of the metadata service key, the ASCII bytes of
/// "meta-verification-key".
pub open spec fn spec_meta_info() -> Seq<u8> {
    seq![109u8, 101, 116, 97, 45, 118, 101, 114, 105, 102, 105, 99, 97, 116, 105, 111, 110, 45, 107, 101, 121]
}

pub fn meta_info() -> (r: Vec<u8>)
    ensures
        r@ == spec_meta_info(),
{
    let v: Vec<u8> = vec![
        109u8, 101, 116, 97, 45, 118, 101, 114, 105, 102, 105, 99, 97, 116, 105, 111, 110, 45,
        107, 101, 121,
    ];
    proof {
        assert(v@ =~= spec_meta_info());
    }
    v
}

/// The content-encryption service key a master key expands to.
pub open spec fn spec_content_key(master_key: Seq<u8>) -> Seq<u8> {
    spec_hkdf_sha512_okm(spec_hkdf_domain_salt(), master_key, spec_content_info())
}

/// The metadata service key a master key expands to.
pub open spec fn spec_meta_key(master_key: Seq<u8>) -> Seq<u8> {
    spec_hkdf_sha512_okm(spec_hkdf_domain_salt(), master_key, spec_meta_info())
}

/// Expand one master key into the two independent-use service keys, under
/// the fixed application salt and two distinct labels. Deterministic, so the
/// keys can be recomputed at every unlock without ever being stored; and the
/// expansion of a 32-byte request cannot fail, so the internal
/// `HkdfExpansionFailed` path is unreachable.
pub fn derive_service_keys(master_key: &[u8]) -> (r: Result<ServiceKeys, IterateError>)
    requires
        master_key@.len() == MASTER_KEY_LEN,
    ensures
        r is Ok,
        r matches Ok(k) ==> k.well_formed() && k.content@ == spec_content_key(master_key@)
            && k.meta@ == spec_meta_key(master_key@),
{
    let salt = hkdf_domain_salt();
    let info_c = content_info();
    let info_m = meta_info();
    let content = match hkdf_sha512_expand32(salt.as_slice(), master_key, info_c.as_slice()) {
        Ok(k) => k,
        Err(_) => {
            return Err(IterateError::HkdfExpansionFailed);
        },
    };
    let meta = match hkdf_sha512_expand32(salt.as_slice(), master_key, info_m.as_slice()) {
        Ok(k) => k,
        Err(_) => {
            return Err(IterateError::HkdfExpansionFailed);
        },
    };
    Ok(ServiceKeys { content, meta })
}

/// Service-key derivation is deterministic: the two service keys are a
/// function of the master key alone, so any two derivations from the same
/// master key agree, bit for bit.
pub proof fn lemma_service_keys_deterministic(master_key: Seq<u8>, a: ServiceKeys, b: ServiceKeys)
    requires
        a.content@ == spec_content_key(master_key),
        a.meta@ == spec_meta_key(master_key),
        b.content@ == spec_content_key(master_key),
        b.meta@ == spec_meta_key(master_key),
    ensures
        a.content@ == b.content@,
        a.meta@ == b.meta@,
{
}

} // verus!
