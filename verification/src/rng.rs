use vstd::prelude::*;

use crate::error::IterateError;

verus! {

/// The process's source of cryptographic randomness, passed explicitly into
/// every operation that needs fresh bytes. It can fail, and a failure is
/// always fatal to the operation that asked for the bytes.
pub struct SystemRng;

impl SystemRng {
    /// Relies on rand::rngs::SysRng::try_fill_bytes (the operating system's
    /// random source): on success the returned buffer is filled entirely.
    /// Nothing more can be promised of random bytes.
    #[verifier::external_body]
    pub fn try_fill(&mut self, n: usize) -> (r: Result<Vec<u8>, IterateError>)
        ensures
            r matches Ok(b) ==> b@.len() == n,
            r matches Err(e) ==> e == IterateError::SystemRngFailure,
    {
        let mut buf = vec![0u8; n];
        match rand::TryRng::try_fill_bytes(&mut rand::rngs::SysRng, &mut buf) {
            Ok(()) => Ok(buf),
            Err(_) => Err(IterateError::SystemRngFailure),
        }
    }
}

/// Relies on zeroize::Zeroize for Vec<u8>: the buffer's entire capacity is
/// overwritten with zeroes and the vector is cleared, so a secret does not
/// outlive its last use in process memory.
#[verifier::external_body]
pub fn wipe_bytes(buf: &mut Vec<u8>)
    ensures
        final(buf)@.len() == 0,
{
    zeroize::Zeroize::zeroize(buf);
}

} // verus!
