use vstd::prelude::*;

use crate::constants::MASTER_KEY_LEN;
use crate::rng::wipe_bytes;

verus! {

/// The two independent-use subkeys one master key expands to: `content`
/// encrypts record bodies; `meta` is reserved for integrity and metadata
/// use. Compromise of one must not reveal the other or the master key, so
/// both come from one-way expansion.
pub struct ServiceKeys {
    pub content: Vec<u8>,
    pub meta: Vec<u8>,
}

impl ServiceKeys {
    /// Both subkeys are full 32-byte keys.
    pub open spec fn well_formed(&self) -> bool {
        &&& self.content@.len() == MASTER_KEY_LEN
        &&& self.meta@.len() == MASTER_KEY_LEN
    }

    /// Erase both subkeys in place: called on lock, close, or teardown of an
    /// unlocked session.
    pub fn erase(&mut self)
        ensures
            final(self).content@.len() == 0,
            final(self).meta@.len() == 0,
    {
        wipe_bytes(&mut self.content);
        wipe_bytes(&mut self.meta);
    }
}

} // verus!
