use vstd::prelude::*;

verus! {

/// Length in bytes of an AES-256-GCM nonce.
pub const AES_GCM_NONCE_LEN: usize = 12;

/// Length in bytes of an AES-256-GCM authentication tag.
pub const AES_GCM_TAG_LEN: usize = 16;

/// Length in bytes of a master key, a key-encryption key, and each service key.
pub const MASTER_KEY_LEN: usize = 32;

/// Argon2id memory cost in KiB: memory-hard enough to make offline guessing expensive.
pub const ARGON2_MEMORY_COST: u32 = 64 * 1024;

/// Argon2id iteration count.
pub const ARGON2_TIME_COST: u32 = 3;

/// Argon2id degree of parallelism.
pub const ARGON2_PARALLELISM: u32 = 4;

/// Length in bytes of the per-journal Argon2id salt.
pub const ARGON2_SALT_LEN: usize = 16;

/// Longest plaintext AES-GCM accepts, in bytes.
pub const GCM_P_MAX: u64 = 0xF_FFFF_FFE0;

/// Longest associated data AES-GCM accepts, in bytes.
pub const GCM_A_MAX: u64 = 0x1FFF_FFFF_FFFF_FFFF;

} // verus!
