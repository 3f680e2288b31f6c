use vstd::prelude::*;

verus! {

/// Application configuration: the retention policy for soft-deleted
/// records.
pub struct AppConfig {
    /// Number of days to keep a record after soft-deletion.
    pub soft_delete_retention_days: u64,
}

impl AppConfig {
    /// The stock configuration: soft-deleted records are kept thirty days.
    pub fn default() -> (c: AppConfig)
        ensures
            c.soft_delete_retention_days == 30,
    {
        AppConfig { soft_delete_retention_days: 30 }
    }
}

} // verus!
