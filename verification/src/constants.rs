use vstd::prelude::*;

verus! {

/// Shortest accepted label, in bytes.
pub const MIN_NAME_LENGTH: usize = 3;

/// Longest accepted label, in bytes.
pub const MAX_NAME_LENGTH: usize = 63;

/// Most non-TLD labels a name may carry (`pay.timmy.xlm` has two).
pub const MAX_SUBDOMAIN_DEPTH: usize = 3;

/// Longest accepted destination-chain identifier, in bytes.
pub const MAX_CHAIN_NAME_LENGTH: usize = 32;

/// Fewest years a registration may cover.
pub const MIN_REGISTRATION_YEARS: u64 = 1;

/// Most years a registration may cover.
pub const MAX_REGISTRATION_YEARS: u64 = 10;

/// Length of one registration year, in seconds.
pub const YEAR_SECONDS: u64 = 31_536_000;

/// Length of the grace period that follows expiry, in seconds.
pub const GRACE_PERIOD_SECONDS: u64 = 2_592_000;

/// Time-to-live recorded on fresh registry entries, in seconds.
pub const DEFAULT_TTL_SECONDS: u64 = 3_600;

/// Longest accepted metadata URI, in bytes.
pub const MAX_METADATA_URI_LENGTH: usize = 1_024;

} // verus!
