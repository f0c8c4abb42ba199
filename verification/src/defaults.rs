//! Process-wide defaults, immutable after start. Every one of them can be
//! overridden per query.

use vstd::prelude::*;

verus! {

/// Endpoint the client binds to when no base URL override is given.
pub const API_BASE_URL: &'static str = "https://api-v2.flipsidecrypto.xyz/json-rpc";

/// Default lifetime of a stored result, in minutes.
pub const TTL_MINUTES: u64 = 60;

/// Default acceptable age of a cached result, in minutes; zero means no
/// cached-result reuse floor.
pub const MAX_AGE_MINUTES: u64 = 0;

/// Default cache flag: cached results may be reused.
pub const CACHED: bool = true;

/// Default owner of the data source.
pub const DATA_PROVIDER: &'static str = "flipside";

/// Default data source queries execute against.
pub const DATA_SOURCE: &'static str = "snowflake-default";

/// Default wall-clock budget for a blocking run, in milliseconds (20 minutes).
pub const TIMEOUT_MS: u64 = 1_200_000;

/// Default interval between two status polls, in milliseconds.
pub const RETRY_INTERVAL_MS: u64 = 500;

/// Default number of rows per results page.
pub const PAGE_SIZE: usize = 100000;

/// Default (first) page number; pages are 1-based.
pub const PAGE_NUMBER: usize = 1;

} // verus!
