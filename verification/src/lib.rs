//! Client-side logic for a remote analytical query service spoken to over
//! JSON-RPC: typed request/response records, the query-run lifecycle
//! (submission, polling with linear backoff, timeout, redirect following),
//! and paginated result fetching.

pub mod defaults;
pub mod flipside;
pub mod rpc;
