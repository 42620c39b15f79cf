//! What a cached API request is made of: where to fetch, under which key the
//! answer is cached, and for how long.

use vstd::prelude::*;

verus! {

/// A request whose answer is cached: fetched from `url` on a cache miss and
/// stored under `key` for `ttl_seconds`.
#[derive(Clone, Debug)]
pub struct CachedRequest {
    pub url: String,
    pub key: String,
    pub ttl_seconds: usize,
}

} // verus!
