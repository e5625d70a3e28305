//! The cache contract: per-type metadata that places a record type in the
//! key-value cache and bounds the lifetime of its entries.

use vstd::prelude::*;

verus! {

/// The cache lifetime, in seconds, used by types that do not declare one.
pub const DEFAULT_CACHE_EXPIRY: usize = 3600;

/// A record type whose values may be kept in the key-value cache.
///
/// Each implementing type names its own path into the cache key namespace
/// and its cache lifetime in seconds; each instance states its own cache
/// id.  A cache entry for an instance lives under the key
/// `"{cache_path}:{cache_id}"`.
pub trait Cacheable {
    /// The namespace prefix of this type's cache keys.
    spec fn spec_cache_path() -> Seq<char>;

    /// The cache id of this instance.
    spec fn spec_cache_id(&self) -> Seq<char>;

    /// The cache lifetime of this type's entries, in seconds.  Types that
    /// declare none live for [`DEFAULT_CACHE_EXPIRY`] seconds.
    open spec fn spec_cache_expiry() -> usize {
        DEFAULT_CACHE_EXPIRY
    }

    /// The path in the cache key namespace for this type.
    fn cache_path() -> (r: &'static str)
        ensures
            r@ == Self::spec_cache_path(),
    ;

    /// Each cacheable instance provides its own id.
    fn cache_id(&self) -> (r: String)
        ensures
            r@ == self.spec_cache_id(),
    ;

    /// Cache lifetime for this type, in seconds.  Types that do not choose
    /// an expiry return [`DEFAULT_CACHE_EXPIRY`].
    fn cache_expiry() -> (r: usize)
        ensures
            r == Self::spec_cache_expiry(),
    ;
}

} // verus!
