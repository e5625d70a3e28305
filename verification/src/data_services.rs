//! The orchestrator: the store and the cache composed into cache-aside
//! operations with a fixed ordering rule.
//!
//! The store is the source of truth; the cache is a derived view.  On
//! every write path the store is mutated first and the cache only
//! afterwards, so no value is ever cached that was not persisted first,
//! and store deletion always precedes cache eviction.  There is no
//! rollback and no retry: the first failure aborts the operation and is
//! returned, with the store-side effect, if any, already committed.

use vstd::prelude::*;

use crate::cache::cache_find;
use crate::cache::entry_index_from;
use crate::cache::remove_key;
use crate::cache::spec_cache_key_for;
use crate::cache::spec_cache_lookup;
use crate::cache::spec_expires_at;
use crate::cache::Cache;
use crate::cache::CacheEntryView;
use crate::dao_error::DaoError;
use crate::dao_error::DaoResult;
use crate::data_services_config::DataServicesConfig;
use crate::db::filter_rows;
use crate::db::find_index;
use crate::db::find_row;
use crate::db::ids_unique;
use crate::db::lemma_find_row_id;
use crate::db::DB;
use crate::record::CachedRecord;
use crate::record::Record;

verus! {

/// The cache entry a successful write of `v` leaves at moment `now`: the
/// record's serialized text under the record's key, set together with its
/// expiry moment.
pub open spec fn written_entry<T: CachedRecord>(v: T::V, now: u64) -> CacheEntryView {
    CacheEntryView {
        key: spec_cache_key_for::<T>(T::spec_id_of(v)),
        value: T::spec_encode(v),
        expires_at: spec_expires_at(now, T::spec_cache_expiry()),
    }
}

/// The cache contents after an entry `e` is written over `entries`: the
/// first entry under its key is replaced, or, if its key is new, the
/// entry is appended.
pub open spec fn cache_after_put(entries: Seq<CacheEntryView>, e: CacheEntryView) -> Seq<
    CacheEntryView,
> {
    let k = entry_index_from(entries, e.key, 0);
    if k < entries.len() {
        entries.update(k, e)
    } else {
        entries.push(e)
    }
}

/// A write leaves its entry as what reads of its key find, wherever the
/// entry landed.
pub proof fn lemma_cache_after_put_find(entries: Seq<CacheEntryView>, e: CacheEntryView)
    ensures
        cache_find(cache_after_put(entries, e), e.key) == Some(e),
{
    let k = entry_index_from(entries, e.key, 0);
    let entries2 = cache_after_put(entries, e);
    crate::cache::lemma_entry_index_from_spec(entries, e.key, 0);
    if k < entries.len() {
        assert forall|j: int| 0 <= j < k implies (#[trigger] entries2[j]).key != e.key by {
            assert(entries2[j] == entries[j]);
        }
        crate::cache::lemma_entry_index_from_is(entries2, e.key, 0, k);
    } else {
        assert forall|j: int| 0 <= j < entries.len() implies (#[trigger] entries2[j]).key
            != e.key by {
            assert(entries2[j] == entries[j]);
        }
        crate::cache::lemma_entry_index_from_is(entries2, e.key, 0, entries.len() as int);
    }
}

/// The orchestrator for one record type: a store adapter and a cache
/// adapter behind cache-aside operations.
///
/// It holds no state of its own beyond the two adapters and the
/// configuration; the adapters never call each other.
pub struct DataServices<T: Record> {
    /// The connection configuration shared with both adapters.
    pub config: DataServicesConfig,
    /// The key-value cache: the derived view.
    pub cache: Cache,
    /// The document store: the source of truth.
    pub db: DB<T>,
}

impl<T: Record> DataServices<T> {
    /// An orchestrator over an empty store and an empty cache.
    pub fn new(config: DataServicesConfig) -> (r: Self)
        ensures
            r.db@ == Seq::<T::V>::empty(),
            r.cache@ == Seq::<CacheEntryView>::empty(),
            r.config == config,
    {
        let cache = Cache::new(config.clone());
        let db = DB::new(config.clone());
        DataServices { config, cache, db }
    }

    /// Adds a record to the store.  The cache is not involved.
    pub fn add(&mut self, value: T) -> (r: DaoResult<T>)
        ensures
            final(self).cache == old(self).cache,
            final(self).config == old(self).config,
            ({
                let id = T::spec_id_of(value@);
                match r {
                    Ok(t) => find_row::<T>(old(self).db@, id) is None && final(self).db@ == old(self).db@.push(value@) && t@ == value@ && find_row::<T>(final(self).db@, id)
                        == Some(value@),
                    Err(e) => find_row::<T>(old(self).db@, id) is Some && final(self).db@ == old(self).db@ && (e matches DaoError::IdExists(s) && s@ == id),
                }
            }),
    {
        self.db.add(value)
    }

    /// Adds a record to the store and, only once that has succeeded,
    /// writes it to the cache: a value that failed to persist is never
    /// cached.
    pub fn add_cached(&mut self, value: T, now: u64) -> (r: DaoResult<T>) where T: CachedRecord
        ensures
            final(self).config == old(self).config,
            ({
                let id = T::spec_id_of(value@);
                match r {
                    Ok(t) => {
                        &&& find_row::<T>(old(self).db@, id) is None
                        &&& final(self).db@ == old(self).db@.push(value@)
                        &&& t@ == value@
                        &&& final(self).cache@ == cache_after_put(
                            old(self).cache@,
                            written_entry::<T>(value@, now),
                        )
                        &&& cache_find(final(self).cache@, spec_cache_key_for::<T>(id)) == Some(
                            written_entry::<T>(value@, now),
                        )
                    },
                    Err(e) => {
                        &&& find_row::<T>(old(self).db@, id) is Some
                        &&& final(self).db@ == old(self).db@
                        &&& final(self).cache == old(self).cache
                        &&& (e matches DaoError::IdExists(s) && s@ == id)
                    },
                }
            }),
    {
        match self.db.add(value) {
            Ok(t) => match self.cache.put(&t, now) {
                Ok(_) => Ok(t),
                Err(e) => {
                    proof {
                        assert(false);
                    }
                    Err(e)
                },
            },
            Err(e) => Err(e),
        }
    }

    /// Reads a record straight from the store.  The cache is not
    /// involved.
    pub fn fetch_by_id(&self, id: &str) -> (r: DaoResult<Option<T>>)
        ensures
            match r {
                Ok(o) => match o {
                    Some(t) => find_row::<T>(self.db@, id@) == Some(t@),
                    None => find_row::<T>(self.db@, id@) is None,
                },
                Err(_) => false,
            },
    {
        self.db.fetch_by_id(id)
    }

    /// Reads the records matching an equality filter on one field, or
    /// every record when no complete filter is given.  Nothing matching
    /// is an empty sequence, never an error.
    pub fn fetch(&self, key: Option<&str>, value: Option<&str>) -> (r: DaoResult<Vec<T>>)
        ensures
            ({
                let sel = match (key, value) {
                    (Some(k), Some(va)) => filter_rows::<T>(self.db@, k@, va@),
                    _ => self.db@,
                };
                match r {
                    Ok(out) => out@.map_values(|t: T| t@) == sel,
                    Err(_) => false,
                }
            }),
    {
        match self.db.fetch(key, value) {
            Ok(Some(v)) => Ok(v),
            Ok(None) => {
                let out: Vec<T> = Vec::new();
                proof {
                    let sel = match (key, value) {
                        (Some(k), Some(va)) => filter_rows::<T>(self.db@, k@, va@),
                        _ => self.db@,
                    };
                    assert(out@.map_values(|t: T| t@) =~= sel);
                }
                Ok(out)
            },
            Err(e) => {
                proof {
                    assert(false);
                }
                Err(e)
            },
        }
    }

    /// Reads a possibly cached record: the cache first, and on a hit the
    /// store is not consulted.  On a miss the store is read and, if it
    /// holds the record, the cache is populated with it (read-through)
    /// before it is returned.
    pub fn fetch_by_id_cached(&mut self, id: &str, now: u64) -> (r: DaoResult<
        Option<T>,
    >) where T: CachedRecord
        ensures
            final(self).config == old(self).config,
            ({
                let key = spec_cache_key_for::<T>(id@);
                match spec_cache_lookup(old(self).cache@, key, now) {
                    Some(raw) => match T::spec_decode(raw) {
                        Some(v) => r matches Ok(Some(t)) && t@ == v && final(self).db == old(self).db && final(self).cache == old(self).cache,
                        None => r matches Err(e) && (e matches DaoError::SerializationError(_))
                            && final(self).db == old(self).db && final(self).cache == old(self).cache,
                    },
                    None => match find_row::<T>(old(self).db@, id@) {
                        Some(v) => {
                            &&& r matches Ok(Some(t)) && t@ == v
                            &&& final(self).db == old(self).db
                            &&& final(self).cache@ == cache_after_put(
                                old(self).cache@,
                                written_entry::<T>(v, now),
                            )
                            &&& cache_find(final(self).cache@, key) == Some(
                                written_entry::<T>(v, now),
                            )
                        },
                        None => r matches Ok(None) && final(self).db == old(self).db && final(self).cache == old(self).cache,
                    },
                }
            }),
    {
        match self.cache.fetch::<T>(id, now) {
            Err(e) => Err(e),
            Ok(Some(t)) => Ok(Some(t)),
            Ok(None) => match self.db.fetch_by_id(id) {
                Err(e) => {
                    proof {
                        assert(false);
                    }
                    Err(e)
                },
                Ok(Some(t)) => {
                    proof {
                        lemma_find_row_id::<T>(self.db@, id@);
                    }
                    match self.cache.put(&t, now) {
                        Ok(_) => Ok(Some(t)),
                        Err(e) => {
                            proof {
                                assert(false);
                            }
                            Err(e)
                        },
                    }
                },
                Ok(None) => Ok(None),
            },
        }
    }

    /// Applies a single-field set-update to the record addressed by `id`
    /// in the store, and returns the full updated record.  The cache is
    /// not involved.
    pub fn update(&mut self, id: &str, key: &str, value: &str) -> (r: DaoResult<Option<T>>)
        ensures
            final(self).cache == old(self).cache,
            final(self).config == old(self).config,
            ({
                let k = find_index::<T>(old(self).db@, id@);
                let rows2 = if k < old(self).db@.len() {
                    old(self).db@.update(k, T::spec_set_field(old(self).db@[k], key@, value@))
                } else {
                    old(self).db@
                };
                final(self).db@ == rows2 && match r {
                    Ok(o) => match o {
                        Some(t) => find_row::<T>(rows2, id@) == Some(t@),
                        None => find_row::<T>(rows2, id@) is None,
                    },
                    Err(_) => false,
                }
            }),
    {
        self.db.update(id, key, value)
    }

    /// Applies a single-field set-update to the store and, if the id
    /// still addresses a record afterwards, writes the complete refreshed
    /// record to the cache — which also resets its lifetime.  If the
    /// store update finds nothing, the cache is left untouched.
    pub fn update_cached(&mut self, id: &str, key: &str, value: &str, now: u64) -> (r: DaoResult<
        Option<T>,
    >) where T: CachedRecord
        ensures
            final(self).config == old(self).config,
            ({
                let k = find_index::<T>(old(self).db@, id@);
                let rows2 = if k < old(self).db@.len() {
                    old(self).db@.update(k, T::spec_set_field(old(self).db@[k], key@, value@))
                } else {
                    old(self).db@
                };
                final(self).db@ == rows2 && match r {
                    Ok(Some(t)) => {
                        &&& find_row::<T>(rows2, id@) == Some(t@)
                        &&& final(self).cache@ == cache_after_put(
                            old(self).cache@,
                            written_entry::<T>(t@, now),
                        )
                        &&& cache_find(final(self).cache@, spec_cache_key_for::<T>(id@)) == Some(
                            written_entry::<T>(t@, now),
                        )
                    },
                    Ok(None) => find_row::<T>(rows2, id@) is None && final(self).cache == old(self).cache,
                    Err(_) => false,
                }
            }),
    {
        match self.db.update(id, key, value) {
            Err(e) => {
                proof {
                    assert(false);
                }
                Err(e)
            },
            Ok(None) => Ok(None),
            Ok(Some(t)) => {
                proof {
                    lemma_find_row_id::<T>(self.db@, id@);
                }
                match self.cache.put(&t, now) {
                    Ok(_) => Ok(Some(t)),
                    Err(e) => {
                        proof {
                            assert(false);
                        }
                        Err(e)
                    },
                }
            },
        }
    }

    /// Removes the record addressed by `id` from the store.  The cache is
    /// not involved: a cached copy, if any, outlives the record until it
    /// expires.
    pub fn delete(&mut self, id: &str) -> (r: DaoResult<()>)
        ensures
            r is Ok,
            final(self).cache == old(self).cache,
            final(self).config == old(self).config,
            ({
                let k = find_index::<T>(old(self).db@, id@);
                final(self).db@ == if k < old(self).db@.len() {
                    old(self).db@.remove(k)
                } else {
                    old(self).db@
                }
            }),
            ids_unique::<T>(old(self).db@) ==> find_row::<T>(final(self).db@, id@) is None,
    {
        self.db.delete(id)
    }

    /// Removes the record from the store first, then evicts it from the
    /// cache.  Evicting first could let a concurrent read re-populate the
    /// cache with the record about to be deleted.
    pub fn delete_cached(&mut self, id: &str) -> (r: DaoResult<()>) where T: CachedRecord
        ensures
            r is Ok,
            final(self).config == old(self).config,
            ({
                let k = find_index::<T>(old(self).db@, id@);
                final(self).db@ == if k < old(self).db@.len() {
                    old(self).db@.remove(k)
                } else {
                    old(self).db@
                }
            }),
            ids_unique::<T>(old(self).db@) ==> find_row::<T>(final(self).db@, id@) is None,
            final(self).cache@ == remove_key(old(self).cache@, spec_cache_key_for::<T>(id@)),
            cache_find(final(self).cache@, spec_cache_key_for::<T>(id@)) is None,
    {
        match self.db.delete(id) {
            Err(e) => {
                proof {
                    assert(false);
                }
                Err(e)
            },
            Ok(_) => match self.cache.delete::<T>(id) {
                Err(e) => {
                    proof {
                        assert(false);
                    }
                    Err(e)
                },
                Ok(_) => Ok(()),
            },
        }
    }
}

} // verus!
