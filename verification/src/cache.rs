//! The cache adapter: a namespaced, TTL-bounded key-value store of
//! serialized records.
//!
//! Keys are `"{cache_path}:{cache_id}"`; values are the records'
//! serialized text.  Every write sets the value and its expiry moment
//! together, as one entry, so there is no state in which a key exists
//! without its configured lifetime.  An entry whose expiry moment has
//! been reached counts as absent; absence is an expected state, never an
//! error.
//!
//! The clock is explicit: every operation that sets or reads a lifetime
//! takes the current moment, in seconds, from its caller.

use vstd::prelude::*;

use crate::cacheable::Cacheable;
use crate::dao_error::DaoError;
use crate::dao_error::DaoResult;
use crate::data_services_config::DataServicesConfig;
use crate::record::CachedRecord;

verus! {

/// One cache entry: a key, the text stored under it, and the moment (in
/// seconds) at which it stops being served.
pub struct CacheEntry {
    pub key: String,
    pub value: String,
    pub expires_at: u64,
}

/// The abstract value of a [`CacheEntry`].
#[verifier::ext_equal]
pub struct CacheEntryView {
    pub key: Seq<char>,
    pub value: Seq<char>,
    pub expires_at: u64,
}

impl View for CacheEntry {
    type V = CacheEntryView;

    open spec fn view(&self) -> CacheEntryView {
        CacheEntryView { key: self.key@, value: self.value@, expires_at: self.expires_at }
    }
}

/// The cache key of id `id` for records of type `T`: the type's path, a
/// colon, the id.
pub open spec fn spec_cache_key_for<T: Cacheable>(id: Seq<char>) -> Seq<char> {
    T::spec_cache_path() + seq![':'] + id
}

/// The moment `expiry` seconds after `now`, clamped to the top of the
/// clock's range.
pub open spec fn spec_expires_at(now: u64, expiry: usize) -> u64 {
    if now + expiry > u64::MAX {
        u64::MAX
    } else {
        (now + expiry) as u64
    }
}

/// The index of the first entry at or after `i` stored under `key`, or
/// the length of `entries` if there is none.
pub open spec fn entry_index_from(entries: Seq<CacheEntryView>, key: Seq<char>, i: int) -> int
    decreases entries.len() - i,
{
    if i < 0 || i >= entries.len() {
        entries.len() as int
    } else if entries[i].key == key {
        i
    } else {
        entry_index_from(entries, key, i + 1)
    }
}

/// The first entry stored under `key`, if any.
pub open spec fn cache_find(entries: Seq<CacheEntryView>, key: Seq<char>) -> Option<
    CacheEntryView,
> {
    if entry_index_from(entries, key, 0) < entries.len() {
        Some(entries[entry_index_from(entries, key, 0)])
    } else {
        None
    }
}

/// The text a read of `key` at moment `now` is served: the stored value
/// if the key holds one that has not expired, nothing otherwise.
pub open spec fn spec_cache_lookup(
    entries: Seq<CacheEntryView>,
    key: Seq<char>,
    now: u64,
) -> Option<Seq<char>> {
    match cache_find(entries, key) {
        Some(e) => if now < e.expires_at {
            Some(e.value)
        } else {
            None
        },
        None => None,
    }
}

/// The entries left after every entry under `key` is removed.
pub open spec fn remove_key(entries: Seq<CacheEntryView>, key: Seq<char>) -> Seq<CacheEntryView> {
    entries.filter(|e: CacheEntryView| e.key != key)
}

/// What the first matching index is: within bounds, no match before it,
/// and a match at it unless there is none at all.
pub proof fn lemma_entry_index_from_spec(entries: Seq<CacheEntryView>, key: Seq<char>, i: int)
    requires
        0 <= i <= entries.len(),
    ensures
        i <= entry_index_from(entries, key, i) <= entries.len(),
        forall|j: int|
            i <= j < entry_index_from(entries, key, i) ==> (#[trigger] entries[j]).key != key,
        entry_index_from(entries, key, i) < entries.len() ==> entries[entry_index_from(
            entries,
            key,
            i,
        )].key == key,
    decreases entries.len() - i,
{
    if !(i >= entries.len() || entries[i].key == key) {
        lemma_entry_index_from_spec(entries, key, i + 1);
    }
}

/// Where a first match is known to lie, `entry_index_from` finds it.
pub proof fn lemma_entry_index_from_is(
    entries: Seq<CacheEntryView>,
    key: Seq<char>,
    i: int,
    k: int,
)
    requires
        0 <= i <= k <= entries.len(),
        forall|j: int| i <= j < k ==> (#[trigger] entries[j]).key != key,
        k == entries.len() || entries[k].key == key,
    ensures
        entry_index_from(entries, key, i) == k,
    decreases k - i,
{
    if i < k {
        lemma_entry_index_from_is(entries, key, i + 1, k);
    }
}

/// Builds the cache key for id `id` of records of type `T`.
pub fn cache_key<T: Cacheable>(id: &str) -> (r: String)
    ensures
        r@ == spec_cache_key_for::<T>(id@),
{
    proof {
        reveal_strlit(":");
    }
    let mut r = String::from_str(T::cache_path());
    r.append(":");
    r.append(id);
    proof {
        assert(r@ =~= spec_cache_key_for::<T>(id@));
    }
    r
}

/// The cache adapter.
///
/// Its view is the sequence of its entries; reads see the first entry
/// under a key.  The adapter knows nothing of the persistent store.
pub struct Cache {
    /// The connection configuration the adapter was created with.
    pub config: DataServicesConfig,
    /// The live and expired entries, oldest first.
    pub entries: Vec<CacheEntry>,
}

impl View for Cache {
    type V = Seq<CacheEntryView>;

    open spec fn view(&self) -> Seq<CacheEntryView> {
        Seq::new(self.entries@.len(), |i: int| self.entries@[i]@)
    }
}

impl Cache {
    /// A cache adapter with no entries.
    pub fn new(config: DataServicesConfig) -> (r: Self)
        ensures
            r@ == Seq::<CacheEntryView>::empty(),
            r.config == config,
    {
        let r = Cache { config, entries: Vec::new() };
        proof {
            assert(r@ =~= Seq::<CacheEntryView>::empty());
        }
        r
    }

    /// The index of the first entry under `key`, or the number of entries
    /// if there is none.
    fn locate(&self, key: &String) -> (r: usize)
        ensures
            r as int == entry_index_from(self@, key@, 0),
            r <= self.entries@.len(),
    {
        let n = self.entries.len();
        let mut i: usize = 0;
        loop
            invariant
                i <= n,
                n == self.entries@.len(),
                forall|j: int| 0 <= j < i ==> (#[trigger] self@[j]).key != key@,
            ensures
                i <= n,
                forall|j: int| 0 <= j < i ==> (#[trigger] self@[j]).key != key@,
                i == n || self@[i as int].key == key@,
            decreases n - i,
        {
            if i == n {
                break ;
            }
            if self.entries[i].key == *key {
                break ;
            }
            i = i + 1;
        }
        proof {
            lemma_entry_index_from_is(self@, key@, 0, i as int);
        }
        i
    }

    /// Stores a record: serializes it and sets the value together with
    /// its expiry moment, as one entry under the record's key.
    ///
    /// A key is never duplicated: an existing entry under the same key is
    /// replaced, value and lifetime in one step.
    pub fn put<T: CachedRecord>(&mut self, value: &T, now: u64) -> (r: DaoResult<()>)
        ensures
            r is Ok,
            ({
                let key = spec_cache_key_for::<T>(T::spec_id_of(value@));
                let e = CacheEntryView {
                    key,
                    value: T::spec_encode(value@),
                    expires_at: spec_expires_at(now, T::spec_cache_expiry()),
                };
                let k = entry_index_from(old(self)@, key, 0);
                final(self)@ == if k < old(self)@.len() {
                    old(self)@.update(k, e)
                } else {
                    old(self)@.push(e)
                } && cache_find(final(self)@, key) == Some(e)
            }),
    {
        let cid = value.cache_id();
        proof {
            value.lemma_cache_id_of_view();
        }
        let key = cache_key::<T>(cid.as_str());
        let data = value.encode();
        let expiry = T::cache_expiry();
        let expires_at: u64 = if now > u64::MAX - (expiry as u64) {
            u64::MAX
        } else {
            now + (expiry as u64)
        };
        let entry = CacheEntry { key, value: data, expires_at };
        let ghost entries0 = self@;
        let ghost ev = entry@;
        let k = self.locate(&entry.key);
        proof {
            lemma_entry_index_from_spec(entries0, ev.key, 0);
        }
        if k < self.entries.len() {
            let _replaced = self.entries.remove(k);
            self.entries.insert(k, entry);
            proof {
                assert(self@ =~= entries0.update(k as int, ev));
                assert forall|j: int| 0 <= j < k implies (#[trigger] self@[j]).key != ev.key by {
                    assert(self@[j] == entries0[j]);
                }
                lemma_entry_index_from_is(self@, ev.key, 0, k as int);
            }
        } else {
            self.entries.push(entry);
            proof {
                assert(self@ =~= entries0.push(ev));
                assert forall|j: int| 0 <= j < entries0.len() implies (#[trigger] self@[j]).key
                    != ev.key by {
                    assert(self@[j] == entries0[j]);
                }
                lemma_entry_index_from_is(self@, ev.key, 0, entries0.len() as int);
            }
        }
        Ok(())
    }

    /// Reads the entry under the key for `id` at moment `now`.
    ///
    /// An absent or expired entry is a miss, reported as an empty result;
    /// an entry whose text does not decode is a serialization error, with
    /// the offending key and text preserved in the message.
    pub fn fetch<T: CachedRecord>(&self, id: &str, now: u64) -> (r: DaoResult<Option<T>>)
        ensures
            ({
                let key = spec_cache_key_for::<T>(id@);
                match spec_cache_lookup(self@, key, now) {
                    Some(raw) => match T::spec_decode(raw) {
                        Some(v) => r matches Ok(Some(t)) && t@ == v,
                        None => r matches Err(e) && e matches DaoError::SerializationError(_),
                    },
                    None => r matches Ok(None),
                }
            }),
    {
        let key = cache_key::<T>(id);
        let k = self.locate(&key);
        if k == self.entries.len() {
            return Ok(None);
        }
        let entry = &self.entries[k];
        if entry.expires_at <= now {
            return Ok(None);
        }
        match T::decode(entry.value.as_str()) {
            Some(t) => Ok(Some(t)),
            None => {
                proof {
                    reveal_strlit("cache entry under ");
                    reveal_strlit(" does not decode: ");
                }
                let mut msg = String::from_str("cache entry under ");
                msg.append(key.as_str());
                msg.append(" does not decode: ");
                msg.append(entry.value.as_str());
                Err(DaoError::SerializationError(msg))
            },
        }
    }

    /// Removes the entry under the key for `id`.  An absent key is not an
    /// error.
    pub fn delete<T: Cacheable>(&mut self, id: &str) -> (r: DaoResult<()>)
        ensures
            r is Ok,
            ({
                let key = spec_cache_key_for::<T>(id@);
                final(self)@ == remove_key(old(self)@, key) && cache_find(
                    final(self)@,
                    key,
                ) is None
            }),
    {
        let key = cache_key::<T>(id);
        let ghost pred = |e: CacheEntryView| e.key != key@;
        let n = self.entries.len();
        let ghost entries0 = self@;
        let mut kept: Vec<CacheEntry> = Vec::new();
        let mut i: usize = 0;
        loop
            invariant
                i <= n,
                n == self.entries@.len(),
                entries0 == self@,
                pred == (|e: CacheEntryView| e.key != key@),
                Seq::new(kept@.len(), |j: int| kept@[j]@) == entries0.subrange(0, i as int).filter(
                    pred,
                ),
            ensures
                Seq::new(kept@.len(), |j: int| kept@[j]@) == entries0.filter(pred),
            decreases n - i,
        {
            if i == n {
                proof {
                    assert(entries0.subrange(0, i as int) =~= entries0);
                }
                break ;
            }
            let ghost prefix = entries0.subrange(0, i as int);
            let ghost prefix2 = entries0.subrange(0, i + 1);
            proof {
                reveal(Seq::filter);
                assert(prefix2.drop_last() =~= prefix);
                assert(prefix2.last() == entries0[i as int]);
            }
            if !(self.entries[i].key == key) {
                let ghost kept0 = Seq::new(kept@.len(), |j: int| kept@[j]@);
                let e = &self.entries[i];
                kept.push(
                    CacheEntry {
                        key: e.key.clone(),
                        value: e.value.clone(),
                        expires_at: e.expires_at,
                    },
                );
                proof {
                    assert(Seq::new(kept@.len(), |j: int| kept@[j]@) =~= kept0.push(
                        entries0[i as int],
                    ));
                }
            }
            i = i + 1;
        }
        self.entries = kept;
        proof {
            let filtered = entries0.filter(pred);
            assert(self@ =~= filtered);
            assert forall|j: int| 0 <= j < filtered.len() implies (#[trigger] filtered[j]).key
                != key@ by {
                entries0.lemma_filter_pred(pred, j);
            }
            lemma_entry_index_from_is(self@, key@, 0, self@.len() as int);
        }
        Ok(())
    }
}

} // verus!
