//! The laws of the layer: what holds of every record and every state, as
//! proved statements over the same models the adapters' and the
//! orchestrator's contracts use.
//!
//! Each law here is phrased over the model states an operation's contract
//! describes, so that, composed with those contracts, it yields the
//! corresponding fact about the executable operations.

use vstd::prelude::*;

use crate::cache::cache_find;
use crate::cache::remove_key;
use crate::cache::spec_cache_key_for;
use crate::cache::spec_cache_lookup;
use crate::cache::spec_expires_at;
use crate::cache::CacheEntryView;
use crate::cacheable::Cacheable;
use crate::cacheable::DEFAULT_CACHE_EXPIRY;
use crate::data_services::cache_after_put;
use crate::data_services::lemma_cache_after_put_find;
use crate::data_services::written_entry;
use crate::db::find_row;
use crate::db::lemma_find_index_from_is;
use crate::db::lemma_find_index_from_spec;
use crate::record::CachedRecord;
use crate::record::Record;
use crate::records::DemoStruct;
use crate::records::DemoStructView;
use crate::records::Foo;

verus! {

/// Adding a record that was absent makes a read addressed by its id see
/// exactly that record: with `add`'s and `fetch_by_id`'s contracts, an
/// `add` of `v` followed by a `fetch_by_id` of `v`'s id returns a value
/// equal to `v`.
pub proof fn lemma_add_then_fetch_by_id<T: Record>(rows: Seq<T::V>, v: T::V)
    requires
        find_row::<T>(rows, T::spec_id_of(v)) is None,
    ensures
        find_row::<T>(rows.push(v), T::spec_id_of(v)) == Some(v),
{
    let id = T::spec_id_of(v);
    let rows2 = rows.push(v);
    lemma_find_index_from_spec::<T>(rows, id, 0);
    assert forall|j: int| 0 <= j < rows.len() implies T::spec_id_of(#[trigger] rows2[j]) != id by {
        assert(rows2[j] == rows[j]);
    }
    lemma_find_index_from_is::<T>(rows2, id, 0, rows.len() as int);
}

/// Adding the same id twice fails the second time and leaves the first
/// value in place: after an `add` of `v`, any record `w` carrying `v`'s
/// id is found present, so by `add`'s contract a second `add` fails with
/// `IdExists` and changes nothing — and what the store holds under the id
/// is still `v`.
pub proof fn lemma_add_twice<T: Record>(rows: Seq<T::V>, v: T::V, w: T::V)
    requires
        find_row::<T>(rows, T::spec_id_of(v)) is None,
        T::spec_id_of(w) == T::spec_id_of(v),
    ensures
        find_row::<T>(rows.push(v), T::spec_id_of(w)) == Some(v),
{
    lemma_add_then_fetch_by_id::<T>(rows, v);
}

/// A cached record is served from the cache alone, until its lifetime
/// runs out: after a write of `v` at `now0`, a lookup of `v`'s key at any
/// `now1` before the expiry moment yields `v`'s serialized text, which
/// decodes back to `v` — whatever the store holds, since no part of the
/// statement depends on it.  At or after the expiry moment the lookup
/// misses.
pub proof fn lemma_cache_serves_until_expiry<T: CachedRecord>(
    entries: Seq<CacheEntryView>,
    v: T::V,
    now0: u64,
    now1: u64,
)
    ensures
        ({
            let key = spec_cache_key_for::<T>(T::spec_id_of(v));
            let entries2 = cache_after_put(entries, written_entry::<T>(v, now0));
            &&& now1 < spec_expires_at(now0, T::spec_cache_expiry()) ==> spec_cache_lookup(
                entries2,
                key,
                now1,
            ) == Some(T::spec_encode(v))
            &&& now1 >= spec_expires_at(now0, T::spec_cache_expiry()) ==> spec_cache_lookup(
                entries2,
                key,
                now1,
            ) is None
            &&& T::spec_decode(T::spec_encode(v)) == Some(v)
        }),
{
    lemma_cache_after_put_find(entries, written_entry::<T>(v, now0));
    T::lemma_encode_decode(v);
}

/// Read-through populates the cache: the entry a cache miss writes back
/// after finding `v` in the store is the same entry a direct write of `v`
/// leaves, so by [`lemma_cache_serves_until_expiry`] a second cached
/// fetch before the expiry moment is served from the cache alone.
pub proof fn lemma_read_through_populates<T: CachedRecord>(
    entries: Seq<CacheEntryView>,
    v: T::V,
    now0: u64,
    now1: u64,
)
    ensures
        ({
            let key = spec_cache_key_for::<T>(T::spec_id_of(v));
            let entries2 = cache_after_put(entries, written_entry::<T>(v, now0));
            &&& now1 < spec_expires_at(now0, T::spec_cache_expiry()) ==> spec_cache_lookup(
                entries2,
                key,
                now1,
            ) == Some(T::spec_encode(v))
            &&& T::spec_decode(T::spec_encode(v)) == Some(v)
        }),
{
    lemma_cache_serves_until_expiry::<T>(entries, v, now0, now1);
}

/// A single-field update of the description changes the description and
/// nothing else, and the cache entry the refreshed record is written
/// under carries a lifetime counted from the write's own moment — the
/// lifetime is reset, not inherited: with `update_cached`'s and
/// `fetch_by_id_cached`'s contracts, a cached fetch before the new expiry
/// moment returns the refreshed record.
pub proof fn lemma_update_cached_description(
    v: DemoStructView,
    value: Seq<char>,
    entries: Seq<CacheEntryView>,
    now0: u64,
    now1: u64,
)
    ensures
        ({
            let w = <DemoStruct as Record>::spec_set_field(v, "description"@, value);
            let e = written_entry::<DemoStruct>(w, now0);
            let entries2 = cache_after_put(entries, e);
            &&& w.description == value
            &&& w.id == v.id
            &&& w.name == v.name
            &&& e.expires_at == spec_expires_at(now0, DEFAULT_CACHE_EXPIRY)
            &&& cache_find(entries2, spec_cache_key_for::<DemoStruct>(w.id)) == Some(e)
            &&& now1 < spec_expires_at(now0, DEFAULT_CACHE_EXPIRY) ==> spec_cache_lookup(
                entries2,
                spec_cache_key_for::<DemoStruct>(w.id),
                now1,
            ) == Some(<DemoStruct as Record>::spec_encode(w))
            &&& <DemoStruct as Record>::spec_decode(<DemoStruct as Record>::spec_encode(w))
                == Some(w)
        }),
{
    reveal_strlit("id");
    reveal_strlit("name");
    reveal_strlit("description");
    assert("description"@.len() != "id"@.len());
    assert("description"@.len() != "name"@.len());
    let w = <DemoStruct as Record>::spec_set_field(v, "description"@, value);
    lemma_cache_after_put_find(entries, written_entry::<DemoStruct>(w, now0));
    lemma_cache_serves_until_expiry::<DemoStruct>(entries, w, now0, now1);
}

/// After a cache-aside delete, a cached fetch reports an empty result:
/// `delete_cached`'s contract leaves the id absent from the store and its
/// key absent from the cache, and then the lookup misses at every moment,
/// so `fetch_by_id_cached`'s contract returns the empty result.
pub proof fn lemma_deleted_fetch_empty<T: CachedRecord>(
    rows2: Seq<T::V>,
    entries2: Seq<CacheEntryView>,
    id: Seq<char>,
    now: u64,
)
    requires
        find_row::<T>(rows2, id) is None,
        cache_find(entries2, spec_cache_key_for::<T>(id)) is None,
    ensures
        spec_cache_lookup(entries2, spec_cache_key_for::<T>(id), now) is None,
        find_row::<T>(rows2, id) is None,
{
}

/// Every cache entry is the serialized text of some record.  This is the
/// shape the derived view keeps when only this layer writes it: entries
/// come from records that were persisted first, so each one decodes.
pub open spec fn cache_decodable<T: CachedRecord>(entries: Seq<CacheEntryView>) -> bool {
    forall|j: int|
        0 <= j < entries.len() ==> T::spec_decode((#[trigger] entries[j]).value) is Some
}

/// A write preserves the derived view's shape: the entry it leaves is the
/// serialized text of the record that was just persisted, and every other
/// entry is one that was already there.
pub proof fn lemma_put_keeps_cache_decodable<T: CachedRecord>(
    entries: Seq<CacheEntryView>,
    v: T::V,
    now: u64,
)
    requires
        cache_decodable::<T>(entries),
    ensures
        cache_decodable::<T>(cache_after_put(entries, written_entry::<T>(v, now))),
{
    T::lemma_encode_decode(v);
    let e = written_entry::<T>(v, now);
    let entries2 = cache_after_put(entries, e);
    let k = crate::cache::entry_index_from(entries, e.key, 0);
    crate::cache::lemma_entry_index_from_spec(entries, e.key, 0);
    assert forall|j: int| 0 <= j < entries2.len() implies T::spec_decode(
        (#[trigger] entries2[j]).value,
    ) is Some by {
        if j == k || j >= entries.len() {
            assert(entries2[j] == e);
        } else {
            assert(entries2[j] == entries[j]);
        }
    }
}

/// Eviction preserves the derived view's shape: it only removes entries.
pub proof fn lemma_evict_keeps_cache_decodable<T: CachedRecord>(
    entries: Seq<CacheEntryView>,
    key: Seq<char>,
)
    requires
        cache_decodable::<T>(entries),
    ensures
        cache_decodable::<T>(remove_key(entries, key)),
    decreases entries.len(),
{
    reveal(Seq::filter);
    if entries.len() > 0 {
        assert(cache_decodable::<T>(entries.drop_last())) by {
            assert forall|j: int| 0 <= j < entries.drop_last().len() implies T::spec_decode(
                (#[trigger] entries.drop_last()[j]).value,
            ) is Some by {
                assert(entries.drop_last()[j] == entries[j]);
            }
        }
        lemma_evict_keeps_cache_decodable::<T>(entries.drop_last(), key);
        let pred = |e: CacheEntryView| e.key != key;
        let kept = entries.drop_last().filter(pred);
        assert forall|j: int| 0 <= j < remove_key(entries, key).len() implies T::spec_decode(
            (#[trigger] remove_key(entries, key)[j]).value,
        ) is Some by {
            if j < kept.len() {
                assert(remove_key(entries, key)[j] == kept[j]);
            } else {
                assert(remove_key(entries, key)[j] == entries.last());
            }
        }
    }
}

/// A type that declares no expiry of its own lives for 3600 seconds in
/// the cache: the shared default is 3600, and the types here that do not
/// choose an expiry carry exactly it.
pub proof fn lemma_default_expiry()
    ensures
        DEFAULT_CACHE_EXPIRY == 3600,
        <Foo as Cacheable>::spec_cache_expiry() == 3600,
        <DemoStruct as Cacheable>::spec_cache_expiry() == 3600,
{
}

} // verus!
