//! The orchestrator end to end: cache-aside reads and writes over the
//! store and cache models, with an explicit clock.

use swanky_persist::cache::CacheEntry;
use swanky_persist::dao_error::DaoError;
use swanky_persist::data_services::DataServices;
use swanky_persist::data_services_config::DataServicesConfig;
use swanky_persist::records::DemoStruct;

fn demo_config() -> DataServicesConfig {
    DataServicesConfig::new(
        "demo".to_string(),
        "demo-app".to_string(),
        "mongodb://127.0.0.1:27017".to_string(),
        "redis://127.0.0.1".to_string(),
    )
}

fn services() -> DataServices<DemoStruct> {
    DataServices::new(demo_config())
}

fn demo(id: &str, name: &str, description: &str) -> DemoStruct {
    DemoStruct {
        id: id.to_string(),
        name: name.to_string(),
        description: description.to_string(),
    }
}

#[test]
fn add_then_fetch_by_id_returns_equal() {
    let mut s = services();
    let r = demo("id_1", "Demo", "d0");
    let added = s.add(r.clone()).unwrap();
    assert_eq!(added, r);
    assert_eq!(s.fetch_by_id("id_1").unwrap(), Some(r));
}

#[test]
fn fetch_by_id_on_empty_store_is_empty() {
    let s = services();
    assert_eq!(s.fetch_by_id("id_1").unwrap(), None);
}

#[test]
fn add_twice_fails_and_keeps_first_value() {
    let mut s = services();
    let first = demo("id_1", "first", "d0");
    s.add(first.clone()).unwrap();
    let second = demo("id_1", "second", "d9");
    match s.add(second) {
        Err(DaoError::IdExists(id)) => assert_eq!(id, "id_1"),
        other => panic!("expected IdExists, got {:?}", other),
    }
    assert_eq!(s.fetch_by_id("id_1").unwrap(), Some(first));
}

#[test]
fn cached_value_survives_store_delete_until_expiry() {
    let mut s = services();
    let r = demo("id_1", "Demo", "d0");
    s.add_cached(r.clone(), 0).unwrap();
    // The store entry goes away out of band; the cached copy remains.
    s.delete("id_1").unwrap();
    assert_eq!(s.fetch_by_id("id_1").unwrap(), None);
    assert_eq!(s.fetch_by_id_cached("id_1", 3599).unwrap(), Some(r));
    // At the expiry moment the entry counts as absent, and the store has
    // nothing either.
    assert_eq!(s.fetch_by_id_cached("id_1", 3600).unwrap(), None);
}

#[test]
fn read_through_populates_cache() {
    let mut s = services();
    let r = demo("id_1", "Demo", "d0");
    // The store holds the record; the cache is cold.
    s.add(r.clone()).unwrap();
    assert_eq!(s.fetch_by_id_cached("id_1", 0).unwrap(), Some(r.clone()));
    // With the store record gone, the second cached fetch no longer
    // needs the store.
    s.delete("id_1").unwrap();
    assert_eq!(s.fetch_by_id_cached("id_1", 10).unwrap(), Some(r));
    assert_eq!(s.fetch_by_id_cached("id_1", 3600).unwrap(), None);
}

#[test]
fn update_cached_changes_one_field_and_resets_ttl() {
    let mut s = services();
    s.add_cached(demo("id_1", "Demo", "d0"), 0).unwrap();
    let updated = s
        .update_cached("id_1", "description", "d1", 1000)
        .unwrap()
        .unwrap();
    assert_eq!(updated, demo("id_1", "Demo", "d1"));
    // Served from the cache alone, well past the original entry's
    // lifetime: the rewrite at 1000 reset the clock.
    s.delete("id_1").unwrap();
    assert_eq!(
        s.fetch_by_id_cached("id_1", 4599).unwrap(),
        Some(demo("id_1", "Demo", "d1"))
    );
    assert_eq!(s.fetch_by_id_cached("id_1", 4600).unwrap(), None);
}

#[test]
fn update_cached_on_missing_id_is_empty() {
    let mut s = services();
    assert_eq!(s.update_cached("nope", "description", "d1", 0).unwrap(), None);
}

#[test]
fn update_of_unknown_field_returns_record_unchanged() {
    let mut s = services();
    let r = demo("id_1", "Demo", "d0");
    s.add(r.clone()).unwrap();
    assert_eq!(s.update("id_1", "owner", "me").unwrap(), Some(r));
}

#[test]
fn delete_cached_removes_both_sides() {
    let mut s = services();
    s.add_cached(demo("id_1", "Demo", "d0"), 0).unwrap();
    s.delete_cached("id_1").unwrap();
    assert_eq!(s.fetch_by_id_cached("id_1", 0).unwrap(), None);
    assert_eq!(s.fetch_by_id("id_1").unwrap(), None);
}

#[test]
fn delete_of_absent_id_is_success() {
    let mut s = services();
    s.delete("never-there").unwrap();
    s.delete_cached("never-there").unwrap();
}

#[test]
fn fetch_filters_on_one_field() {
    let mut s = services();
    let a = demo("a", "x", "d0");
    let b = demo("b", "y", "d0");
    let c = demo("c", "x", "d2");
    s.add(a.clone()).unwrap();
    s.add(b.clone()).unwrap();
    s.add(c.clone()).unwrap();
    assert_eq!(
        s.fetch(Some("name"), Some("x")).unwrap(),
        vec![a.clone(), c.clone()]
    );
    assert_eq!(s.fetch(None, None).unwrap(), vec![a, b, c]);
    assert_eq!(s.fetch(Some("name"), Some("zzz")).unwrap(), vec![]);
    assert_eq!(s.fetch(Some("owner"), Some("x")).unwrap(), vec![]);
}

#[test]
fn cache_key_is_path_colon_id() {
    let mut s = services();
    s.add_cached(demo("id_1", "Demo", "d0"), 0).unwrap();
    assert_eq!(s.cache.entries.len(), 1);
    assert_eq!(s.cache.entries[0].key, "demo_struct:id_1");
    assert_eq!(s.cache.entries[0].value, "4:id_14:Demo2:d0");
    assert_eq!(s.cache.entries[0].expires_at, 3600);
}

#[test]
fn malformed_cache_entry_is_a_serialization_error() {
    let mut s = services();
    // An entry written out of band, with text that is not an encoded
    // record.
    s.cache.entries.push(CacheEntry {
        key: "demo_struct:bad".to_string(),
        value: "garbage".to_string(),
        expires_at: 100,
    });
    match s.fetch_by_id_cached("bad", 0) {
        Err(DaoError::SerializationError(msg)) => {
            assert!(msg.contains("demo_struct:bad"));
            assert!(msg.contains("garbage"));
        }
        other => panic!("expected SerializationError, got {:?}", other),
    }
}

#[test]
fn ttl_is_clamped_at_the_top_of_the_clock() {
    let mut s = services();
    let r = demo("id_1", "Demo", "d0");
    s.add_cached(r.clone(), u64::MAX - 10).unwrap();
    s.delete("id_1").unwrap();
    assert_eq!(s.cache.entries[0].expires_at, u64::MAX);
    assert_eq!(s.fetch_by_id_cached("id_1", u64::MAX - 1).unwrap(), Some(r));
}

#[test]
fn end_to_end_demo() {
    let mut s = services();
    let original = demo("id_1", "Demo", "d0");
    let added = s.add_cached(original.clone(), 0).unwrap();
    assert_eq!(added, original);
    assert_eq!(s.fetch_by_id_cached("id_1", 0).unwrap(), Some(original));
    let updated = s
        .update_cached("id_1", "description", "d1", 0)
        .unwrap()
        .unwrap();
    assert_eq!(updated.description, "d1");
    assert_eq!(
        s.fetch_by_id_cached("id_1", 0).unwrap().unwrap().description,
        "d1"
    );
    s.delete_cached("id_1").unwrap();
    assert_eq!(s.fetch_by_id_cached("id_1", 0).unwrap(), None);
}
