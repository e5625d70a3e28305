//! The identity and cache contracts on the ready-made record types.

use swanky_persist::cacheable::Cacheable;
use swanky_persist::persistable::Persistable;
use swanky_persist::records::Bar;
use swanky_persist::records::BarExpiry;
use swanky_persist::records::DemoStruct;
use swanky_persist::records::Foo;
use swanky_persist::records::FooAltId;
use swanky_persist::records::BAR_CACHE_EXPIRY;

#[test]
fn test_defaults() {
    let foo = Foo {
        id: "my_id".to_string(),
    };

    assert_eq!(Foo::collection_name(), "foo-collection");
    assert_eq!(Foo::collection_id_field(), "id");
    assert_eq!(foo.collection_id(), "my_id");

    assert_eq!(Foo::cache_path(), "foo-path");
    assert_eq!(Foo::cache_expiry(), 3600);
    assert_eq!(foo.cache_id(), "my_id");
}

#[test]
fn test_different_id_field() {
    let foo = FooAltId {
        _id: "my_id".to_string(),
    };

    assert_eq!(foo.collection_id(), "my_id");
    assert_eq!(foo.cache_id(), "my_id");
}

#[test]
fn test_id_func() {
    let bar = Bar { val: 24 };
    assert_eq!(bar.collection_id(), "24");
}

#[test]
fn test_cache_expiry() {
    assert_eq!(BAR_CACHE_EXPIRY, 360);
    assert_eq!(BarExpiry::cache_expiry(), 360);
}

#[test]
fn default_ttl_when_none_declared() {
    assert_eq!(DemoStruct::cache_expiry(), 3600);
    assert_eq!(Foo::cache_expiry(), 3600);
}

#[test]
fn decimal_ids() {
    assert_eq!(Bar { val: 0 }.collection_id(), "0");
    assert_eq!(Bar { val: 10 }.collection_id(), "10");
    assert_eq!(Bar { val: 907 }.collection_id(), "907");
    assert_eq!(
        Bar { val: usize::MAX }.collection_id(),
        usize::MAX.to_string()
    );
}
