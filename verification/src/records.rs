//! Ready-made record types.
//!
//! [`DemoStruct`] is the full-featured record: it implements every
//! contract, so it can be stored, cached and updated, and it is the type
//! the crate's tests exercise end to end.  The remaining types each
//! implement just enough of the metadata contracts to show one choice: a
//! declared collection name with defaults everywhere else, a custom id
//! field, an id computed from a numeric field, and a custom cache expiry.

use vstd::prelude::*;

use crate::cacheable::Cacheable;
use crate::cacheable::DEFAULT_CACHE_EXPIRY;
use crate::codec::enc_field;
use crate::codec::fmt_dec;
use crate::codec::lemma_parse_enc_field;
use crate::codec::parse_field;
use crate::codec::spec_dec;
use crate::codec::spec_enc_field;
use crate::codec::spec_parse_field;
use crate::persistable::default_id_field;
use crate::persistable::Persistable;
use crate::record::CachedRecord;
use crate::record::Record;

verus! {

/// A demonstration record: an id, a name and a description.
#[derive(Debug, PartialEq, Eq)]
pub struct DemoStruct {
    pub id: String,
    pub name: String,
    pub description: String,
}

/// The abstract value of a [`DemoStruct`]: its three fields as character
/// sequences.
#[verifier::ext_equal]
pub struct DemoStructView {
    pub id: Seq<char>,
    pub name: Seq<char>,
    pub description: Seq<char>,
}

impl View for DemoStruct {
    type V = DemoStructView;

    open spec fn view(&self) -> DemoStructView {
        DemoStructView { id: self.id@, name: self.name@, description: self.description@ }
    }
}

impl Clone for DemoStruct {
    fn clone(&self) -> (r: Self)
        ensures
            r@ == self@,
    {
        DemoStruct {
            id: self.id.clone(),
            name: self.name.clone(),
            description: self.description.clone(),
        }
    }
}

impl Persistable for DemoStruct {
    open spec fn spec_collection_name() -> Seq<char> {
        "demo_struct"@
    }

    open spec fn spec_collection_id(&self) -> Seq<char> {
        self.id@
    }

    fn collection_name() -> (r: &'static str) {
        "demo_struct"
    }

    fn collection_id_field() -> (r: &'static str) {
        default_id_field()
    }

    fn collection_id(&self) -> (r: String) {
        self.id.clone()
    }
}

impl Cacheable for DemoStruct {
    open spec fn spec_cache_path() -> Seq<char> {
        "demo_struct"@
    }

    open spec fn spec_cache_id(&self) -> Seq<char> {
        self.id@
    }

    fn cache_path() -> (r: &'static str) {
        "demo_struct"
    }

    fn cache_id(&self) -> (r: String) {
        self.id.clone()
    }

    fn cache_expiry() -> (r: usize) {
        DEFAULT_CACHE_EXPIRY
    }
}

impl Record for DemoStruct {
    open spec fn spec_encode(v: DemoStructView) -> Seq<char> {
        spec_enc_field(v.id) + spec_enc_field(v.name) + spec_enc_field(v.description)
    }

    open spec fn spec_decode(s: Seq<char>) -> Option<DemoStructView> {
        match spec_parse_field(s, 0) {
            None => None,
            Some((id, p1)) => match spec_parse_field(s, p1) {
                None => None,
                Some((name, p2)) => match spec_parse_field(s, p2) {
                    None => None,
                    Some((description, p3)) => if p3 == s.len() {
                        Some(DemoStructView { id, name, description })
                    } else {
                        None
                    },
                },
            },
        }
    }

    open spec fn spec_id_of(v: DemoStructView) -> Seq<char> {
        v.id
    }

    open spec fn spec_get_field(v: DemoStructView, name: Seq<char>) -> Option<Seq<char>> {
        if name == "id"@ {
            Some(v.id)
        } else if name == "name"@ {
            Some(v.name)
        } else if name == "description"@ {
            Some(v.description)
        } else {
            None
        }
    }

    open spec fn spec_set_field(v: DemoStructView, name: Seq<char>, value: Seq<char>) -> DemoStructView {
        if name == "id"@ {
            DemoStructView { id: value, ..v }
        } else if name == "name"@ {
            DemoStructView { name: value, ..v }
        } else if name == "description"@ {
            DemoStructView { description: value, ..v }
        } else {
            v
        }
    }

    proof fn lemma_encode_decode(v: DemoStructView) {
        let e1 = spec_enc_field(v.id);
        let e2 = spec_enc_field(v.name);
        let e3 = spec_enc_field(v.description);
        let s = Self::spec_encode(v);
        let n1 = e1.len() as int;
        let n2 = e2.len() as int;
        let n3 = e3.len() as int;
        assert(s.subrange(0, n1) =~= e1);
        lemma_parse_enc_field(s, 0, v.id);
        assert(s.subrange(n1, n1 + n2) =~= e2);
        lemma_parse_enc_field(s, n1, v.name);
        assert(s.subrange(n1 + n2, n1 + n2 + n3) =~= e3);
        lemma_parse_enc_field(s, n1 + n2, v.description);
        assert(Self::spec_decode(s) matches Some(w) && w =~= v);
    }

    proof fn lemma_id_is_id_field(v: DemoStructView) {
    }

    proof fn lemma_collection_id_of_view(&self) {
    }

    fn encode(&self) -> (r: String) {
        let mut r = enc_field(self.id.as_str());
        let e2 = enc_field(self.name.as_str());
        r.append(e2.as_str());
        let e3 = enc_field(self.description.as_str());
        r.append(e3.as_str());
        proof {
            assert(r@ =~= Self::spec_encode(self@));
        }
        r
    }

    fn decode(s: &str) -> (r: Option<Self>) {
        match parse_field(s, 0) {
            None => None,
            Some((id, p1)) => match parse_field(s, p1) {
                None => None,
                Some((name, p2)) => match parse_field(s, p2) {
                    None => None,
                    Some((description, p3)) => if p3 == s.unicode_len() {
                        Some(DemoStruct { id, name, description })
                    } else {
                        None
                    },
                },
            },
        }
    }

    fn duplicate(&self) -> (r: Self) {
        self.clone()
    }

    fn get_field(&self, name: &str) -> (r: Option<String>) {
        let n = String::from_str(name);
        if n == String::from_str("id") {
            Some(self.id.clone())
        } else if n == String::from_str("name") {
            Some(self.name.clone())
        } else if n == String::from_str("description") {
            Some(self.description.clone())
        } else {
            None
        }
    }

    fn set_field(&self, name: &str, value: &str) -> (r: Self) {
        let n = String::from_str(name);
        if n == String::from_str("id") {
            DemoStruct {
                id: String::from_str(value),
                name: self.name.clone(),
                description: self.description.clone(),
            }
        } else if n == String::from_str("name") {
            DemoStruct {
                id: self.id.clone(),
                name: String::from_str(value),
                description: self.description.clone(),
            }
        } else if n == String::from_str("description") {
            DemoStruct {
                id: self.id.clone(),
                name: self.name.clone(),
                description: String::from_str(value),
            }
        } else {
            self.clone()
        }
    }
}

impl CachedRecord for DemoStruct {
    proof fn lemma_cache_id_of_view(&self) {
    }
}

/// A record that declares a collection name and a cache path and takes
/// every default: id field `"id"`, cache lifetime
/// [`DEFAULT_CACHE_EXPIRY`].
pub struct Foo {
    pub id: String,
}

impl Persistable for Foo {
    open spec fn spec_collection_name() -> Seq<char> {
        "foo-collection"@
    }

    open spec fn spec_collection_id(&self) -> Seq<char> {
        self.id@
    }

    fn collection_name() -> (r: &'static str) {
        "foo-collection"
    }

    fn collection_id_field() -> (r: &'static str) {
        default_id_field()
    }

    fn collection_id(&self) -> (r: String) {
        self.id.clone()
    }
}

impl Cacheable for Foo {
    open spec fn spec_cache_path() -> Seq<char> {
        "foo-path"@
    }

    open spec fn spec_cache_id(&self) -> Seq<char> {
        self.id@
    }

    fn cache_path() -> (r: &'static str) {
        "foo-path"
    }

    fn cache_id(&self) -> (r: String) {
        self.id.clone()
    }

    fn cache_expiry() -> (r: usize) {
        DEFAULT_CACHE_EXPIRY
    }
}

/// A record addressed by a field other than the default: its id lives in
/// `_id`, and both its store id and its cache id read that field.
pub struct FooAltId {
    pub _id: String,
}

impl Persistable for FooAltId {
    open spec fn spec_collection_name() -> Seq<char> {
        "foo-collection"@
    }

    open spec fn spec_collection_id_field() -> Seq<char> {
        "_id"@
    }

    open spec fn spec_collection_id(&self) -> Seq<char> {
        self._id@
    }

    fn collection_name() -> (r: &'static str) {
        "foo-collection"
    }

    fn collection_id_field() -> (r: &'static str) {
        "_id"
    }

    fn collection_id(&self) -> (r: String) {
        self._id.clone()
    }
}

impl Cacheable for FooAltId {
    open spec fn spec_cache_path() -> Seq<char> {
        "foo-path"@
    }

    open spec fn spec_cache_id(&self) -> Seq<char> {
        self._id@
    }

    fn cache_path() -> (r: &'static str) {
        "foo-path"
    }

    fn cache_id(&self) -> (r: String) {
        self._id.clone()
    }

    fn cache_expiry() -> (r: usize) {
        DEFAULT_CACHE_EXPIRY
    }
}

/// A record whose id is computed, not stored: the decimal rendering of its
/// numeric `val` field.
pub struct Bar {
    pub val: usize,
}

impl Persistable for Bar {
    open spec fn spec_collection_name() -> Seq<char> {
        "bar"@
    }

    open spec fn spec_collection_id_field() -> Seq<char> {
        "val"@
    }

    open spec fn spec_collection_id(&self) -> Seq<char> {
        spec_dec(self.val as nat)
    }

    fn collection_name() -> (r: &'static str) {
        "bar"
    }

    fn collection_id_field() -> (r: &'static str) {
        "val"
    }

    fn collection_id(&self) -> (r: String) {
        fmt_dec(self.val)
    }
}

/// The cache lifetime [`BarExpiry`] declares, in seconds.
pub const BAR_CACHE_EXPIRY: usize = 360;

/// A record that declares its own cache expiry instead of the default.
pub struct BarExpiry {
    pub id: String,
}

impl Cacheable for BarExpiry {
    open spec fn spec_cache_path() -> Seq<char> {
        "bar"@
    }

    open spec fn spec_cache_id(&self) -> Seq<char> {
        self.id@
    }

    open spec fn spec_cache_expiry() -> usize {
        BAR_CACHE_EXPIRY
    }

    fn cache_path() -> (r: &'static str) {
        "bar"
    }

    fn cache_id(&self) -> (r: String) {
        self.id.clone()
    }

    fn cache_expiry() -> (r: usize) {
        BAR_CACHE_EXPIRY
    }
}

} // verus!
