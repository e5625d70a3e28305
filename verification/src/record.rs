//! The record contract: what the store and the orchestrator need from an
//! application record type beyond its identity metadata.
//!
//! A record is an opaque application value with an abstract view
//! ([`View`]).  To live in the document store it must be copyable with its
//! view intact, expose its fields by name (documents are field-addressable),
//! and serialize to text such that decoding reconstructs an equal value.
//! A serialization framework would hand these obligations out unchecked;
//! here each one carries a contract that implementations prove.

use vstd::prelude::*;

use crate::cacheable::Cacheable;
use crate::persistable::Persistable;

verus! {

/// A record type that the document store can hold.
///
/// The spec functions give the mathematical model: an encoding of views
/// into text, a decoding back, the id of a view, and field access by name.
/// The proof functions are the laws every implementation must establish;
/// the exec functions are the operations, each pinned to its model.
pub trait Record: Persistable + View + Sized {
    /// The serialized text of an abstract record value.
    spec fn spec_encode(v: Self::V) -> Seq<char>;

    /// The abstract record value a text decodes to, if it is well-formed.
    spec fn spec_decode(s: Seq<char>) -> Option<Self::V>;

    /// The id of an abstract record value: what its id field holds.
    spec fn spec_id_of(v: Self::V) -> Seq<char>;

    /// The value of the named field, or nothing if the type has no such
    /// field.
    spec fn spec_get_field(v: Self::V, name: Seq<char>) -> Option<Seq<char>>;

    /// The record with the named field set to `value`; the record
    /// unchanged if the type has no such field.
    spec fn spec_set_field(v: Self::V, name: Seq<char>, value: Seq<char>) -> Self::V;

    /// Decoding reconstructs an equal value from any encoding.
    proof fn lemma_encode_decode(v: Self::V)
        ensures
            Self::spec_decode(Self::spec_encode(v)) == Some(v),
    ;

    /// The declared id field of the type holds exactly the id of a value.
    proof fn lemma_id_is_id_field(v: Self::V)
        ensures
            Self::spec_get_field(v, Self::spec_collection_id_field()) == Some(
                Self::spec_id_of(v),
            ),
    ;

    /// The id a concrete record reports is the id of its view.
    proof fn lemma_collection_id_of_view(&self)
        ensures
            self.spec_collection_id() == Self::spec_id_of(self@),
    ;

    /// Serializes the record to text.
    fn encode(&self) -> (r: String)
        ensures
            r@ == Self::spec_encode(self@),
    ;

    /// Reconstructs a record from text, or reports that the text is
    /// malformed.
    fn decode(s: &str) -> (r: Option<Self>)
        ensures
            match r {
                Some(t) => Self::spec_decode(s@) == Some(t@),
                None => Self::spec_decode(s@) is None,
            },
    ;

    /// A copy with the same view.
    fn duplicate(&self) -> (r: Self)
        ensures
            r@ == self@,
    ;

    /// Reads the named field.
    fn get_field(&self, name: &str) -> (r: Option<String>)
        ensures
            match r {
                Some(x) => Self::spec_get_field(self@, name@) == Some(x@),
                None => Self::spec_get_field(self@, name@) is None,
            },
    ;

    /// A copy with the named field set to `value`.
    fn set_field(&self, name: &str, value: &str) -> (r: Self)
        ensures
            r@ == Self::spec_set_field(self@, name@, value@),
    ;
}

/// A record type that both the store and the cache can hold.
///
/// The one obligation beyond the two contracts it combines: the cache id
/// of an instance is the same value as its store id, so that one id
/// addresses the same record in both systems.
pub trait CachedRecord: Record + Cacheable {
    /// The cache id a record reports is the id of its view.
    proof fn lemma_cache_id_of_view(&self)
        ensures
            self.spec_cache_id() == Self::spec_id_of(self@),
    ;
}

} // verus!
