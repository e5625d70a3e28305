//! The identity contract: per-type metadata that binds a record type to a
//! named collection in the document store and to a single id field.

use vstd::prelude::*;

verus! {

/// A record type that can be kept in the document store.
///
/// Each implementing type names the collection its values live in, the
/// field that addresses a single value, and how to read that field's value
/// from an instance.  These are total functions over any instance; there
/// are no error conditions.  The exec methods are each pinned to a spec
/// function so that store contracts can speak about the metadata.
pub trait Persistable {
    /// The collection name, constant for the type.
    spec fn spec_collection_name() -> Seq<char>;

    /// The name of the field a single value is addressed by, constant for
    /// the type.  Types that declare none are addressed by the field
    /// [`spec_default_id_field`] names.
    open spec fn spec_collection_id_field() -> Seq<char> {
        spec_default_id_field()
    }

    /// The id value of this instance: the value its
    /// [`spec_collection_id_field`](Self::spec_collection_id_field) holds.
    spec fn spec_collection_id(&self) -> Seq<char>;

    /// The table name (for a relational store) or collection name (for a
    /// document store) of the data set.
    fn collection_name() -> (r: &'static str)
        ensures
            r@ == Self::spec_collection_name(),
    ;

    /// The id field to use for id-based lookups.
    fn collection_id_field() -> (r: &'static str)
        ensures
            r@ == Self::spec_collection_id_field(),
    ;

    /// The id value for a default id-based lookup.
    fn collection_id(&self) -> (r: String)
        ensures
            r@ == self.spec_collection_id(),
    ;
}

/// The id field name used by types that do not declare one of their own.
pub open spec fn spec_default_id_field() -> Seq<char> {
    "id"@
}

/// The id field name used by types that do not declare one of their own.
/// An implementation of [`Persistable::collection_id_field`] that does not
/// choose a field name returns this value.
pub fn default_id_field() -> (r: &'static str)
    ensures
        r@ == spec_default_id_field(),
{
    "id"
}

} // verus!
