//! The persistent store adapter: one collection of records per record
//! type, each record addressed by the value of the type's id field.
//!
//! The collection is modelled as the sequence of its records in insertion
//! order.  Reads that address a single record see the first one whose id
//! matches, as the underlying store's single-document operations do;
//! `add` checks for an existing id before inserting, as two separate
//! steps, so strict uniqueness still needs a store-level constraint as a
//! backstop under concurrent writers.

use vstd::prelude::*;

use crate::dao_error::DaoError;
use crate::dao_error::DaoResult;
use crate::data_services_config::DataServicesConfig;
use crate::record::Record;

verus! {

/// The index of the first record at or after `i` whose id is `id`, or the
/// length of `rows` if there is none.
pub open spec fn find_index_from<T: Record>(rows: Seq<T::V>, id: Seq<char>, i: int) -> int
    decreases rows.len() - i,
{
    if i < 0 || i >= rows.len() {
        rows.len() as int
    } else if T::spec_id_of(rows[i]) == id {
        i
    } else {
        find_index_from::<T>(rows, id, i + 1)
    }
}

/// The index of the first record whose id is `id`, or the length of
/// `rows` if there is none.
pub open spec fn find_index<T: Record>(rows: Seq<T::V>, id: Seq<char>) -> int {
    find_index_from::<T>(rows, id, 0)
}

/// The first record whose id is `id`, if any: what a single-record read
/// addressed by `id` sees.
pub open spec fn find_row<T: Record>(rows: Seq<T::V>, id: Seq<char>) -> Option<T::V> {
    if find_index::<T>(rows, id) < rows.len() {
        Some(rows[find_index::<T>(rows, id)])
    } else {
        None
    }
}

/// No two records of `rows` share an id.
pub open spec fn ids_unique<T: Record>(rows: Seq<T::V>) -> bool {
    forall|i: int, j: int|
        0 <= i < j < rows.len() ==> T::spec_id_of(#[trigger] rows[i]) != T::spec_id_of(
            #[trigger] rows[j],
        )
}

/// What the first matching index is: within bounds, no match before it,
/// and a match at it unless there is none at all.
pub proof fn lemma_find_index_from_spec<T: Record>(rows: Seq<T::V>, id: Seq<char>, i: int)
    requires
        0 <= i <= rows.len(),
    ensures
        i <= find_index_from::<T>(rows, id, i) <= rows.len(),
        forall|j: int|
            i <= j < find_index_from::<T>(rows, id, i) ==> T::spec_id_of(#[trigger] rows[j]) != id,
        find_index_from::<T>(rows, id, i) < rows.len() ==> T::spec_id_of(
            rows[find_index_from::<T>(rows, id, i)],
        ) == id,
    decreases rows.len() - i,
{
    if !(i >= rows.len() || T::spec_id_of(rows[i]) == id) {
        lemma_find_index_from_spec::<T>(rows, id, i + 1);
    }
}

/// Where a first match is known to lie, `find_index_from` finds it.
pub proof fn lemma_find_index_from_is<T: Record>(rows: Seq<T::V>, id: Seq<char>, i: int, k: int)
    requires
        0 <= i <= k <= rows.len(),
        forall|j: int| i <= j < k ==> T::spec_id_of(#[trigger] rows[j]) != id,
        k == rows.len() || T::spec_id_of(rows[k]) == id,
    ensures
        find_index_from::<T>(rows, id, i) == k,
    decreases k - i,
{
    if i < k {
        lemma_find_index_from_is::<T>(rows, id, i + 1, k);
    }
}

/// A found record carries the id it was found under.
pub proof fn lemma_find_row_id<T: Record>(rows: Seq<T::V>, id: Seq<char>)
    ensures
        find_row::<T>(rows, id) matches Some(v) ==> T::spec_id_of(v) == id,
{
    lemma_find_index_from_spec::<T>(rows, id, 0);
}

/// The records matching an equality filter on one field, in order.
pub open spec fn filter_rows<T: Record>(rows: Seq<T::V>, key: Seq<char>, value: Seq<char>) -> Seq<
    T::V,
> {
    rows.filter(|v: T::V| T::spec_get_field(v, key) == Some(value))
}

/// The persistent store adapter for one record type.
///
/// Its view is the collection's contents: the sequence of abstract record
/// values in insertion order.
pub struct DB<T: Record> {
    /// The connection configuration the adapter was created with.
    pub config: DataServicesConfig,
    /// The records of the collection, in insertion order.
    pub rows: Vec<T>,
}

impl<T: Record> View for DB<T> {
    type V = Seq<T::V>;

    open spec fn view(&self) -> Seq<T::V> {
        Seq::new(self.rows@.len(), |i: int| self.rows@[i]@)
    }
}

impl<T: Record> DB<T> {
    /// A store adapter over an empty collection.
    pub fn new(config: DataServicesConfig) -> (r: Self)
        ensures
            r@ == Seq::<T::V>::empty(),
            r.config == config,
    {
        let r = DB { config, rows: Vec::new() };
        proof {
            assert(r@ =~= Seq::<T::V>::empty());
        }
        r
    }

    /// The index of the first record whose id is `id`, or the number of
    /// records if there is none.
    fn locate(&self, id: &str) -> (r: usize)
        ensures
            r as int == find_index::<T>(self@, id@),
            r <= self.rows@.len(),
    {
        let idq = String::from_str(id);
        let n = self.rows.len();
        let mut i: usize = 0;
        loop
            invariant
                i <= n,
                n == self.rows@.len(),
                idq@ == id@,
                forall|j: int| 0 <= j < i ==> T::spec_id_of(#[trigger] self@[j]) != id@,
            ensures
                i <= n,
                forall|j: int| 0 <= j < i ==> T::spec_id_of(#[trigger] self@[j]) != id@,
                i == n || T::spec_id_of(self@[i as int]) == id@,
            decreases n - i,
        {
            if i == n {
                break ;
            }
            let row = &self.rows[i];
            proof {
                row.lemma_collection_id_of_view();
            }
            let rid = row.collection_id();
            if rid == idq {
                break ;
            }
            i = i + 1;
        }
        proof {
            lemma_find_index_from_is::<T>(self@, id@, 0, i as int);
        }
        i
    }

    /// Adds a record, unless one with its id already exists.
    ///
    /// The existence check and the insertion are two separate steps, as in
    /// the underlying store; on success the inserted value is returned
    /// unchanged.
    pub fn add(&mut self, value: T) -> (r: DaoResult<T>)
        ensures
            ({
                let id = T::spec_id_of(value@);
                match r {
                    Ok(t) => find_row::<T>(old(self)@, id) is None && final(self)@ == old(
                        self,
                    )@.push(value@) && t@ == value@ && find_row::<T>(final(self)@, id) == Some(
                        value@,
                    ),
                    Err(e) => find_row::<T>(old(self)@, id) is Some && final(self)@ == old(self)@
                        && (e matches DaoError::IdExists(s) && s@ == id),
                }
            }),
    {
        let id = value.collection_id();
        proof {
            value.lemma_collection_id_of_view();
        }
        let k = self.locate(id.as_str());
        if k < self.rows.len() {
            return Err(DaoError::IdExists(id));
        }
        let ghost rows0 = self@;
        let copy = value.duplicate();
        self.rows.push(value);
        proof {
            assert(self@ =~= rows0.push(copy@));
            lemma_find_index_from_spec::<T>(rows0, id@, 0);
            assert forall|j: int| 0 <= j < rows0.len() implies T::spec_id_of(#[trigger] self@[j])
                != id@ by {
                assert(self@[j] == rows0[j]);
            }
            lemma_find_index_from_is::<T>(self@, id@, 0, rows0.len() as int);
        }
        Ok(copy)
    }

    /// Reads the record addressed by `id`, or reports that none exists.
    pub fn fetch_by_id(&self, id: &str) -> (r: DaoResult<Option<T>>)
        ensures
            match r {
                Ok(o) => match o {
                    Some(t) => find_row::<T>(self@, id@) == Some(t@),
                    None => find_row::<T>(self@, id@) is None,
                },
                Err(_) => false,
            },
    {
        let k = self.locate(id);
        if k == self.rows.len() {
            Ok(None)
        } else {
            Ok(Some(self.rows[k].duplicate()))
        }
    }

    /// Reads the records matching an equality filter on one field, or
    /// every record when no complete filter is given.  An empty selection
    /// is reported as an absent one, never as an error.
    pub fn fetch(&self, key: Option<&str>, value: Option<&str>) -> (r: DaoResult<Option<Vec<T>>>)
        ensures
            ({
                let sel = match (key, value) {
                    (Some(k), Some(va)) => filter_rows::<T>(self@, k@, va@),
                    _ => self@,
                };
                match r {
                    Ok(Some(out)) => out@.map_values(|t: T| t@) == sel && sel.len() > 0,
                    Ok(None) => sel.len() == 0,
                    Err(_) => false,
                }
            }),
    {
        let n = self.rows.len();
        let mut out: Vec<T> = Vec::new();
        match (key, value) {
            (Some(k), Some(va)) => {
                let ghost pred = |v: T::V| T::spec_get_field(v, k@) == Some(va@);
                let vaq = String::from_str(va);
                let mut i: usize = 0;
                loop
                    invariant
                        i <= n,
                        n == self.rows@.len(),
                        vaq@ == va@,
                        pred == (|v: T::V| T::spec_get_field(v, k@) == Some(va@)),
                        out@.map_values(|t: T| t@) == self@.subrange(0, i as int).filter(pred),
                    ensures
                        out@.map_values(|t: T| t@) == self@.subrange(0, n as int).filter(pred),
                    decreases n - i,
                {
                    if i == n {
                        break ;
                    }
                    let ghost prefix = self@.subrange(0, i as int);
                    let ghost prefix2 = self@.subrange(0, i + 1);
                    let row = &self.rows[i];
                    let mut keep = false;
                    match row.get_field(k) {
                        Some(x) => {
                            if x == vaq {
                                keep = true;
                            }
                        },
                        None => {},
                    }
                    proof {
                        reveal(Seq::filter);
                        assert(prefix2.drop_last() =~= prefix);
                        assert(prefix2.last() == self@[i as int]);
                        assert(keep == pred(self@[i as int]));
                    }
                    if keep {
                        let ghost out0 = out@;
                        out.push(row.duplicate());
                        proof {
                            assert(out@.map_values(|t: T| t@) =~= out0.map_values(|t: T| t@).push(
                                self@[i as int],
                            ));
                        }
                    }
                    i = i + 1;
                }
                proof {
                    assert(self@.subrange(0, n as int) =~= self@);
                }
            },
            _ => {
                let mut i: usize = 0;
                loop
                    invariant
                        i <= n,
                        n == self.rows@.len(),
                        out@.map_values(|t: T| t@) == self@.subrange(0, i as int),
                    ensures
                        out@.map_values(|t: T| t@) == self@,
                    decreases n - i,
                {
                    if i == n {
                        proof {
                            assert(self@.subrange(0, i as int) =~= self@);
                        }
                        break ;
                    }
                    let ghost out0 = out@;
                    out.push(self.rows[i].duplicate());
                    proof {
                        assert(out@.map_values(|t: T| t@) =~= out0.map_values(|t: T| t@).push(
                            self@[i as int],
                        ));
                        assert(out@.map_values(|t: T| t@) =~= self@.subrange(0, i + 1));
                    }
                    i = i + 1;
                }
            },
        }
        if out.len() == 0 {
            proof {
                assert(out@.map_values(|t: T| t@).len() == 0);
            }
            Ok(None)
        } else {
            Ok(Some(out))
        }
    }

    /// Applies a single-field set-update to the record addressed by `id`,
    /// then re-reads and returns the full updated record; reports an
    /// absent one if the id no longer addresses a record afterwards.
    pub fn update(&mut self, id: &str, key: &str, value: &str) -> (r: DaoResult<Option<T>>)
        ensures
            ({
                let k = find_index::<T>(old(self)@, id@);
                let rows2 = if k < old(self)@.len() {
                    old(self)@.update(k, T::spec_set_field(old(self)@[k], key@, value@))
                } else {
                    old(self)@
                };
                final(self)@ == rows2 && match r {
                    Ok(o) => match o {
                        Some(t) => find_row::<T>(rows2, id@) == Some(t@),
                        None => find_row::<T>(rows2, id@) is None,
                    },
                    Err(_) => false,
                }
            }),
    {
        let k = self.locate(id);
        if k < self.rows.len() {
            let ghost rows0 = self@;
            let updated = self.rows[k].set_field(key, value);
            let _replaced = self.rows.remove(k);
            self.rows.insert(k, updated);
            proof {
                assert(self@ =~= rows0.update(
                    k as int,
                    T::spec_set_field(rows0[k as int], key@, value@),
                ));
            }
        }
        self.fetch_by_id(id)
    }

    /// Removes the record addressed by `id`.  Removing an absent id is a
    /// success like any other: the two cases are not distinguished.
    pub fn delete(&mut self, id: &str) -> (r: DaoResult<()>)
        ensures
            r is Ok,
            ({
                let k = find_index::<T>(old(self)@, id@);
                final(self)@ == if k < old(self)@.len() {
                    old(self)@.remove(k)
                } else {
                    old(self)@
                }
            }),
            ids_unique::<T>(old(self)@) ==> find_row::<T>(final(self)@, id@) is None,
    {
        let k = self.locate(id);
        proof {
            lemma_find_index_from_spec::<T>(self@, id@, 0);
        }
        if k < self.rows.len() {
            let ghost rows0 = self@;
            self.rows.remove(k);
            proof {
                assert(self@ =~= rows0.remove(k as int));
                if ids_unique::<T>(rows0) {
                    assert forall|j: int| 0 <= j < self@.len() implies T::spec_id_of(
                        #[trigger] self@[j],
                    ) != id@ by {
                        if j < k {
                            assert(self@[j] == rows0[j]);
                        } else {
                            assert(self@[j] == rows0[j + 1]);
                        }
                    }
                    lemma_find_index_from_is::<T>(self@, id@, 0, self@.len() as int);
                }
            }
        }
        Ok(())
    }
}

} // verus!
