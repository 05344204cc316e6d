//! The storage port: the backend-agnostic interface for record CRUD
//! operations, and the spec-level vocabulary its contracts are written in.
//! Callers see tables as sequences of records and never branch on which
//! backend answers.

use vstd::prelude::*;
use crate::errors::Error;

verus! {

/// A caller-defined payload stored under a table name and an id.
#[derive(Clone, Debug)]
pub struct StorageRecord<T> {
    pub id: String,
    pub data: T,
}

/// Does `table` hold a record with this id?
pub open spec fn has_id<T>(table: Seq<StorageRecord<T>>, id: Seq<char>) -> bool {
    exists|i: int| 0 <= i < table.len() && table[i].id@ == id
}

/// No two records of `table` share an id.
pub open spec fn ids_unique<T>(table: Seq<StorageRecord<T>>) -> bool {
    forall|i: int, j: int|
        0 <= i < j < table.len() ==> table[i].id@ != table[j].id@
}

/// `b` is `a` up to cloning of the payload: the same id, and a payload that
/// is a clone of (or equal to) `a`'s.
pub open spec fn record_matches<T: Clone>(a: StorageRecord<T>, b: StorageRecord<T>) -> bool {
    a.id@ == b.id@ && vstd::pervasive::cloned::<T>(a.data, b.data)
}

/// The storage port. A backend exposes each table as a sequence of records
/// (`table`), in insertion order, with an absent table read as empty.
/// Projection (`columns` of `select_where`) is the backend's concern; a
/// backend that stores whole records may answer with whole records.
pub trait DBInterface<T: Clone>: Sized {
    /// Internal well-formedness of this backend's state.
    spec fn inv(&self) -> bool;

    /// The records of the named table, in insertion order.
    spec fn table(&self, name: Seq<char>) -> Seq<StorageRecord<T>>;

    /// Whether this backend always answers (nothing to fail in transport).
    spec fn infallible(&self) -> bool;

    /// The filters this backend's `select_where` understands.
    spec fn accepts_filter(filter: Seq<char>) -> bool;

    /// Whether a record with the given id passes the filter.
    spec fn filter_matches(filter: Seq<char>, id: Seq<char>) -> bool;

    /// Insert a record. An id already present in the table is a conflict,
    /// reported as `RecordAlreadyExists` with the offending id and leaving
    /// every table unchanged — never as a generic storage error. A fresh id
    /// appends the record and returns it.
    fn insert_record(&mut self, tb_name: String, data: StorageRecord<T>) -> (r: Result<
        Option<StorageRecord<T>>,
        Error,
    >)
        requires
            old(self).inv(),
        ensures
            final(self).inv(),
            has_id(old(self).table(tb_name@), data.id@) ==> (r matches Err(
                Error::RecordAlreadyExists(cid),
            ) && cid@ == data.id@ && (forall|n: Seq<char>|
                #[trigger] final(self).table(n) == old(self).table(n))),
            r is Ok ==> !has_id(old(self).table(tb_name@), data.id@) && final(self).table(tb_name@)
                == old(self).table(tb_name@).push(data) && (forall|n: Seq<char>|
                n != tb_name@ ==> #[trigger] final(self).table(n) == old(self).table(n)),
            r matches Ok(ret) ==> (ret matches Some(rec) && record_matches(data, rec)),
            !has_id(old(self).table(tb_name@), data.id@) ==> (r matches Err(e) ==> (e
                is StorageError && (forall|n: Seq<char>|
                #[trigger] final(self).table(n) == old(self).table(n)))),
            old(self).infallible() && !has_id(old(self).table(tb_name@), data.id@) ==> r is Ok,
    ;

    /// All records of the named table, in order, up to cloning.
    fn select(&self, tb_name: String) -> (r: Result<Vec<StorageRecord<T>>, Error>)
        requires
            self.inv(),
        ensures
            self.infallible() ==> r is Ok,
            r matches Ok(rows) ==> rows@.len() == self.table(tb_name@).len() && (forall|i: int|
                0 <= i < rows@.len() ==> record_matches(
                    self.table(tb_name@)[i],
                    #[trigger] rows@[i],
                )),
            r matches Err(e) ==> e is StorageError,
    ;

    /// The records of the named table that pass the filter, in order, up to
    /// cloning. A filter this backend does not understand is a
    /// `StorageError`; an empty result is success, not an error.
    fn select_where(&self, tb_name: String, filter: String, columns: String) -> (r: Result<
        Vec<StorageRecord<T>>,
        Error,
    >)
        requires
            self.inv(),
        ensures
            !Self::accepts_filter(filter@) ==> (r matches Err(e) && e is StorageError),
            Self::accepts_filter(filter@) && self.infallible() ==> r is Ok,
            r matches Ok(rows) ==> Self::accepts_filter(filter@) && ({
                let want = self.table(tb_name@).filter(
                    |rec: StorageRecord<T>| Self::filter_matches(filter@, rec.id@),
                );
                rows@.len() == want.len() && (forall|i: int|
                    0 <= i < rows@.len() ==> record_matches(want[i], #[trigger] rows@[i]))
            }),
            r matches Err(e) ==> e is StorageError,
    ;

    /// Replace the payload of the record with the given id. A missing id is
    /// success with `false`, never an error; on a hit, only the matching
    /// record's payload changes and every other record, and every other
    /// table, is untouched.
    fn update_record(&mut self, id: String, tb_name: String, data: &T) -> (r: Result<bool, Error>)
        requires
            old(self).inv(),
        ensures
            final(self).inv(),
            old(self).infallible() ==> r is Ok,
            r matches Ok(b) ==> ({
                let t0 = old(self).table(tb_name@);
                let t1 = final(self).table(tb_name@);
                &&& b == has_id(t0, id@)
                &&& t1.len() == t0.len()
                &&& (forall|i: int|
                    0 <= i < t0.len() && t0[i].id@ != id@ ==> #[trigger] t1[i] == t0[i])
                &&& (forall|i: int|
                    0 <= i < t0.len() && t0[i].id@ == id@ ==> (#[trigger] t1[i].id@) == id@
                        && vstd::pervasive::cloned::<T>(*data, t1[i].data))
                &&& (forall|n: Seq<char>|
                    n != tb_name@ ==> #[trigger] final(self).table(n) == old(self).table(n))
            }),
            r matches Err(e) ==> e is StorageError && (forall|n: Seq<char>|
                #[trigger] final(self).table(n) == old(self).table(n)),
    ;

    /// Remove the record with the given id, answering whether one was
    /// removed. A missing id is success with `false`.
    fn delete(&mut self, tb_name: String, id: String) -> (r: Result<bool, Error>)
        requires
            old(self).inv(),
        ensures
            final(self).inv(),
            old(self).infallible() ==> r is Ok,
            r matches Ok(b) ==> b == has_id(old(self).table(tb_name@), id@) && (forall|n: Seq<char>|
                n != tb_name@ ==> #[trigger] final(self).table(n) == old(self).table(n)),
            r == Result::<bool, Error>::Ok(true) ==> exists|j: int|
                0 <= j < old(self).table(tb_name@).len() && (#[trigger] old(self).table(
                    tb_name@,
                )[j].id@) == id@ && final(self).table(tb_name@) == old(self).table(tb_name@).remove(
                    j,
                ),
            r == Result::<bool, Error>::Ok(false) ==> final(self).table(tb_name@) == old(
                self,
            ).table(tb_name@),
            r matches Err(e) ==> e is StorageError && (forall|n: Seq<char>|
                #[trigger] final(self).table(n) == old(self).table(n)),
    ;
}

/// After a successful insert the table is the old table with the record
/// appended, so a select straight after yields a sequence that contains a
/// record with the inserted id and payload.
pub proof fn lemma_insert_then_select_contains<T: Clone>(
    table: Seq<StorageRecord<T>>,
    rec: StorageRecord<T>,
)
    ensures
        exists|i: int|
            0 <= i < table.push(rec).len() && (#[trigger] table.push(rec)[i]).id@ == rec.id@
                && table.push(rec)[i].data == rec.data,
{
    assert(table.push(rec)[table.len() as int] == rec);
}

/// Inserting a record makes its id present, so a second insert with the same
/// id meets the conflict clause of `insert_record`: it must answer
/// `RecordAlreadyExists` with that id — never a generic storage error — and
/// leave the table as it was.
pub proof fn lemma_duplicate_insert_conflicts<T: Clone>(
    table: Seq<StorageRecord<T>>,
    rec: StorageRecord<T>,
)
    ensures
        has_id(table.push(rec), rec.id@),
{
    assert(table.push(rec)[table.len() as int] == rec);
}

} // verus!
