//! The in-memory storage backend: tables held as vectors of records, with
//! unique table names and unique record ids. It answers every call, so its
//! port contract owes success wherever no conflict or unknown filter is in
//! the way.

use vstd::prelude::*;
use vstd::pervasive::VecAdditionalExecFns;
use vstd::string::StrSliceExecFns;
use crate::errors::Error;
use crate::repo::interface::{DBInterface, StorageRecord, has_id, ids_unique, record_matches};

verus! {

struct MemTable<T> {
    name: String,
    records: Vec<StorageRecord<T>>,
}

/// The in-memory backend.
pub struct MemClient<T> {
    tables: Vec<MemTable<T>>,
}

impl<T: Clone> MemClient<T> {
    /// No two tables share a name.
    pub closed spec fn names_unique(self) -> bool {
        forall|i: int, j: int|
            0 <= i < j < self.tables@.len() ==> self.tables@[i].name@ != self.tables@[j].name@
    }

    /// Well-formedness: table names are unique and so are the record ids
    /// within each table.
    pub closed spec fn wf(self) -> bool {
        self.names_unique() && (forall|i: int|
            0 <= i < self.tables@.len() ==> ids_unique(#[trigger] self.tables@[i].records@))
    }

    /// The records of the named table; an absent table reads as empty.
    pub closed spec fn spec_table(self, name: Seq<char>) -> Seq<StorageRecord<T>> {
        if exists|i: int| 0 <= i < self.tables@.len() && self.tables@[i].name@ == name {
            let i = choose|i: int|
                0 <= i < self.tables@.len() && self.tables@[i].name@ == name;
            self.tables@[i].records@
        } else {
            Seq::empty()
        }
    }

    /// A fresh backend: well-formed, with every table empty.
    pub fn new() -> (c: Self)
        ensures
            c.wf(),
            forall|n: Seq<char>| #[trigger] c.spec_table(n) == Seq::<StorageRecord<T>>::empty(),
    {
        MemClient { tables: Vec::new() }
    }

    /// The index of the named table, if present.
    fn table_index(&self, name: &String) -> (r: Option<usize>)
        ensures
            r matches Some(i) ==> i < self.tables@.len() && self.tables@[i as int].name@ == name@,
            r is None ==> forall|i: int|
                0 <= i < self.tables@.len() ==> self.tables@[i].name@ != name@,
    {
        let mut i: usize = 0;
        while i < self.tables.len()
            invariant
                i <= self.tables@.len(),
                forall|j: int| 0 <= j < i ==> self.tables@[j].name@ != name@,
            decreases self.tables@.len() - i,
        {
            if self.tables[i].name.eq(name) {
                return Some(i);
            }
            i += 1;
        }
        None
    }
}

/// With unique names, the table read under the name of entry `i` is exactly
/// entry `i`'s records.
proof fn lemma_table_at<T: Clone>(c: MemClient<T>, i: int)
    requires
        c.names_unique(),
        0 <= i < c.tables@.len(),
    ensures
        c.spec_table(c.tables@[i].name@) == c.tables@[i].records@,
{
    let n = c.tables@[i].name@;
    assert(0 <= i < c.tables@.len() && c.tables@[i].name@ == n);
    let j = choose|j: int| 0 <= j < c.tables@.len() && c.tables@[j].name@ == n;
    if j != i {
        if j < i {
            assert(c.tables@[j].name@ != c.tables@[i].name@);
        } else {
            assert(c.tables@[i].name@ != c.tables@[j].name@);
        }
        assert(false);
    }
}

/// A name no entry carries reads as the empty table.
proof fn lemma_table_absent<T: Clone>(c: MemClient<T>, name: Seq<char>)
    requires
        forall|i: int| 0 <= i < c.tables@.len() ==> c.tables@[i].name@ != name,
    ensures
        c.spec_table(name) == Seq::<StorageRecord<T>>::empty(),
{
}

/// Replacing the records of one entry, keeping its name, changes only that
/// entry's table and keeps the names unique.
proof fn lemma_update_one_table<T: Clone>(pre: MemClient<T>, post: MemClient<T>, i: int)
    requires
        pre.names_unique(),
        0 <= i < pre.tables@.len(),
        post.tables@.len() == pre.tables@.len(),
        forall|j: int|
            0 <= j < pre.tables@.len() ==> (#[trigger] post.tables@[j].name@)
                == pre.tables@[j].name@,
        forall|j: int|
            0 <= j < pre.tables@.len() && j != i ==> (#[trigger] post.tables@[j])
                == pre.tables@[j],
    ensures
        post.names_unique(),
        post.spec_table(pre.tables@[i].name@) == post.tables@[i].records@,
        forall|n: Seq<char>|
            n != pre.tables@[i].name@ ==> (#[trigger] post.spec_table(n)) == pre.spec_table(n),
{
    assert forall|n: Seq<char>| n != pre.tables@[i].name@ implies (#[trigger] post.spec_table(n))
        == pre.spec_table(n) by {
        if exists|j: int| 0 <= j < pre.tables@.len() && pre.tables@[j].name@ == n {
            let j = choose|j: int| 0 <= j < pre.tables@.len() && pre.tables@[j].name@ == n;
            assert(post.tables@[j].name@ == n);
            assert(j != i);
            lemma_table_at(pre, j);
            lemma_table_at(post, j);
        } else {
            assert(forall|j: int|
                0 <= j < post.tables@.len() ==> (#[trigger] post.tables@[j].name@) != n);
            lemma_table_absent(pre, n);
            lemma_table_absent(post, n);
        }
    }
    lemma_table_at(post, i);
}

/// Appending an entry under a fresh name adds exactly that table and leaves
/// every other table unchanged.
proof fn lemma_push_table<T: Clone>(pre: MemClient<T>, post: MemClient<T>)
    requires
        pre.names_unique(),
        post.tables@.len() == pre.tables@.len() + 1,
        forall|j: int|
            0 <= j < pre.tables@.len() ==> (#[trigger] post.tables@[j]) == pre.tables@[j],
        forall|j: int|
            0 <= j < pre.tables@.len() ==> (#[trigger] pre.tables@[j].name@)
                != post.tables@.last().name@,
    ensures
        post.names_unique(),
        post.spec_table(post.tables@.last().name@) == post.tables@.last().records@,
        forall|n: Seq<char>|
            n != post.tables@.last().name@ ==> (#[trigger] post.spec_table(n))
                == pre.spec_table(n),
{
    let last = pre.tables@.len() as int;
    assert forall|n: Seq<char>| n != post.tables@.last().name@ implies (#[trigger] post.spec_table(
        n,
    )) == pre.spec_table(n) by {
        if exists|j: int| 0 <= j < pre.tables@.len() && pre.tables@[j].name@ == n {
            let j = choose|j: int| 0 <= j < pre.tables@.len() && pre.tables@[j].name@ == n;
            assert(post.tables@[j].name@ == n);
            lemma_table_at(pre, j);
            lemma_table_at(post, j);
        } else {
            assert(forall|j: int|
                0 <= j < post.tables@.len() ==> (#[trigger] post.tables@[j].name@) != n);
            lemma_table_absent(pre, n);
            lemma_table_absent(post, n);
        }
    }
    lemma_table_at(post, last);
}

/// The index of the record with the given id, if present.
fn row_index<T: Clone>(records: &Vec<StorageRecord<T>>, id: &String) -> (r: Option<usize>)
    ensures
        r matches Some(j) ==> j < records@.len() && records@[j as int].id@ == id@,
        r is None ==> !has_id(records@, id@),
{
    let mut k: usize = 0;
    while k < records.len()
        invariant
            k <= records@.len(),
            forall|j: int| 0 <= j < k ==> records@[j].id@ != id@,
        decreases records@.len() - k,
    {
        if records[k].id.eq(id) {
            return Some(k);
        }
        k += 1;
    }
    None
}

/// A copy of a record: the same id, the payload cloned.
fn clone_record<T: Clone>(r: &StorageRecord<T>) -> (res: StorageRecord<T>)
    ensures
        record_matches(*r, res),
{
    StorageRecord { id: r.id.clone(), data: r.data.clone() }
}

impl<T: Clone> DBInterface<T> for MemClient<T> {
    open spec fn inv(&self) -> bool {
        self.wf()
    }

    open spec fn table(&self, name: Seq<char>) -> Seq<StorageRecord<T>> {
        self.spec_table(name)
    }

    open spec fn infallible(&self) -> bool {
        true
    }

    /// The memory engine understands exactly the filters `id = <value>`.
    open spec fn accepts_filter(filter: Seq<char>) -> bool {
        filter.len() >= "id = "@.len() && filter.subrange(0, "id = "@.len() as int) == "id = "@
    }

    open spec fn filter_matches(filter: Seq<char>, id: Seq<char>) -> bool {
        id == filter.skip("id = "@.len() as int)
    }

    fn insert_record(&mut self, tb_name: String, data: StorageRecord<T>) -> (r: Result<
        Option<StorageRecord<T>>,
        Error,
    >) {
        let ghost pre = *self;
        match self.table_index(&tb_name) {
            Some(i) => {
                proof {
                    lemma_table_at(pre, i as int);
                }
                if let Some(_j) = row_index(&self.tables[i].records, &data.id) {
                    proof {
                        assert(has_id(pre.spec_table(tb_name@), data.id@));
                    }
                    return Err(Error::RecordAlreadyExists(data.id));
                }
                let ghost t0 = pre.tables@[i as int].records@;
                assert(!has_id(t0, data.id@));
                let ret = clone_record(&data);
                let mut entry = MemTable { name: String::new(), records: Vec::new() };
                self.tables.set_and_swap(i, &mut entry);
                entry.records.push(data);
                self.tables.set_and_swap(i, &mut entry);
                proof {
                    let ii = i as int;
                    assert(self.tables@ =~= pre.tables@.update(ii, self.tables@[ii]));
                    assert(self.tables@[ii].name@ == pre.tables@[ii].name@);
                    assert(self.tables@[ii].records@ == t0.push(data));
                    assert(ids_unique(self.tables@[ii].records@)) by {
                        assert forall|a: int, b: int|
                            0 <= a < b < t0.push(data).len() implies t0.push(data)[a].id@ != t0.push(
                            data,
                        )[b].id@ by {
                            if b == t0.len() as int {
                                assert(t0.push(data)[a] == t0[a]);
                                if t0[a].id@ == data.id@ {
                                    assert(has_id(t0, data.id@));
                                }
                            }
                        }
                    }
                    lemma_update_one_table(pre, *self, ii);
                }
                Ok(Some(ret))
            },
            None => {
                proof {
                    lemma_table_absent(pre, tb_name@);
                }
                let ret = clone_record(&data);
                let mut records: Vec<StorageRecord<T>> = Vec::new();
                records.push(data);
                self.tables.push(MemTable { name: tb_name, records });
                proof {
                    let last = pre.tables@.len() as int;
                    assert(self.tables@.last().name@ == tb_name@);
                    assert(self.tables@.last().records@ =~= Seq::<StorageRecord<T>>::empty().push(
                        data,
                    ));
                    lemma_push_table(pre, *self);
                    assert(self.spec_table(tb_name@) =~= pre.spec_table(tb_name@).push(data));
                    assert(ids_unique(self.tables@[last].records@));
                }
                Ok(Some(ret))
            },
        }
    }

    fn select(&self, tb_name: String) -> (r: Result<Vec<StorageRecord<T>>, Error>) {
        match self.table_index(&tb_name) {
            None => {
                proof {
                    lemma_table_absent(*self, tb_name@);
                }
                Ok(Vec::new())
            },
            Some(i) => {
                proof {
                    lemma_table_at(*self, i as int);
                }
                let records = &self.tables[i].records;
                let mut rows: Vec<StorageRecord<T>> = Vec::new();
                let mut k: usize = 0;
                while k < records.len()
                    invariant
                        k <= records@.len(),
                        rows@.len() == k,
                        forall|m: int|
                            0 <= m < k ==> record_matches(records@[m], #[trigger] rows@[m]),
                    decreases records@.len() - k,
                {
                    rows.push(clone_record(&records[k]));
                    k += 1;
                }
                Ok(rows)
            },
        }
    }

    fn select_where(&self, tb_name: String, filter: String, columns: String) -> (r: Result<
        Vec<StorageRecord<T>>,
        Error,
    >) {
        let fs = filter.as_str();
        if !crate::text::str_has_prefix(fs, "id = ") {
            return Err(Error::StorageError("unsupported filter".to_owned()));
        }
        proof {
            reveal_strlit("id = ");
        }
        let n = fs.unicode_len();
        let target = fs.substring_char(5, n).to_owned();
        proof {
            assert(target@ =~= filter@.skip("id = "@.len() as int));
        }
        let ghost pred = |rec: StorageRecord<T>| Self::filter_matches(filter@, rec.id@);
        match self.table_index(&tb_name) {
            None => {
                proof {
                    lemma_table_absent(*self, tb_name@);
                    reveal(Seq::<int>::filter);
                    assert(self.spec_table(tb_name@).filter(pred) =~= Seq::<
                        StorageRecord<T>,
                    >::empty());
                }
                Ok(Vec::new())
            },
            Some(i) => {
                proof {
                    lemma_table_at(*self, i as int);
                }
                let records = &self.tables[i].records;
                let mut rows: Vec<StorageRecord<T>> = Vec::new();
                let mut k: usize = 0;
                proof {
                    reveal(Seq::<int>::filter);
                    assert(records@.subrange(0, 0).filter(pred) =~= Seq::<
                        StorageRecord<T>,
                    >::empty());
                }
                while k < records.len()
                    invariant
                        k <= records@.len(),
                        target@ == filter@.skip("id = "@.len() as int),
                        pred == (|rec: StorageRecord<T>| Self::filter_matches(filter@, rec.id@)),
                        rows@.len() == records@.subrange(0, k as int).filter(pred).len(),
                        forall|m: int|
                            0 <= m < rows@.len() ==> record_matches(
                                records@.subrange(0, k as int).filter(pred)[m],
                                #[trigger] rows@[m],
                            ),
                    decreases records@.len() - k,
                {
                    let ghost prev = records@.subrange(0, k as int).filter(pred);
                    let hit = records[k].id.eq(&target);
                    if hit {
                        rows.push(clone_record(&records[k]));
                    }
                    proof {
                        reveal(Seq::<int>::filter);
                        let sub1 = records@.subrange(0, k as int + 1);
                        assert(sub1.drop_last() =~= records@.subrange(0, k as int));
                        assert(sub1.last() == records@[k as int]);
                        assert(pred(records@[k as int]) == hit);
                        if hit {
                            assert(sub1.filter(pred) == prev.push(records@[k as int]));
                        } else {
                            assert(sub1.filter(pred) == prev);
                        }
                    }
                    k += 1;
                }
                proof {
                    assert(records@.subrange(0, records@.len() as int) =~= records@);
                }
                Ok(rows)
            },
        }
    }

    fn update_record(&mut self, id: String, tb_name: String, data: &T) -> (r: Result<bool, Error>) {
        let ghost pre = *self;
        match self.table_index(&tb_name) {
            None => {
                proof {
                    lemma_table_absent(pre, tb_name@);
                }
                Ok(false)
            },
            Some(i) => {
                proof {
                    lemma_table_at(pre, i as int);
                }
                match row_index(&self.tables[i].records, &id) {
                    None => Ok(false),
                    Some(j) => {
                        let ghost t0 = pre.tables@[i as int].records@;
                        let mut entry = MemTable { name: String::new(), records: Vec::new() };
                        self.tables.set_and_swap(i, &mut entry);
                        entry.records.set(j, StorageRecord { id, data: data.clone() });
                        self.tables.set_and_swap(i, &mut entry);
                        proof {
                            let ii = i as int;
                            let jj = j as int;
                            let t1 = self.tables@[ii].records@;
                            assert(self.tables@ =~= pre.tables@.update(ii, self.tables@[ii]));
                            assert(self.tables@[ii].name@ == pre.tables@[ii].name@);
                            assert(t1 == t0.update(jj, t1[jj]));
                            assert(t1[jj].id@ == id@);
                            assert(vstd::pervasive::cloned::<T>(*data, t1[jj].data));
                            assert(has_id(t0, id@));
                            assert(ids_unique(t0));
                            assert forall|k: int|
                                0 <= k < t0.len() && t0[k].id@ == id@ implies (
                            #[trigger] t1[k].id@) == id@ && vstd::pervasive::cloned::<T>(
                                *data,
                                t1[k].data,
                            ) by {
                                if k != jj {
                                    if k < jj {
                                        assert(t0[k].id@ != t0[jj].id@);
                                    } else {
                                        assert(t0[jj].id@ != t0[k].id@);
                                    }
                                    assert(false);
                                }
                            }
                            assert(ids_unique(t1)) by {
                                assert forall|a: int, b: int|
                                    0 <= a < b < t1.len() implies t1[a].id@ != t1[b].id@ by {
                                    assert(t1[a].id@ == t0[a].id@);
                                    assert(t1[b].id@ == t0[b].id@);
                                }
                            }
                            lemma_update_one_table(pre, *self, ii);
                        }
                        Ok(true)
                    },
                }
            },
        }
    }

    fn delete(&mut self, tb_name: String, id: String) -> (r: Result<bool, Error>) {
        let ghost pre = *self;
        match self.table_index(&tb_name) {
            None => {
                proof {
                    lemma_table_absent(pre, tb_name@);
                }
                Ok(false)
            },
            Some(i) => {
                proof {
                    lemma_table_at(pre, i as int);
                }
                match row_index(&self.tables[i].records, &id) {
                    None => Ok(false),
                    Some(j) => {
                        let ghost t0 = pre.tables@[i as int].records@;
                        let mut entry = MemTable { name: String::new(), records: Vec::new() };
                        self.tables.set_and_swap(i, &mut entry);
                        entry.records.remove(j);
                        self.tables.set_and_swap(i, &mut entry);
                        proof {
                            let ii = i as int;
                            let jj = j as int;
                            let t1 = self.tables@[ii].records@;
                            assert(self.tables@ =~= pre.tables@.update(ii, self.tables@[ii]));
                            assert(self.tables@[ii].name@ == pre.tables@[ii].name@);
                            assert(t1 == t0.remove(jj));
                            t0.remove_ensures(jj);
                            assert(has_id(t0, id@));
                            assert(ids_unique(t1)) by {
                                assert forall|a: int, b: int|
                                    0 <= a < b < t1.len() implies t1[a].id@ != t1[b].id@ by {
                                    let a0 = if a < jj {
                                        a
                                    } else {
                                        a + 1
                                    };
                                    let b0 = if b < jj {
                                        b
                                    } else {
                                        b + 1
                                    };
                                    assert(t1[a] == t0[a0]);
                                    assert(t1[b] == t0[b0]);
                                }
                            }
                            lemma_update_one_table(pre, *self, ii);
                            assert(old(self).table(tb_name@) == pre.spec_table(tb_name@));
                            assert(self.table(tb_name@) == self.spec_table(tb_name@));
                            assert(0 <= jj < pre.spec_table(tb_name@).len() && pre.spec_table(
                                tb_name@,
                            )[jj].id@ == id@ && self.spec_table(tb_name@) == pre.spec_table(
                                tb_name@,
                            ).remove(jj));
                            assert(exists|w: int|
                                0 <= w < old(self).table(tb_name@).len() && (#[trigger] old(self)
                                    .table(tb_name@)[w].id@) == id@ && self.table(tb_name@) == old(
                                    self,
                                ).table(tb_name@).remove(w));
                        }
                        Ok(true)
                    },
                }
            },
        }
    }
}

} // verus!
