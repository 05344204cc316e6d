//! The closed variant over supported storage backends. Callers hold a
//! `DatabaseClient` and never branch on which backend answers; adding a
//! backend means adding one variant here and one adapter implementing the
//! port.

use vstd::prelude::*;
use crate::errors::Error;
use crate::repo::interface::{DBInterface, StorageRecord};
use crate::repo::mem::MemClient;

verus! {

/// The backends this build supports.
pub enum DatabaseClient<T> {
    /// The in-memory engine.
    Mem(MemClient<T>),
}

impl<T: Clone> DBInterface<T> for DatabaseClient<T> {
    open spec fn inv(&self) -> bool {
        match self {
            DatabaseClient::Mem(c) => c.inv(),
        }
    }

    open spec fn table(&self, name: Seq<char>) -> Seq<StorageRecord<T>> {
        match self {
            DatabaseClient::Mem(c) => c.table(name),
        }
    }

    open spec fn infallible(&self) -> bool {
        match self {
            DatabaseClient::Mem(c) => c.infallible(),
        }
    }

    open spec fn accepts_filter(filter: Seq<char>) -> bool {
        <MemClient<T> as DBInterface<T>>::accepts_filter(filter)
    }

    open spec fn filter_matches(filter: Seq<char>, id: Seq<char>) -> bool {
        <MemClient<T> as DBInterface<T>>::filter_matches(filter, id)
    }

    fn insert_record(&mut self, tb_name: String, data: StorageRecord<T>) -> (r: Result<
        Option<StorageRecord<T>>,
        Error,
    >) {
        match self {
            DatabaseClient::Mem(c) => c.insert_record(tb_name, data),
        }
    }

    fn select(&self, tb_name: String) -> (r: Result<Vec<StorageRecord<T>>, Error>) {
        match self {
            DatabaseClient::Mem(c) => c.select(tb_name),
        }
    }

    fn select_where(&self, tb_name: String, filter: String, columns: String) -> (r: Result<
        Vec<StorageRecord<T>>,
        Error,
    >) {
        match self {
            DatabaseClient::Mem(c) => {
                let r = c.select_where(tb_name, filter, columns);
                proof {
                    let fm = |rec: StorageRecord<T>|
                        <MemClient<T> as DBInterface<T>>::filter_matches(filter@, rec.id@);
                    let fd = |rec: StorageRecord<T>|
                        <DatabaseClient<T> as DBInterface<T>>::filter_matches(filter@, rec.id@);
                    assert(fm =~= fd);
                    assert(c.table(tb_name@).filter(fm) == c.table(tb_name@).filter(fd));
                }
                r
            },
        }
    }

    fn update_record(&mut self, id: String, tb_name: String, data: &T) -> (r: Result<bool, Error>) {
        match self {
            DatabaseClient::Mem(c) => c.update_record(id, tb_name, data),
        }
    }

    fn delete(&mut self, tb_name: String, id: String) -> (r: Result<bool, Error>) {
        match self {
            DatabaseClient::Mem(c) => {
                let ghost pre = *c;
                let r = c.delete(tb_name, id);
                proof {
                    if r == Result::<bool, Error>::Ok(true) {
                        let w = choose|w: int|
                            0 <= w < pre.table(tb_name@).len() && (#[trigger] pre.table(
                                tb_name@,
                            )[w].id@) == id@ && c.table(tb_name@) == pre.table(tb_name@).remove(w);
                        assert(0 <= w < old(self).table(tb_name@).len() && (#[trigger] old(self)
                            .table(tb_name@)[w].id@) == id@ && self.table(tb_name@) == old(
                            self,
                        ).table(tb_name@).remove(w));
                    }
                }
                r
            },
        }
    }
}

} // verus!
