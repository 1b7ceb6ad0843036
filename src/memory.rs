use vstd::prelude::*;

use crate::error::StorageError;
use crate::file_info::FileInfo;
use crate::reply::{read_result, remove_result, write_result, DbModel, FetchReply, WriteReply};
use crate::table::{
    delete_step, get_info_result, ids_unique, insert_step, lookup, prepared, remove_info_step,
    rows_map, set_info_step, update_step, StoreState,
};

verus! {

/// A store that keeps the session table in memory, with the semantics of
/// the relational one: a primary key on the id, and writes that report how
/// many rows they touched.
pub struct MemoryInfoStorage {
    present: bool,
    rows: Vec<DbModel>,
}

impl View for MemoryInfoStorage {
    type V = StoreState;

    closed spec fn view(&self) -> StoreState {
        if self.present {
            Some(rows_map(self.rows@))
        } else {
            None
        }
    }
}

impl MemoryInfoStorage {
    pub closed spec fn wf(&self) -> bool {
        ids_unique(self.rows@)
    }

    /// A store whose table does not exist yet.
    pub fn new() -> (r: MemoryInfoStorage)
        ensures
            r.wf(),
            r@ == None::<crate::table::Rows>,
    {
        MemoryInfoStorage { present: false, rows: Vec::new() }
    }

    /// Creates the table if it is absent; an existing table keeps its rows.
    pub fn prepare(&mut self) -> (r: Result<(), StorageError>)
        requires
            old(self).wf(),
        ensures
            final(self).wf(),
            final(self)@ == prepared(old(self)@),
            r == Ok::<(), StorageError>(()),
    {
        if !self.present {
            self.present = true;
            self.rows = Vec::new();
        }
        Ok(())
    }

    fn position(&self, id: &str) -> (r: Option<usize>)
        ensures
            match r {
                Some(i) => i < self.rows@.len() && self.rows@[i as int].id@ == id@,
                None => forall|j: int| 0 <= j < self.rows@.len() ==> self.rows@[j].id@ != id@,
            },
    {
        let key = id.to_owned();
        let mut i: usize = 0;
        while i < self.rows.len()
            invariant
                i <= self.rows@.len(),
                key@ == id@,
                forall|j: int| 0 <= j < i ==> self.rows@[j].id@ != id@,
            decreases self.rows@.len() - i,
        {
            if self.rows[i].id == key {
                return Some(i);
            }
            i = i + 1;
        }
        None
    }

    /// Inserts a row; the primary key refuses an id that has one.
    pub fn insert_row(&mut self, row: DbModel) -> (r: WriteReply)
        requires
            old(self).wf(),
        ensures
            final(self).wf(),
            (final(self)@, r) == insert_step(old(self)@, row.id@, row.info@),
    {
        if !self.present {
            return WriteReply::Unavailable;
        }
        proof {
            crate::table::lemma_rows_map_dom(self.rows@, row.id@);
        }
        match self.position(row.id.as_str()) {
            Some(_) => WriteReply::DuplicateKey,
            None => {
                let ghost before = self.rows@;
                self.rows.push(row);
                proof {
                    assert(self.rows@.drop_last() =~= before);
                }
                WriteReply::Applied(1)
            },
        }
    }

    /// Overwrites the row with the same id; touches none where there is none.
    pub fn update_row(&mut self, row: DbModel) -> (r: WriteReply)
        requires
            old(self).wf(),
        ensures
            final(self).wf(),
            (final(self)@, r) == update_step(old(self)@, row.id@, row.info@),
    {
        if !self.present {
            return WriteReply::Unavailable;
        }
        proof {
            crate::table::lemma_rows_map_dom(self.rows@, row.id@);
        }
        match self.position(row.id.as_str()) {
            Some(i) => {
                proof {
                    crate::table::lemma_rows_map_update(self.rows@, i as int, row);
                }
                self.rows.set(i, row);
                WriteReply::Applied(1)
            },
            None => WriteReply::Applied(0),
        }
    }

    /// Deletes the row with this id; touches none where there is none.
    pub fn delete_row(&mut self, id: &str) -> (r: WriteReply)
        requires
            old(self).wf(),
        ensures
            final(self).wf(),
            (final(self)@, r) == delete_step(old(self)@, id@),
    {
        if !self.present {
            return WriteReply::Unavailable;
        }
        proof {
            crate::table::lemma_rows_map_dom(self.rows@, id@);
        }
        match self.position(id) {
            Some(i) => {
                proof {
                    crate::table::lemma_rows_map_remove(self.rows@, i as int);
                }
                self.rows.remove(i);
                WriteReply::Applied(1)
            },
            None => WriteReply::Applied(0),
        }
    }

    /// The encoded record stored under this id.
    pub fn fetch_row(&self, id: &str) -> (r: FetchReply)
        requires
            self.wf(),
        ensures
            match lookup(self@, id@) {
                None => r is Unavailable,
                Some(None) => r is Missing,
                Some(Some(text)) => r matches FetchReply::Found(found) && found@ == text,
            },
    {
        if !self.present {
            return FetchReply::Unavailable;
        }
        proof {
            crate::table::lemma_rows_map_dom(self.rows@, id@);
        }
        match self.position(id) {
            Some(i) => {
                proof {
                    crate::table::lemma_rows_map_at(self.rows@, i as int);
                }
                FetchReply::Found(self.rows[i].info.clone())
            },
            None => FetchReply::Missing,
        }
    }

    /// Creates (`create`) or overwrites the record of `file_info`'s id.
    pub fn set_info(&mut self, file_info: &FileInfo, create: bool) -> (r: Result<(), StorageError>)
        requires
            old(self).wf(),
        ensures
            final(self).wf(),
            (final(self)@, r) == set_info_step(old(self)@, file_info@, create),
    {
        let model = DbModel::from_info(file_info);
        let reply = if create {
            self.insert_row(model)
        } else {
            self.update_row(model)
        };
        write_result(create, reply)
    }

    /// The current record of this id.
    pub fn get_info(&self, file_id: &str) -> (r: Result<FileInfo, StorageError>)
        requires
            self.wf(),
        ensures
            match r {
                Ok(info) => get_info_result(self@, file_id@) == Ok::<Seq<char>, StorageError>(
                    info@.payload,
                ) && info@.id == file_id@,
                Err(e) => get_info_result(self@, file_id@) == Err::<Seq<char>, StorageError>(e),
            },
    {
        let reply = self.fetch_row(file_id);
        read_result(file_id.to_owned(), reply)
    }

    /// Deletes the record of this id; there may be none.
    pub fn remove_info(&mut self, file_id: &str) -> (r: Result<(), StorageError>)
        requires
            old(self).wf(),
        ensures
            final(self).wf(),
            (final(self)@, r) == remove_info_step(old(self)@, file_id@),
    {
        let reply = self.delete_row(file_id);
        remove_result(reply)
    }
}

} // verus!
