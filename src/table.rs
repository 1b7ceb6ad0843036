use vstd::prelude::*;

use crate::reply::{read_outcome, remove_outcome, write_outcome, DbModel, WriteReply};
use crate::error::StorageError;
use crate::file_info::FileInfoView;

verus! {

/// The contents of the session table: encoded record by id.
pub type Rows = Map<Seq<char>, Seq<char>>;

/// The state of a store: `None` while its table does not exist.
pub type StoreState = Option<Rows>;

/// Creating the table where it is absent; an existing table is kept as it is.
pub open spec fn prepared(s: StoreState) -> StoreState {
    match s {
        None => Some(Map::empty()),
        Some(rows) => Some(rows),
    }
}

/// An insert: refused by the primary key where the id has a row.
pub open spec fn insert_step(s: StoreState, id: Seq<char>, info: Seq<char>) -> (StoreState, WriteReply) {
    match s {
        None => (None, WriteReply::Unavailable),
        Some(rows) => if rows.contains_key(id) {
            (s, WriteReply::DuplicateKey)
        } else {
            (Some(rows.insert(id, info)), WriteReply::Applied(1))
        },
    }
}

/// An update by id: touches no row where the id has none.
pub open spec fn update_step(s: StoreState, id: Seq<char>, info: Seq<char>) -> (StoreState, WriteReply) {
    match s {
        None => (None, WriteReply::Unavailable),
        Some(rows) => if rows.contains_key(id) {
            (Some(rows.insert(id, info)), WriteReply::Applied(1))
        } else {
            (s, WriteReply::Applied(0))
        },
    }
}

/// A delete by id: touches no row where the id has none.
pub open spec fn delete_step(s: StoreState, id: Seq<char>) -> (StoreState, WriteReply) {
    match s {
        None => (None, WriteReply::Unavailable),
        Some(rows) => if rows.contains_key(id) {
            (Some(rows.remove(id)), WriteReply::Applied(1))
        } else {
            (s, WriteReply::Applied(0))
        },
    }
}

/// A lookup by id: `None` where the table is absent.
pub open spec fn lookup(s: StoreState, id: Seq<char>) -> Option<Option<Seq<char>>> {
    match s {
        None => None,
        Some(rows) => Some(
            if rows.contains_key(id) {
                Some(rows[id])
            } else {
                None
            },
        ),
    }
}

/// `set_info`: an insert when `create`, else an update, and the translated reply.
pub open spec fn set_info_step(s: StoreState, info: FileInfoView, create: bool) -> (StoreState, Result<(), StorageError>) {
    let (next, reply) = if create {
        insert_step(s, info.id, info.payload)
    } else {
        update_step(s, info.id, info.payload)
    };
    (next, write_outcome(create, reply))
}

/// `get_info`: the stored payload of `id`, or why there is none.
pub open spec fn get_info_result(s: StoreState, id: Seq<char>) -> Result<Seq<char>, StorageError> {
    match lookup(s, id) {
        None => Err(StorageError::BackendUnavailable),
        Some(stored) => read_outcome(stored),
    }
}

/// `remove_info`: a delete by id and the translated reply.
pub open spec fn remove_info_step(s: StoreState, id: Seq<char>) -> (StoreState, Result<(), StorageError>) {
    let (next, reply) = delete_step(s, id);
    (next, remove_outcome(reply))
}

/// The map that a sequence of rows stands for.
pub open spec fn rows_map(rows: Seq<DbModel>) -> Rows
    decreases rows.len(),
{
    if rows.len() == 0 {
        Map::empty()
    } else {
        rows_map(rows.drop_last()).insert(rows.last().id@, rows.last().info@)
    }
}

/// No two rows share an id.
pub open spec fn ids_unique(rows: Seq<DbModel>) -> bool {
    forall|i: int, j: int|
        0 <= i < rows.len() && 0 <= j < rows.len() && i != j ==> rows[i].id@ != rows[j].id@
}

pub(crate) proof fn lemma_rows_map_dom(rows: Seq<DbModel>, k: Seq<char>)
    ensures
        rows_map(rows).contains_key(k) <==> exists|i: int| 0 <= i < rows.len() && rows[i].id@ == k,
    decreases rows.len(),
{
    if rows.len() > 0 {
        let d = rows.drop_last();
        lemma_rows_map_dom(d, k);
        if exists|i: int| 0 <= i < d.len() && d[i].id@ == k {
            let i = choose|i: int| 0 <= i < d.len() && d[i].id@ == k;
            assert(rows[i].id@ == k);
        }
        if exists|i: int| 0 <= i < rows.len() && rows[i].id@ == k {
            let i = choose|i: int| 0 <= i < rows.len() && rows[i].id@ == k;
            if i < rows.len() - 1 {
                assert(d[i] == rows[i]);
            }
        }
    }
}

pub(crate) proof fn lemma_rows_map_at(rows: Seq<DbModel>, i: int)
    requires
        ids_unique(rows),
        0 <= i < rows.len(),
    ensures
        rows_map(rows).contains_key(rows[i].id@),
        rows_map(rows)[rows[i].id@] == rows[i].info@,
    decreases rows.len(),
{
    lemma_rows_map_dom(rows, rows[i].id@);
    if i < rows.len() - 1 {
        let d = rows.drop_last();
        assert(ids_unique(d)) by {
            assert forall|a: int, b: int|
                0 <= a < d.len() && 0 <= b < d.len() && a != b implies d[a].id@ != d[b].id@ by {
                assert(d[a] == rows[a] && d[b] == rows[b]);
            }
        }
        lemma_rows_map_at(d, i);
        assert(d[i] == rows[i]);
        assert(rows[i].id@ != rows[rows.len() - 1].id@);
    }
}

pub(crate) proof fn lemma_rows_map_update(rows: Seq<DbModel>, i: int, row: DbModel)
    requires
        ids_unique(rows),
        0 <= i < rows.len(),
        row.id@ == rows[i].id@,
    ensures
        ids_unique(rows.update(i, row)),
        rows_map(rows.update(i, row)) == rows_map(rows).insert(row.id@, row.info@),
{
    let n = rows.update(i, row);
    assert(ids_unique(n));
    let lhs = rows_map(n);
    let rhs = rows_map(rows).insert(row.id@, row.info@);
    assert forall|k: Seq<char>| lhs.contains_key(k) <==> rhs.contains_key(k) by {
        lemma_rows_map_dom(n, k);
        lemma_rows_map_dom(rows, k);
        if exists|j: int| 0 <= j < n.len() && n[j].id@ == k {
            let j = choose|j: int| 0 <= j < n.len() && n[j].id@ == k;
            assert(rows[j].id@ == k);
        }
        if exists|j: int| 0 <= j < rows.len() && rows[j].id@ == k {
            let j = choose|j: int| 0 <= j < rows.len() && rows[j].id@ == k;
            assert(n[j].id@ == k);
        }
        if k == row.id@ {
            assert(n[i].id@ == k);
        }
    }
    assert forall|k: Seq<char>| lhs.contains_key(k) implies lhs[k] == rhs[k] by {
        lemma_rows_map_dom(n, k);
        let j = choose|j: int| 0 <= j < n.len() && n[j].id@ == k;
        lemma_rows_map_at(n, j);
        if j != i {
            lemma_rows_map_at(rows, j);
        }
    }
    assert(lhs =~= rhs);
}

pub(crate) proof fn lemma_rows_map_remove(rows: Seq<DbModel>, i: int)
    requires
        ids_unique(rows),
        0 <= i < rows.len(),
    ensures
        ids_unique(rows.remove(i)),
        rows_map(rows.remove(i)) == rows_map(rows).remove(rows[i].id@),
{
    let n = rows.remove(i);
    assert(ids_unique(n)) by {
        assert forall|a: int, b: int|
            0 <= a < n.len() && 0 <= b < n.len() && a != b implies n[a].id@ != n[b].id@ by {
            let a2 = if a < i { a } else { a + 1 };
            let b2 = if b < i { b } else { b + 1 };
            assert(n[a] == rows[a2] && n[b] == rows[b2]);
        }
    }
    let lhs = rows_map(n);
    let rhs = rows_map(rows).remove(rows[i].id@);
    assert forall|k: Seq<char>| lhs.contains_key(k) <==> rhs.contains_key(k) by {
        lemma_rows_map_dom(n, k);
        lemma_rows_map_dom(rows, k);
        if exists|j: int| 0 <= j < n.len() && n[j].id@ == k {
            let j = choose|j: int| 0 <= j < n.len() && n[j].id@ == k;
            let j2 = if j < i { j } else { j + 1 };
            assert(n[j] == rows[j2]);
        }
        if k != rows[i].id@ && exists|j: int| 0 <= j < rows.len() && rows[j].id@ == k {
            let j = choose|j: int| 0 <= j < rows.len() && rows[j].id@ == k;
            let j2 = if j < i { j } else { j - 1 };
            assert(n[j2] == rows[j]);
        }
    }
    assert forall|k: Seq<char>| lhs.contains_key(k) implies lhs[k] == rhs[k] by {
        lemma_rows_map_dom(n, k);
        let j = choose|j: int| 0 <= j < n.len() && n[j].id@ == k;
        let j2 = if j < i { j } else { j + 1 };
        assert(n[j] == rows[j2]);
        lemma_rows_map_at(n, j);
        lemma_rows_map_at(rows, j2);
    }
    assert(lhs =~= rhs);
}

} // verus!
