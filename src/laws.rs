use vstd::prelude::*;

use crate::error::StorageError;
use crate::file_info::FileInfoView;
use crate::json::is_json_text;
use crate::table::{get_info_result, prepared, remove_info_step, set_info_step, StoreState};

verus! {

/// An operation of the storage interface that may change the store.
pub ghost enum StoreOp {
    Prepare,
    SetInfo(FileInfoView, bool),
    RemoveInfo(Seq<char>),
}

pub open spec fn apply(s: StoreState, op: StoreOp) -> StoreState {
    match op {
        StoreOp::Prepare => prepared(s),
        StoreOp::SetInfo(info, create) => set_info_step(s, info, create).0,
        StoreOp::RemoveInfo(id) => remove_info_step(s, id).0,
    }
}

/// The state after running `ops` in order from `s`.
pub open spec fn run(s: StoreState, ops: Seq<StoreOp>) -> StoreState
    decreases ops.len(),
{
    if ops.len() == 0 {
        s
    } else {
        apply(run(s, ops.drop_last()), ops.last())
    }
}

/// Whether `op` is a creation of a record for `id`.
pub open spec fn creates(op: StoreOp, id: Seq<char>) -> bool {
    op matches StoreOp::SetInfo(info, create) && create && info.id == id
}

/// A store that was prepared, and then given any operations but a creation
/// of `id`, has no record for `id`: reading it is `NotFound`.
pub proof fn law_absent_until_created(ops: Seq<StoreOp>, id: Seq<char>)
    requires
        forall|i: int| 0 <= i < ops.len() ==> !creates(#[trigger] ops[i], id),
    ensures
        get_info_result(run(prepared(None), ops), id) == Err::<Seq<char>, StorageError>(
            StorageError::NotFound,
        ),
{
    lemma_absent_kept(ops, id);
}

proof fn lemma_absent_kept(ops: Seq<StoreOp>, id: Seq<char>)
    requires
        forall|i: int| 0 <= i < ops.len() ==> !creates(#[trigger] ops[i], id),
    ensures
        run(prepared(None), ops) matches Some(rows) && !rows.contains_key(id),
    decreases ops.len(),
{
    if ops.len() > 0 {
        let front = ops.drop_last();
        assert forall|i: int| 0 <= i < front.len() implies !creates(#[trigger] front[i], id) by {
            assert(front[i] == ops[i]);
        }
        lemma_absent_kept(front, id);
        assert(!creates(ops[ops.len() - 1], id));
    }
}

/// Once a creation succeeds, reading the id gives back the record written.
pub proof fn law_create_then_get(s: StoreState, info: FileInfoView)
    requires
        is_json_text(info.payload),
        set_info_step(s, info, true).1 is Ok,
    ensures
        get_info_result(set_info_step(s, info, true).0, info.id) == Ok::<Seq<char>, StorageError>(
            info.payload,
        ),
{
}

/// A second creation for an id fails with `Conflict` and leaves the first
/// record in place.
pub proof fn law_create_twice(s: StoreState, first: FileInfoView, second: FileInfoView)
    requires
        first.id == second.id,
        set_info_step(s, first, true).1 is Ok,
    ensures
        set_info_step(set_info_step(s, first, true).0, second, true) == (
            set_info_step(s, first, true).0,
            Err::<(), StorageError>(StorageError::Conflict),
        ),
        set_info_step(s, first, true).0 matches Some(rows) && rows[first.id] == first.payload,
{
}

/// An update of an id with no record fails with `NotFound` and writes nothing.
pub proof fn law_update_absent(s: StoreState, info: FileInfoView)
    requires
        s matches Some(rows) && !rows.contains_key(info.id),
    ensures
        set_info_step(s, info, false) == (s, Err::<(), StorageError>(StorageError::NotFound)),
{
}

/// An update replaces the whole record: after creating `first` and updating
/// to `second`, reading gives exactly `second`.
pub proof fn law_update_replaces(s: StoreState, first: FileInfoView, second: FileInfoView)
    requires
        first.id == second.id,
        is_json_text(second.payload),
        set_info_step(s, first, true).1 is Ok,
    ensures
        set_info_step(set_info_step(s, first, true).0, second, false).1 is Ok,
        get_info_result(
            set_info_step(set_info_step(s, first, true).0, second, false).0,
            second.id,
        ) == Ok::<Seq<char>, StorageError>(second.payload),
{
}

/// Removing an id twice succeeds both times, and the id then reads as `NotFound`.
pub proof fn law_remove_twice(s: StoreState, id: Seq<char>)
    requires
        s is Some,
    ensures
        remove_info_step(s, id).1 is Ok,
        remove_info_step(remove_info_step(s, id).0, id).1 is Ok,
        get_info_result(remove_info_step(remove_info_step(s, id).0, id).0, id) == Err::<
            Seq<char>,
            StorageError,
        >(StorageError::NotFound),
{
}

proof fn lemma_prepared_stays(s: StoreState, ops: Seq<StoreOp>)
    requires
        s is Some,
    ensures
        run(s, ops) is Some,
    decreases ops.len(),
{
    if ops.len() > 0 {
        lemma_prepared_stays(s, ops.drop_last());
    }
}

/// Preparing again after any operations keeps every record as it is.
pub proof fn law_prepare_again(s: StoreState, ops: Seq<StoreOp>)
    ensures
        prepared(run(prepared(s), ops)) == run(prepared(s), ops),
{
    lemma_prepared_stays(prepared(s), ops);
}

/// A stored payload that does not decode reads as `CorruptRecord`.
pub proof fn law_corrupt_record(s: StoreState, id: Seq<char>)
    requires
        s matches Some(rows) && rows.contains_key(id) && !is_json_text(rows[id]),
    ensures
        get_info_result(s, id) == Err::<Seq<char>, StorageError>(StorageError::CorruptRecord),
{
}

} // verus!
