//! The quarantine record set as a mathematical object: its invariant, the
//! outcome of each operation, and the laws that relate them.

use vstd::prelude::*;
use crate::model::{QuarantineError, QuarantineModel};
use crate::hashing::{join_path, quarantine_id, sha256_hex};

verus! {

/// No two records share an id.
pub open spec fn ids_unique(items: Seq<QuarantineModel>) -> bool {
    forall|i: int, j: int|
        0 <= i < items.len() && 0 <= j < items.len() && i != j ==> #[trigger] items[i].id
            != #[trigger] items[j].id
}

/// Some record has this id.
pub open spec fn has_id(items: Seq<QuarantineModel>, id: Seq<char>) -> bool {
    exists|i: int| 0 <= i < items.len() && #[trigger] items[i].id == id
}

/// The index of the record with this id, where there is one.
pub open spec fn position_of(items: Seq<QuarantineModel>, id: Seq<char>) -> int {
    choose|i: int| 0 <= i < items.len() && #[trigger] items[i].id == id
}

/// The record made for a file that holds `content`, isolated from
/// `file_path` at `timestamp` into directory `dir`.
pub open spec fn isolation_record(
    file_path: Seq<char>,
    threat_name: Seq<char>,
    content: Seq<u8>,
    timestamp: i64,
    dir: Seq<char>,
) -> QuarantineModel {
    let hash = sha256_hex(content);
    let id = quarantine_id(hash, timestamp);
    QuarantineModel {
        id: id,
        original_path: file_path,
        quarantine_path: join_path(dir, id),
        threat_name: threat_name,
        timestamp: timestamp,
        file_hash: hash,
    }
}

/// The outcome of planning an isolation: the new record, unless its id is
/// already taken.
pub open spec fn plan_outcome(
    items: Seq<QuarantineModel>,
    file_path: Seq<char>,
    threat_name: Seq<char>,
    content: Seq<u8>,
    timestamp: i64,
    dir: Seq<char>,
) -> Result<QuarantineModel, QuarantineError> {
    record_outcome(items, isolation_record(file_path, threat_name, content, timestamp, dir))
}

/// The outcome of recording an isolated file: an id already taken is a
/// conflict, never overwritten.
pub open spec fn record_outcome(items: Seq<QuarantineModel>, item: QuarantineModel) -> Result<
    QuarantineModel,
    QuarantineError,
> {
    if has_id(items, item.id) {
        Err(QuarantineError::InternalInconsistency)
    } else {
        Ok(item)
    }
}

/// The record set after recording an isolated file.
pub open spec fn record_store(items: Seq<QuarantineModel>, item: QuarantineModel) -> Seq<
    QuarantineModel,
> {
    if has_id(items, item.id) {
        items
    } else {
        items.push(item)
    }
}

/// The outcome of restoring the record with this id, where the original
/// location is or is not occupied.
pub open spec fn restore_outcome(items: Seq<QuarantineModel>, id: Seq<char>, occupied: bool) -> Result<
    QuarantineModel,
    QuarantineError,
> {
    if !has_id(items, id) {
        Err(QuarantineError::NotFoundInQuarantine)
    } else if occupied {
        Err(QuarantineError::DestinationOccupied)
    } else {
        Ok(items[position_of(items, id)])
    }
}

/// The record set after restoring: the record leaves only on success.
pub open spec fn restore_store(items: Seq<QuarantineModel>, id: Seq<char>, occupied: bool) -> Seq<
    QuarantineModel,
> {
    if has_id(items, id) && !occupied {
        items.remove(position_of(items, id))
    } else {
        items
    }
}

/// The outcome of deleting the record with this id.
pub open spec fn delete_outcome(items: Seq<QuarantineModel>, id: Seq<char>) -> Result<
    QuarantineModel,
    QuarantineError,
> {
    if !has_id(items, id) {
        Err(QuarantineError::NotFoundInQuarantine)
    } else {
        Ok(items[position_of(items, id)])
    }
}

/// The record set after deleting.
pub open spec fn delete_store(items: Seq<QuarantineModel>, id: Seq<char>) -> Seq<QuarantineModel> {
    if has_id(items, id) {
        items.remove(position_of(items, id))
    } else {
        items
    }
}

/// With unique ids, the record at `i` is the one `position_of` names.
pub proof fn lemma_position_unique(items: Seq<QuarantineModel>, i: int)
    requires
        ids_unique(items),
        0 <= i < items.len(),
    ensures
        has_id(items, items[i].id),
        position_of(items, items[i].id) == i,
{
    assert(has_id(items, items[i].id));
}

/// Removing a record keeps the ids unique.
pub proof fn lemma_remove_keeps_unique(items: Seq<QuarantineModel>, i: int)
    requires
        ids_unique(items),
        0 <= i < items.len(),
    ensures
        ids_unique(items.remove(i)),
{
    let r = items.remove(i);
    assert forall|a: int, b: int|
        0 <= a < r.len() && 0 <= b < r.len() && a != b implies #[trigger] r[a].id
        != #[trigger] r[b].id by {
        let a0 = if a < i { a } else { a + 1 };
        let b0 = if b < i { b } else { b + 1 };
        assert(r[a] == items[a0]);
        assert(r[b] == items[b0]);
    }
}

/// Appending a record whose id is new keeps the ids unique.
pub proof fn lemma_push_keeps_unique(items: Seq<QuarantineModel>, item: QuarantineModel)
    requires
        ids_unique(items),
        !has_id(items, item.id),
    ensures
        ids_unique(items.push(item)),
{
    let r = items.push(item);
    assert forall|a: int, b: int|
        0 <= a < r.len() && 0 <= b < r.len() && a != b implies #[trigger] r[a].id
        != #[trigger] r[b].id by {
        if a < items.len() && b < items.len() {
            assert(r[a] == items[a] && r[b] == items[b]);
        } else if a < items.len() {
            assert(r[a] == items[a]);
        } else if b < items.len() {
            assert(r[b] == items[b]);
        }
    }
}

/// Isolating a file and then restoring it by its id gives back the very
/// record that isolation made (so the file returns to its original path, and
/// the recorded hash is that of the isolated content) and leaves the record
/// set as it was before the isolation.
pub proof fn isolate_then_restore_round_trip(
    items: Seq<QuarantineModel>,
    file_path: Seq<char>,
    threat_name: Seq<char>,
    content: Seq<u8>,
    timestamp: i64,
    dir: Seq<char>,
)
    requires
        ids_unique(items),
        !has_id(items, isolation_record(file_path, threat_name, content, timestamp, dir).id),
    ensures
        ({
            let item = isolation_record(file_path, threat_name, content, timestamp, dir);
            let after = record_store(items, item);
            &&& record_outcome(items, item) == Ok::<QuarantineModel, QuarantineError>(item)
            &&& restore_outcome(after, item.id, false) == Ok::<QuarantineModel, QuarantineError>(
                item,
            )
            &&& item.original_path == file_path
            &&& item.file_hash == sha256_hex(content)
            &&& restore_store(after, item.id, false) == items
        }),
{
    let item = isolation_record(file_path, threat_name, content, timestamp, dir);
    let after = items.push(item);
    lemma_push_keeps_unique(items, item);
    lemma_position_unique(after, items.len() as int);
    assert(after.remove(items.len() as int) =~= items);
}

/// Restoring or deleting an id that no record has fails with
/// `NotFoundInQuarantine` and leaves the record set unchanged.
pub proof fn unknown_id_changes_nothing(items: Seq<QuarantineModel>, id: Seq<char>, occupied: bool)
    requires
        !has_id(items, id),
    ensures
        restore_outcome(items, id, occupied) == Err::<QuarantineModel, QuarantineError>(
            QuarantineError::NotFoundInQuarantine,
        ),
        restore_store(items, id, occupied) == items,
        delete_outcome(items, id) == Err::<QuarantineModel, QuarantineError>(
            QuarantineError::NotFoundInQuarantine,
        ),
        delete_store(items, id) == items,
{
}

} // verus!
