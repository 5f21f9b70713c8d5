//! The notification log as a mathematical object.

use vstd::prelude::*;
use crate::model::NotificationModel;

verus! {

/// Ids strictly increase along the log and stay below the next id to give.
pub open spec fn log_wf(entries: Seq<NotificationModel>, next_id: u64) -> bool {
    &&& forall|i: int, j: int|
        0 <= i < j < entries.len() ==> #[trigger] entries[i].id < #[trigger] entries[j].id
    &&& forall|i: int| 0 <= i < entries.len() ==> #[trigger] entries[i].id < next_id
}

/// Appending an entry with the next id keeps the log well formed.
pub proof fn lemma_append_keeps_order(
    entries: Seq<NotificationModel>,
    next_id: u64,
    entry: NotificationModel,
)
    requires
        log_wf(entries, next_id),
        entry.id == next_id,
        next_id < u64::MAX,
    ensures
        log_wf(entries.push(entry), (next_id + 1) as u64),
{
    let r = entries.push(entry);
    assert forall|i: int, j: int| 0 <= i < j < r.len() implies #[trigger] r[i].id < #[trigger] r[j].id by {
        assert(r[i] == entries[i]);
        if j < entries.len() {
            assert(r[j] == entries[j]);
        }
    }
    assert forall|i: int| 0 <= i < r.len() implies #[trigger] r[i].id < next_id + 1 by {
        if i < entries.len() {
            assert(r[i] == entries[i]);
        }
    }
}

} // verus!
