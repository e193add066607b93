//! What holds of every ledger, stated over [`LedgerState`] and proved.

use vstd::prelude::*;

use crate::expense::{Details, ExpenseView};
use crate::state::LedgerState;

verus! {

/// Every operation keeps a well-formed ledger well-formed, and only
/// creation moves the counter: it advances it by exactly one.
pub proof fn lemma_operations_keep_wf(s: LedgerState, id: i64, details: Details)
    requires
        s.wf(),
    ensures
        LedgerState::empty().wf(),
        s.can_create() ==> s.created(details).wf(),
        s.can_create() ==> s.created(details).next_id == s.next_id + 1,
        s.updated(id, details).wf(),
        s.updated(id, details).next_id == s.next_id,
        s.deleted(id).wf(),
        s.deleted(id).next_id == s.next_id,
{
}

/// Creating a whole batch advances the counter by the size of the batch and
/// keeps the ledger well-formed, as long as the counter has room for it.
pub proof fn lemma_created_all(s: LedgerState, batch: Seq<Details>)
    requires
        s.wf(),
        s.next_id + batch.len() <= i64::MAX,
    ensures
        s.created_all(batch).wf(),
        s.created_all(batch).next_id == s.next_id + batch.len(),
    decreases batch.len(),
{
    if batch.len() > 0 {
        lemma_created_all(s, batch.drop_last());
    }
}

/// Creations hand out consecutive ids in call order, without gaps or
/// repeats: creation number `k` of a batch, counting from 0, returns the
/// counter that the batch started from plus `k`. On a fresh ledger the ids
/// are therefore exactly 0, 1, 2, and so on.
pub proof fn lemma_ids_count_up(s: LedgerState, batch: Seq<Details>, k: int)
    requires
        s.wf(),
        s.next_id + batch.len() <= i64::MAX,
        0 <= k < batch.len(),
    ensures
        s.minted(batch, k) == s.next_id + k,
        LedgerState::empty().minted(batch, k) == k,
        forall|j: int| 0 <= j < batch.len() && j != k ==> s.minted(batch, j) != s.minted(batch, k),
{
    lemma_created_all(s, batch.take(k));
    lemma_created_all(LedgerState::empty(), batch.take(k));
    assert forall|j: int| 0 <= j < batch.len() && j != k implies s.minted(batch, j) != s.minted(
        batch,
        k,
    ) by {
        lemma_created_all(s, batch.take(j));
    }
}

/// Reading the id that a creation returned yields the record that was
/// supplied, under that id.
pub proof fn lemma_read_after_create(s: LedgerState, details: Details)
    ensures
        s.created(details).lookup(s.next_id) == Some(details.with_id(s.next_id)),
        s.created(details).lookup(s.next_id).unwrap().details() == details,
{
}

/// Updating a stored record replaces every field and leaves the id as it
/// was: reading the id afterwards yields the new details under the same id.
/// No other record changes.
pub proof fn lemma_read_after_update(s: LedgerState, id: i64, details: Details)
    requires
        s.wf(),
        s.records.contains_key(id),
    ensures
        s.updated(id, details).lookup(id) == Some(details.with_id(id)),
        s.updated(id, details).lookup(id).unwrap().details() == details,
        forall|other: i64| other != id ==> s.updated(id, details).lookup(other) == s.lookup(other),
{
}

/// Updating an id under which nothing is stored changes nothing: the id
/// stays absent and every other id reads as before.
pub proof fn lemma_update_absent(s: LedgerState, id: i64, details: Details)
    requires
        !s.records.contains_key(id),
    ensures
        s.updated(id, details) == s,
        s.updated(id, details).lookup(id).is_none(),
{
}

/// Deleting a stored record removes it: its id reads as absent, it is no
/// longer listed, and every other id reads as before.
pub proof fn lemma_delete_present(s: LedgerState, id: i64)
    requires
        s.wf(),
        s.records.contains_key(id),
    ensures
        s.deleted(id).lookup(id).is_none(),
        forall|i: int| 0 <= i < s.deleted(id).listing().len() ==> s.deleted(id).listing()[i].id != id,
        forall|other: i64| other != id ==> s.deleted(id).lookup(other) == s.lookup(other),
{
    lemma_range(s.deleted(id), 1, s.next_id as int);
}

/// Deleting an id under which nothing is stored changes nothing.
pub proof fn lemma_delete_absent(s: LedgerState, id: i64)
    requires
        !s.records.contains_key(id),
    ensures
        s.deleted(id) == s,
        s.deleted(id).records.dom() == s.records.dom(),
{
}

/// The records of a range are stored records with ids inside the range, in
/// strictly ascending order of id, and none that is stored with an id
/// inside the range is missing.
pub proof fn lemma_range(s: LedgerState, lo: int, hi: int)
    requires
        s.wf(),
        i64::MIN <= lo,
        hi <= i64::MAX,
    ensures
        forall|i: int|
            0 <= i < s.range(lo, hi).len() ==> {
                let record = #[trigger] s.range(lo, hi)[i];
                lo <= record.id < hi && s.lookup(record.id) == Some(record)
            },
        forall|i: int, j: int|
            0 <= i < j < s.range(lo, hi).len() ==> s.range(lo, hi)[i].id < s.range(lo, hi)[j].id,
        forall|id: i64|
            lo <= id < hi && #[trigger] s.records.contains_key(id) ==> s.range(lo, hi).contains(
                s.records[id],
            ),
    decreases hi - lo,
{
    if lo < hi {
        lemma_range(s, lo, hi - 1);
        let shorter = s.range(lo, hi - 1);
        let last = (hi - 1) as i64;
        if s.records.contains_key(last) {
            let longer = shorter.push(s.records[last]);
            assert(longer[shorter.len() as int] == s.records[last]);
            assert forall|id: i64| lo <= id < hi && #[trigger] s.records.contains_key(
                id,
            ) implies longer.contains(s.records[id]) by {
                if id != last {
                    let i = choose|i: int| 0 <= i < shorter.len() && shorter[i] == s.records[id];
                    assert(longer[i] == s.records[id]);
                }
            }
        }
    }
}

/// Listing yields exactly the stored records with an id of 1 or more, in
/// strictly ascending order of id. A record stored under id 0 is never
/// listed, although reading id 0 finds it.
pub proof fn lemma_listing_is_exact(s: LedgerState)
    requires
        s.wf(),
    ensures
        forall|i: int|
            0 <= i < s.listing().len() ==> {
                let record = #[trigger] s.listing()[i];
                record.id >= 1 && s.lookup(record.id) == Some(record)
            },
        forall|i: int, j: int|
            0 <= i < j < s.listing().len() ==> s.listing()[i].id < s.listing()[j].id,
        forall|id: i64|
            id >= 1 && #[trigger] s.records.contains_key(id) ==> s.listing().contains(
                s.records[id],
            ),
        s.records.contains_key(0) ==> !s.listing().contains(s.records[0]),
{
    lemma_range(s, 1, s.next_id as int);
}

/// Restoring from a counter and records that describe a ledger gives a
/// well-formed ledger with that counter which stores exactly those records,
/// each under its own id.
pub proof fn lemma_restored(next_id: i64, records: Seq<ExpenseView>)
    requires
        LedgerState::restorable(next_id, records),
    ensures
        LedgerState::restored(next_id, records).wf(),
        LedgerState::restored(next_id, records).next_id == next_id,
        forall|i: int|
            0 <= i < records.len() ==> LedgerState::restored(next_id, records).lookup(
                (#[trigger] records[i]).id,
            ) == Some(records[i]),
        forall|id: i64| #[trigger]
            LedgerState::restored(next_id, records).records.contains_key(id) ==> exists|i: int|
                0 <= i < records.len() && (#[trigger] records[i]).id == id,
    decreases records.len(),
{
    if records.len() > 0 {
        let shorter = records.drop_last();
        lemma_restored(next_id, shorter);
        let whole = LedgerState::restored(next_id, records);
        assert forall|i: int| 0 <= i < records.len() implies whole.lookup(
            (#[trigger] records[i]).id,
        ) == Some(records[i]) by {
            if i < records.len() - 1 {
                assert(shorter[i] == records[i]);
            }
        }
        assert forall|id: i64| #[trigger] whole.records.contains_key(id) implies exists|i: int|
            0 <= i < records.len() && (#[trigger] records[i]).id == id by {
            if id != records.last().id {
                let i = choose|i: int| 0 <= i < shorter.len() && (#[trigger] shorter[i]).id == id;
                assert(records[i].id == id);
            }
        }
    }
}

/// What a well-formed ledger hands out as its counter and its records
/// describes a ledger, and restoring from it gives the same ledger back.
pub proof fn lemma_snapshot_restores(s: LedgerState)
    requires
        s.wf(),
    ensures
        LedgerState::restorable(s.next_id, s.snapshot()),
        LedgerState::restored(s.next_id, s.snapshot()) == s,
{
    lemma_range(s, 0, s.next_id as int);
    lemma_restored(s.next_id, s.snapshot());
    assert(LedgerState::restored(s.next_id, s.snapshot()).records =~= s.records);
}

} // verus!
