//! The mathematical state of a ledger and what each operation does to it.

use vstd::prelude::*;

use crate::expense::{Details, ExpenseView};

verus! {

/// A ledger as mathematics sees it: the stored records by id, and the id
/// that the next created record will get.
#[verifier::ext_equal]
pub struct LedgerState {
    pub records: Map<i64, ExpenseView>,
    pub next_id: i64,
}

impl LedgerState {
    /// The ledger that holds nothing and has minted no id.
    pub open spec fn empty() -> LedgerState {
        LedgerState { records: Map::empty(), next_id: 0 }
    }

    /// What every reachable ledger satisfies: the counter is not negative,
    /// every stored id was minted before (it lies below the counter), and
    /// each record carries the id it is stored under.
    pub open spec fn wf(self) -> bool {
        &&& 0 <= self.next_id
        &&& forall|id: i64| #[trigger]
            self.records.contains_key(id) ==> 0 <= id < self.next_id && self.records[id].id == id
    }

    /// Whether the counter can still be advanced, that is, whether another
    /// record can be created.
    pub open spec fn can_create(self) -> bool {
        self.next_id < i64::MAX
    }

    /// The ledger after creating a record with `details`: the record is
    /// stored under the current counter, and the counter advances by one.
    pub open spec fn created(self, details: Details) -> LedgerState
        recommends
            self.can_create(),
    {
        LedgerState {
            records: self.records.insert(self.next_id, details.with_id(self.next_id)),
            next_id: (self.next_id + 1) as i64,
        }
    }

    /// The ledger after creating one record for each entry of `batch`, in
    /// order.
    pub open spec fn created_all(self, batch: Seq<Details>) -> LedgerState
        decreases batch.len(),
    {
        if batch.len() == 0 {
            self
        } else {
            self.created_all(batch.drop_last()).created(batch.last())
        }
    }

    /// The id that creation number `k` of `batch` returns, counting from 0:
    /// the counter as the first `k` creations have left it.
    pub open spec fn minted(self, batch: Seq<Details>, k: int) -> i64
        recommends
            0 <= k < batch.len(),
    {
        self.created_all(batch.take(k)).next_id
    }

    /// The record stored under `id`, if there is one.
    pub open spec fn lookup(self, id: i64) -> Option<ExpenseView> {
        if self.records.contains_key(id) {
            Some(self.records[id])
        } else {
            None
        }
    }

    /// The ledger after updating `id` with `details`: a stored record keeps
    /// its id and has every other field replaced; where nothing is stored
    /// under `id`, nothing changes.
    pub open spec fn updated(self, id: i64, details: Details) -> LedgerState {
        if self.records.contains_key(id) {
            LedgerState {
                records: self.records.insert(id, details.with_id(self.records[id].id)),
                next_id: self.next_id,
            }
        } else {
            self
        }
    }

    /// The ledger after deleting `id`: nothing is stored under `id`, and
    /// the counter stays, so the id is never minted again.
    pub open spec fn deleted(self, id: i64) -> LedgerState {
        LedgerState { records: self.records.remove(id), next_id: self.next_id }
    }

    /// The stored records whose ids lie in `lo..hi`, by ascending id.
    pub open spec fn range(self, lo: int, hi: int) -> Seq<ExpenseView>
        decreases hi - lo,
    {
        if hi <= lo {
            Seq::empty()
        } else if self.records.contains_key((hi - 1) as i64) {
            self.range(lo, hi - 1).push(self.records[(hi - 1) as i64])
        } else {
            self.range(lo, hi - 1)
        }
    }

    /// What listing yields: the stored records with ids from 1 up to, but
    /// not including, the counter, by ascending id. A record stored under
    /// id 0 is not listed.
    pub open spec fn listing(self) -> Seq<ExpenseView> {
        self.range(1, self.next_id as int)
    }

    /// Every stored record, by ascending id.
    pub open spec fn snapshot(self) -> Seq<ExpenseView> {
        self.range(0, self.next_id as int)
    }

    /// Whether a counter and a sequence of records describe a ledger: the
    /// counter is not negative, every record's id is not negative and lies
    /// below the counter, and no two records share an id. The order of the
    /// records does not matter.
    pub open spec fn restorable(next_id: i64, records: Seq<ExpenseView>) -> bool {
        &&& 0 <= next_id
        &&& forall|i: int| 0 <= i < records.len() ==> 0 <= (#[trigger] records[i]).id < next_id
        &&& forall|i: int, j: int|
            0 <= i < j < records.len() ==> (#[trigger] records[i]).id != (#[trigger] records[j]).id
    }

    /// The ledger whose counter is `next_id` and that stores each of
    /// `records` under the record's own id.
    pub open spec fn restored(next_id: i64, records: Seq<ExpenseView>) -> LedgerState
        decreases records.len(),
    {
        if records.len() == 0 {
            LedgerState { records: Map::empty(), next_id }
        } else {
            LedgerState {
                records: Self::restored(next_id, records.drop_last()).records.insert(
                    records.last().id,
                    records.last(),
                ),
                next_id,
            }
        }
    }
}

} // verus!
