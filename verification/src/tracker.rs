//! The ledger itself: the id counter, the stored records, and the five
//! operations on them.

use std::collections::HashMap;
use vstd::prelude::*;

use crate::category::Category;
use crate::expense::{views, Details, Expense, ExpenseView};
use crate::laws::{lemma_listing_is_exact, lemma_snapshot_restores};
use crate::state::LedgerState;

verus! {

broadcast use vstd::std_specs::hash::group_hash_axioms;

/// What a map of expenses stands for: the view of each expense, under the
/// same id.
spec fn record_views(expenses: Map<i64, Expense>) -> Map<i64, ExpenseView> {
    Map::new(|id: i64| expenses.contains_key(id), |id: i64| expenses[id]@)
}

/// A ledger of expenses.
///
/// It mints the ids: the first record created gets id 0, each later one the
/// next integer, and an id is never given out twice, whatever is deleted in
/// between.
pub struct ExpenseTracker {
    expenses: HashMap<i64, Expense>,
    next_id: i64,
}

impl View for ExpenseTracker {
    type V = LedgerState;

    closed spec fn view(&self) -> LedgerState {
        LedgerState { records: record_views(self.expenses@), next_id: self.next_id }
    }
}

impl ExpenseTracker {
    /// Whether the ledger is in a state that the operations can have left it
    /// in. Every constructor establishes this and every operation keeps it.
    pub open spec fn wf(&self) -> bool {
        self@.wf()
    }

    /// An empty ledger whose first record will get id 0.
    pub fn new() -> (tracker: ExpenseTracker)
        ensures
            tracker.wf(),
            tracker@ == LedgerState::empty(),
    {
        ExpenseTracker { expenses: HashMap::new(), next_id: 0 }
    }

    /// The ledger that stores `records` and whose next record will get
    /// `next_id`, or `None` where the two do not describe a ledger: where
    /// `next_id` is negative, a record's id is negative or not below
    /// `next_id`, or two records share an id.
    pub fn restore(next_id: i64, records: Vec<Expense>) -> (restored: Option<ExpenseTracker>)
        ensures
            restored.is_some() <==> LedgerState::restorable(next_id, views(records@)),
            restored matches Some(tracker) ==> tracker.wf() && tracker@ == LedgerState::restored(
                next_id,
                views(records@),
            ),
    {
        if next_id < 0 {
            return None;
        }
        let ghost all = views(records@);
        let mut expenses: HashMap<i64, Expense> = HashMap::new();
        for expense in it: records
            invariant
                0 <= next_id,
                all == views(records@),
                it.seq() == records@,
                LedgerState::restorable(next_id, all.take(it.index() as int)),
                record_views(expenses@) == LedgerState::restored(
                    next_id,
                    all.take(it.index() as int),
                ).records,
                forall|id: i64| #[trigger]
                    expenses@.contains_key(id) ==> 0 <= id < next_id && expenses@[id].id == id,
                forall|id: i64|
                    expenses@.contains_key(id) ==> exists|j: int|
                        0 <= j < it.index() && #[trigger] all[j].id == id,
                forall|j: int|
                    0 <= j < it.index() ==> expenses@.contains_key((#[trigger] all[j]).id),
        {
            let ghost done = it.index() as int;
            assert(all[done] == expense@);
            if expense.id < 0 || expense.id >= next_id || expenses.contains_key(&expense.id) {
                return None;
            }
            expenses.insert(expense.id, expense);
            assert(all.take(done + 1).drop_last() =~= all.take(done));
        }
        assert(all.take(records@.len() as int) =~= all);
        Some(ExpenseTracker { expenses, next_id })
    }

    /// The id that the next created record will get.
    pub fn next_id(&self) -> (next: i64)
        requires
            self.wf(),
        ensures
            next == self@.next_id,
            0 <= next,
    {
        self.next_id
    }

    /// Stores a new record with the given fields and returns the id it was
    /// given, which is the counter before the call.
    ///
    /// The counter must have room to advance: after `i64::MAX` creations no
    /// further record can be created.
    pub fn create_expense(
        &mut self,
        title: String,
        description: String,
        amount: u64,
        date: String,
        category: Category,
    ) -> (id: i64)
        requires
            old(self).wf(),
            old(self)@.can_create(),
        ensures
            final(self).wf(),
            id == old(self)@.next_id,
            final(self)@ == old(self)@.created(
                Details::of(title@, description@, amount, date@, category),
            ),
    {
        let id = self.next_id;
        let expense = Expense { id, title, description, amount, date, category };
        self.expenses.insert(id, expense);
        self.next_id = id + 1;
        assert(self@.records =~= old(self)@.created(
            Details::of(title@, description@, amount, date@, category),
        ).records);
        id
    }

    /// A copy of the record stored under `id`, or `None` where there is
    /// none. The ledger is left as it was.
    pub fn read_expense(&self, id: i64) -> (found: Option<Expense>)
        requires
            self.wf(),
        ensures
            match found {
                Some(expense) => self@.lookup(id) == Some(expense@) && expense.id == id,
                None => self@.lookup(id).is_none(),
            },
    {
        match self.expenses.get(&id) {
            Some(expense) => Some(expense.clone()),
            None => None,
        }
    }

    /// Replaces every field but the id of the record stored under `id`, and
    /// says whether there was such a record. Where there was none, the
    /// ledger is left as it was.
    pub fn update_expense(
        &mut self,
        id: i64,
        title: String,
        description: String,
        amount: u64,
        date: String,
        category: Category,
    ) -> (updated: bool)
        requires
            old(self).wf(),
        ensures
            final(self).wf(),
            updated == old(self)@.records.contains_key(id),
            final(self)@ == old(self)@.updated(
                id,
                Details::of(title@, description@, amount, date@, category),
            ),
            !updated ==> final(self)@ == old(self)@,
    {
        let stored_id = match self.expenses.get(&id) {
            Some(expense) => expense.id,
            None => {
                return false;
            },
        };
        let expense = Expense { id: stored_id, title, description, amount, date, category };
        self.expenses.insert(id, expense);
        assert(self@.records =~= old(self)@.updated(
            id,
            Details::of(title@, description@, amount, date@, category),
        ).records);
        true
    }

    /// Removes the record stored under `id`, if there is one. The id is not
    /// minted again.
    pub fn delete_expense(&mut self, id: i64)
        requires
            old(self).wf(),
        ensures
            final(self).wf(),
            final(self)@ == old(self)@.deleted(id),
            !old(self)@.records.contains_key(id) ==> final(self)@ == old(self)@,
    {
        self.expenses.remove(&id);
        assert(self@.records =~= old(self)@.deleted(id).records);
    }

    /// The stored records with ids from 1 up to the counter, by ascending
    /// id, each a copy. The record with id 0 is never among them, though
    /// `read_expense(0)` finds it.
    pub fn list_expenses(&self) -> (listed: Vec<Expense>)
        requires
            self.wf(),
        ensures
            views(listed@) == self@.listing(),
            forall|i: int, j: int| 0 <= i < j < listed@.len() ==> listed@[i].id < listed@[j].id,
            forall|i: int|
                0 <= i < listed@.len() ==> (#[trigger] listed@[i]).id >= 1 && self@.lookup(
                    listed@[i].id,
                ) == Some(listed@[i]@),
            forall|id: i64|
                id >= 1 && #[trigger] self@.records.contains_key(id) ==> exists|i: int|
                    0 <= i < listed@.len() && (#[trigger] listed@[i])@ == self@.records[id],
    {
        let listed = self.collect_from(1);
        proof {
            lemma_listing_is_exact(self@);
            assert forall|i: int| 0 <= i < listed@.len() implies (#[trigger] listed@[i])@
                == self@.listing()[i] by {
                assert(views(listed@)[i] == listed@[i]@);
            }
        }
        listed
    }

    /// Every stored record, by ascending id, each a copy. Together with
    /// [`next_id`](Self::next_id) this is what [`restore`](Self::restore)
    /// rebuilds the ledger from.
    pub fn records(&self) -> (all: Vec<Expense>)
        requires
            self.wf(),
        ensures
            views(all@) == self@.snapshot(),
            LedgerState::restorable(self@.next_id, views(all@)),
            LedgerState::restored(self@.next_id, views(all@)) == self@,
    {
        proof {
            lemma_snapshot_restores(self@);
        }
        self.collect_from(0)
    }

    /// Copies of the stored records with ids from `first` up to the counter,
    /// by ascending id.
    fn collect_from(&self, first: i64) -> (found: Vec<Expense>)
        ensures
            views(found@) == self@.range(first as int, self@.next_id as int),
    {
        let mut found: Vec<Expense> = Vec::new();
        let mut current_id: i64 = first;
        while current_id < self.next_id
            invariant
                first <= current_id,
                current_id <= self.next_id || current_id == first,
                views(found@) == self@.range(first as int, current_id as int),
            decreases self.next_id - current_id,
        {
            let ghost before = found@;
            match self.expenses.get(&current_id) {
                Some(expense) => {
                    found.push(expense.clone());
                    assert(views(found@) =~= views(before).push(expense@));
                },
                None => {},
            }
            current_id = current_id + 1;
        }
        found
    }
}

} // verus!
