//! A stored expense and its mathematical view.

use vstd::prelude::*;

use crate::category::Category;

verus! {

/// What the caller supplies of an expense: every field but the id.
///
/// Text is taken as the sequence of its characters. No field is validated.
#[verifier::ext_equal]
pub struct Details {
    pub title: Seq<char>,
    pub description: Seq<char>,
    /// The amount, in the smallest unit of the currency.
    pub amount: u64,
    pub date: Seq<char>,
    pub category: Category,
}

/// What an [`Expense`] stands for in specifications.
#[verifier::ext_equal]
pub struct ExpenseView {
    pub id: i64,
    pub title: Seq<char>,
    pub description: Seq<char>,
    pub amount: u64,
    pub date: Seq<char>,
    pub category: Category,
}

impl Details {
    /// `Details` made of the five fields.
    pub open spec fn of(
        title: Seq<char>,
        description: Seq<char>,
        amount: u64,
        date: Seq<char>,
        category: Category,
    ) -> Details {
        Details { title, description, amount, date, category }
    }

    /// The record that holds these details under `id`.
    pub open spec fn with_id(self, id: i64) -> ExpenseView {
        ExpenseView {
            id,
            title: self.title,
            description: self.description,
            amount: self.amount,
            date: self.date,
            category: self.category,
        }
    }
}

impl ExpenseView {
    /// The record without its id.
    pub open spec fn details(self) -> Details {
        Details {
            title: self.title,
            description: self.description,
            amount: self.amount,
            date: self.date,
            category: self.category,
        }
    }
}

/// One expense as the ledger hands it out.
///
/// The ledger assigns `id`; the other fields are the caller's.
#[derive(Debug, PartialEq, Eq)]
pub struct Expense {
    pub id: i64,
    pub title: String,
    pub description: String,
    /// The amount, in the smallest unit of the currency.
    pub amount: u64,
    pub date: String,
    pub category: Category,
}

impl View for Expense {
    type V = ExpenseView;

    open spec fn view(&self) -> ExpenseView {
        ExpenseView {
            id: self.id,
            title: self.title@,
            description: self.description@,
            amount: self.amount,
            date: self.date@,
            category: self.category,
        }
    }
}

impl Clone for Expense {
    fn clone(&self) -> (copy: Expense)
        ensures
            copy == *self,
    {
        Expense {
            id: self.id,
            title: self.title.clone(),
            description: self.description.clone(),
            amount: self.amount,
            date: self.date.clone(),
            category: self.category,
        }
    }
}

/// The views of a sequence of expenses, in the same order.
pub open spec fn views(expenses: Seq<Expense>) -> Seq<ExpenseView> {
    Seq::new(expenses.len(), |i: int| expenses[i]@)
}

} // verus!
