//! A ledger of expense records keyed by ids that the ledger itself mints.
//!
//! [`ExpenseTracker`] owns the id counter and the id-to-record map and offers
//! create, read, update, delete and list. Every operation is specified against
//! [`LedgerState`], the mathematical state of a ledger, and verified; what
//! holds of every ledger is proved in [`laws`].
//!
//! The ledger keeps its records in memory. A host that has to keep a ledger
//! beyond one call stores what [`ExpenseTracker::next_id`] and
//! [`ExpenseTracker::records`] hand out, and rebuilds the ledger from them with
//! [`ExpenseTracker::restore`].

pub mod category;
pub mod expense;
pub mod laws;
pub mod state;
pub mod tracker;

pub use category::Category;
pub use expense::{Details, Expense, ExpenseView};
pub use state::LedgerState;
pub use tracker::ExpenseTracker;
