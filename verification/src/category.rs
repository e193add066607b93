//! The closed set of expense classifications.

use vstd::prelude::*;

verus! {

/// What an expense was spent on.
#[derive(Debug, Clone, Copy, PartialEq, Eq, Structural)]
pub enum Category {
    /// Food.
    Alimentacao,
    /// Transport.
    Transporte,
    /// Leisure.
    Lazer,
    /// Health.
    Saude,
    /// Education.
    Educacao,
    /// Bills.
    Cobrancas,
    /// Anything else; the category of an expense that names none.
    Outros,
}

impl Default for Category {
    fn default() -> (category: Category)
        ensures
            category == Category::Outros,
    {
        Category::Outros
    }
}

} // verus!
