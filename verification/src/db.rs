//! Names of the two tables of the record store.

use vstd::prelude::*;

verus! {

/// A table of the backing record store: one for authenticatable entities,
/// one for tasks.
#[derive(Clone, Copy, Debug, PartialEq, Eq, Structural)]
pub enum Table {
    IAM,
    TASKER,
}

/// The table's name inside the record store.
pub open spec fn table_name(t: Table) -> Seq<char> {
    match t {
        Table::IAM => "NYS_iam"@,
        Table::TASKER => "NYS_tasker"@,
    }
}

impl Table {
    /// The table's name, as the record store knows it.
    pub fn as_str(&self) -> (r: &'static str)
        ensures
            r@ == table_name(*self),
    {
        match self {
            Table::IAM => "NYS_iam",
            Table::TASKER => "NYS_tasker",
        }
    }
}

} // verus!
