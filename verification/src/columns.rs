//! Typed markers for the store columns that filterable queries bind.

use vstd::prelude::*;

verus! {

/// A marker naming one column of one table.
pub trait ColumnInfo {
    fn column_name(&self) -> &'static str;
}

} // verus!
