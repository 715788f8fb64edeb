//! A narrower description trait covering only the insert statements;
//! [`crate::sql_describe::SqlDescribe`] is the fuller surface.

use vstd::prelude::*;

verus! {

/// Defines what a single record type looks like in terms of its insert
/// statements.
pub trait Describe {
    /// The name of the table.
    fn table_name() -> &'static str;

    /// An insert statement which requires all fields.
    fn insert() -> &'static str;

    /// An insert statement where all identifier fields are left out.
    fn insert_without_id() -> &'static str;

    /// A statement which inserts the record without its identifier,
    /// returning all its values.
    fn insert_return() -> &'static str;

    /// A statement which inserts the record without its identifier,
    /// returning the identifier.
    fn insert_return_id() -> &'static str;
}

} // verus!
