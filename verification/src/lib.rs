//! Synthesis of parameterized SQL statements from a declarative description
//! of a record type, together with a lazily opened transaction wrapper.
//!
//! The statement builder turns a table name and an ordered list of fields
//! (each with its attributes) into canonical `INSERT`, `SELECT`, `UPDATE` and
//! `DELETE` statement strings with `$n`-style positional placeholders. The
//! descriptor assembly applies the builder once per record type, partitioning
//! the fields by primary key. The transaction wrapper tracks whether a
//! transaction has been opened and guarantees a single, well-defined commit
//! path; the actual database I/O is performed by the caller.

pub mod attribute;
pub mod describe;
pub mod field;
pub mod maybe_transaction;
pub mod query_builder;
pub mod sample;
pub mod sql_describe;
pub mod statements;
pub mod text;
