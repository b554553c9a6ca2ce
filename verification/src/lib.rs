//! An in-memory data set library.
//!
//! A data set is a collection of named tables, very similar to a database.
//! A row in a table is a normal Rust struct, and a column is a named, typed
//! projection of one field across all rows of its table.
//!
//! The library serves two purposes:
//!
//! 1. Runtime reflection of data without knowing the concrete row types:
//!    the [`DataSet`] trait resolves a table name, a column name and a
//!    requested value kind to a [`ReadData`] reader over the column's
//!    current values.
//! 2. Generic programming that requires a specific set of tables: the
//!    [`HasTable`] trait grants compile-time-typed access to one named
//!    table, enough to read the whole table or append a row.
//!
//! Because a table's backing storage may be reallocated as it grows, rows
//! point to rows of other tables by plain `usize` indices. The semantics of
//! such references is open and is handled entirely by the application.
//!
//! A table's row type must be unique within a data set: there cannot be two
//! tables with the same row type, since typed access routes by row type.

pub mod dataset;
pub mod family;
pub mod meta;
pub mod reader;
pub mod value;

pub use dataset::DataSet;
pub use dataset::HasTable;
pub use family::Family;
pub use family::Parent;
pub use family::Person;
pub use meta::Column;
pub use meta::ColumnType;
pub use meta::Table;
pub use reader::ReadData;
pub use value::Value;
