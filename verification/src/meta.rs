//! Table and column metadata: static descriptors naming each table, its
//! columns, and each column's declared value kind.
//!
//! Metadata is pure, read-only data. Lookups against it either find a match
//! or they do not; there is no failure beyond absence.

use vstd::prelude::*;

verus! {

/// The declared kind of the values stored in a column.
#[derive(Clone, Copy, Debug, PartialEq, Eq, Structural)]
pub enum ColumnType {
    /// A pointer-sized unsigned integer, also used for row indices.
    Integer,
    /// A text value.
    Text,
}

/// Describes one column: its name and its declared value kind.
#[derive(Debug)]
pub struct Column {
    /// The name of the column.
    pub name: String,
    /// The declared kind of the column's values.
    pub column_type: ColumnType,
}

/// Describes one table: its name and its columns, in declaration order.
#[derive(Debug)]
pub struct Table {
    /// The name of the table.
    pub name: String,
    /// The columns of the table.
    pub columns: Vec<Column>,
}

/// The mathematical model of a [`Column`] descriptor.
#[verifier::ext_equal]
pub ghost struct ColumnModel {
    /// The name of the column.
    pub name: Seq<char>,
    /// The declared kind of the column's values.
    pub column_type: ColumnType,
}

/// The mathematical model of a [`Table`] descriptor.
#[verifier::ext_equal]
pub ghost struct TableModel {
    /// The name of the table.
    pub name: Seq<char>,
    /// The columns of the table.
    pub columns: Seq<ColumnModel>,
}

impl View for Column {
    type V = ColumnModel;

    open spec fn view(&self) -> ColumnModel {
        ColumnModel { name: self.name@, column_type: self.column_type }
    }
}

impl View for Table {
    type V = TableModel;

    open spec fn view(&self) -> TableModel {
        TableModel {
            name: self.name@,
            columns: self.columns@.map_values(|c: Column| c@),
        }
    }
}

/// The declared kind of the named column within one table's columns, or
/// `None` when no column of that name is declared.
pub open spec fn lookup_in_columns(columns: Seq<ColumnModel>, column: Seq<char>) -> Option<
    ColumnType,
>
    decreases columns.len(),
{
    if columns.len() == 0 {
        None
    } else if columns[0].name == column {
        Some(columns[0].column_type)
    } else {
        lookup_in_columns(columns.skip(1), column)
    }
}

/// The declared kind of the named column of the named table in a schema, or
/// `None` when the table or the column is unknown.
pub open spec fn lookup_column(
    schema: Seq<TableModel>,
    table: Seq<char>,
    column: Seq<char>,
) -> Option<ColumnType>
    decreases schema.len(),
{
    if schema.len() == 0 {
        None
    } else if schema[0].name == table {
        lookup_in_columns(schema[0].columns, column)
    } else {
        lookup_column(schema.skip(1), table, column)
    }
}

} // verus!
