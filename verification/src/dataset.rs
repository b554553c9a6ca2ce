//! The two access paths of a data set.
//!
//! [`DataSet`] is the runtime reflection path: it resolves a table name, a
//! column name and a requested value kind to a reader over the column's
//! current values, or reports absence. [`HasTable`] is the compile-time
//! path: it grants typed access to one specific table, enough to read the
//! whole table or append a row.
//!
//! Both paths observe the same underlying storage; the data set has one
//! logical owner and no operation blocks or suspends.

use crate::meta::ColumnType;
use crate::meta::Table;
use crate::meta::TableModel;
use crate::meta::lookup_column;
use crate::reader::ReadData;
use crate::value::Value;
use vstd::prelude::*;

verus! {

/// The declared kind and the current values of one column, as spec data.
pub ghost struct ColumnData {
    /// The declared kind of the column.
    pub column_type: ColumnType,
    /// The column's current entries, one per row, in insertion order.
    pub values: Seq<Value>,
}

/// Compares two string slices by contents.
pub(crate) fn str_eq(a: &str, b: &str) -> (r: bool)
    ensures
        r == (a@ == b@),
{
    let owned_a: String = a.to_owned();
    let owned_b: String = b.to_owned();
    owned_a == owned_b
}

/// Implemented by data sets for runtime reflection.
///
/// A data set is a collection of named tables, each usually a `Vec` of one
/// row type. An implementation publishes its schema as metadata and resolves
/// `(table name, column name)` pairs to typed column data.
pub trait DataSet {
    /// The schema: each table's name and columns, in declaration order.
    spec fn schema(&self) -> Seq<TableModel>;

    /// The declared kind and current values of the named column of the
    /// named table, or `None` when the table or the column is unknown.
    spec fn column(&self, table: Seq<char>, column: Seq<char>) -> Option<ColumnData>;

    /// Law: name lookup agrees with the published schema. A pair of names
    /// resolves to column data exactly when the schema declares that column,
    /// and then its kind is the declared one.
    proof fn lemma_column_in_schema(&self, table: Seq<char>, column: Seq<char>)
        ensures
            match self.column(table, column) {
                Some(d) => lookup_column(self.schema(), table, column) == Some(d.column_type),
                None => lookup_column(self.schema(), table, column) is None,
            },
    ;

    /// Law: column data is well-typed. Every value of a column has the
    /// column's declared kind, so a successful read never yields
    /// wrong-typed data.
    proof fn lemma_column_values_typed(&self, table: Seq<char>, column: Seq<char>)
        ensures
            match self.column(table, column) {
                Some(d) => forall|i: int|
                    0 <= i < d.values.len() ==> (#[trigger] d.values[i]).kind() == d.column_type,
                None => true,
            },
    ;

    /// Gets the table descriptions of the data set.
    fn tables(&self) -> (r: Vec<Table>)
        ensures
            r@.map_values(|t: Table| t@) == self.schema(),
    ;

    /// Reads data from a column. The requested kind is the kind the caller
    /// intends to read as. Returns a reader over the column's current
    /// values exactly when both names are known and the column's declared
    /// kind equals the requested one; otherwise reports absence.
    ///
    /// The reader is a snapshot of the rows existing at this call: a later
    /// append to the table does not change what an earlier reader yields.
    fn read(&self, table: &str, column: &str, requested: ColumnType) -> (r: Option<
        ReadData<Value>,
    >)
        ensures
            match self.column(table@, column@) {
                Some(d) => {
                    if requested == d.column_type {
                        r matches Some(reader) && reader@ == d.values
                    } else {
                        r is None
                    }
                },
                None => r is None,
            },
    ;
}

/// Implemented by data sets that have a table of row type `T`, for generic
/// programming over a required set of tables.
pub trait HasTable<T>: DataSet {
    /// The current rows of the table for `T`, in insertion order.
    spec fn table_view(&self) -> Seq<T>;

    /// Get access to the full table: an exclusive handle to the backing
    /// collection, enough to both read and append. The handle is scoped to
    /// exactly this table.
    fn raw_table(&mut self) -> (t: &mut Vec<T>)
        ensures
            t@ == old(self).table_view(),
            final(self).table_view() == final(t)@,
    ;

    /// Gets an immutable view into the table.
    fn get_table(&self) -> (t: &[T])
        ensures
            t@ == self.table_view(),
    ;

    /// Adds a row to the end of the table and returns its row index: the
    /// table's length before the append.
    fn add(&mut self, val: T) -> (idx: usize)
        ensures
            idx == old(self).table_view().len(),
            final(self).table_view() == old(self).table_view().push(val),
    {
        let table: &mut Vec<T> = self.raw_table();
        let idx: usize = table.len();
        table.push(val);
        idx
    }
}

} // verus!
