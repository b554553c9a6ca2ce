//! A data set of persons and parent links: two tables owned by one
//! aggregate, with both access paths implemented and verified.
//!
//! This is the wiring that a declarative schema expands to, written by hand:
//! the `Person(first_name: text, last_name: text)` table and the
//! `Parent(parent_id: integer, child_id: integer)` table, where a `Parent`
//! row relates two `Person` rows by their row indices. It implements
//! [`DataSet`] for name-based reads and [`HasTable`] once per table for
//! typed access, and it proves the laws the traits demand.

use crate::dataset::ColumnData;
use crate::dataset::DataSet;
use crate::dataset::HasTable;
use crate::dataset::str_eq;
use crate::meta::Column;
use crate::meta::ColumnModel;
use crate::meta::ColumnType;
use crate::meta::Table;
use crate::meta::TableModel;
use crate::meta::lookup_column;
use crate::meta::lookup_in_columns;
use crate::reader::ReadData;
use crate::value::Value;
use vstd::prelude::*;

verus! {

/// One person: a row of the `Person` table.
#[derive(Debug)]
pub struct Person {
    /// The person's first name.
    pub first_name: String,
    /// The person's last name.
    pub last_name: String,
}

/// One parent link: a row of the `Parent` table. Both fields are row
/// indices into the `Person` table; the library does not validate them.
#[derive(Clone, Copy, Debug, PartialEq, Eq, Structural)]
pub struct Parent {
    /// The row index of the parent person.
    pub parent_id: usize,
    /// The row index of the child person.
    pub child_id: usize,
}

/// An aggregate owning one collection per table. Created with both tables
/// empty; the tables grow only by appends and are never reordered.
#[derive(Debug)]
pub struct Family {
    /// The rows of the `Person` table, in insertion order.
    pub persons: Vec<Person>,
    /// The rows of the `Parent` table, in insertion order.
    pub parents: Vec<Parent>,
}

/// The schema of a [`Family`]: its two tables and their columns.
pub open spec fn family_schema() -> Seq<TableModel> {
    seq![
        TableModel {
            name: "Person"@,
            columns: seq![
                ColumnModel { name: "first_name"@, column_type: ColumnType::Text },
                ColumnModel { name: "last_name"@, column_type: ColumnType::Text },
            ],
        },
        TableModel {
            name: "Parent"@,
            columns: seq![
                ColumnModel { name: "parent_id"@, column_type: ColumnType::Integer },
                ColumnModel { name: "child_id"@, column_type: ColumnType::Integer },
            ],
        },
    ]
}

/// The `Person.first_name` column: one text value per row, in row order.
pub open spec fn first_name_column(rows: Seq<Person>) -> Seq<Value> {
    Seq::new(rows.len(), |i: int| Value::Text(rows[i].first_name))
}

/// The `Person.last_name` column: one text value per row, in row order.
pub open spec fn last_name_column(rows: Seq<Person>) -> Seq<Value> {
    Seq::new(rows.len(), |i: int| Value::Text(rows[i].last_name))
}

/// The `Parent.parent_id` column: one integer value per row, in row order.
pub open spec fn parent_id_column(rows: Seq<Parent>) -> Seq<Value> {
    Seq::new(rows.len(), |i: int| Value::Integer(rows[i].parent_id))
}

/// The `Parent.child_id` column: one integer value per row, in row order.
pub open spec fn child_id_column(rows: Seq<Parent>) -> Seq<Value> {
    Seq::new(rows.len(), |i: int| Value::Integer(rows[i].child_id))
}

/// What one append to the `Person` table does: the new row stands at the
/// end, its index is the table's previous length, and the `Parent` table is
/// untouched.
pub open spec fn person_added(before: Family, row: Person, after: Family, idx: int) -> bool {
    &&& after.persons@ == before.persons@.push(row)
    &&& after.parents@ == before.parents@
    &&& idx == before.persons@.len()
}

/// What one append to the `Parent` table does: the new row stands at the
/// end, its index is the table's previous length, and the `Person` table is
/// untouched.
pub open spec fn parent_added(before: Family, row: Parent, after: Family, idx: int) -> bool {
    &&& after.parents@ == before.parents@.push(row)
    &&& after.persons@ == before.persons@
    &&& idx == before.parents@.len()
}

fn first_name_values(rows: &Vec<Person>) -> (r: Vec<Value>)
    ensures
        r@ == first_name_column(rows@),
{
    let mut r: Vec<Value> = Vec::new();
    let mut i: usize = 0;
    while i < rows.len()
        invariant
            i <= rows@.len(),
            r@.len() == i,
            forall|j: int| 0 <= j < i ==> r@[j] == Value::Text(rows@[j].first_name),
        decreases rows@.len() - i,
    {
        r.push(Value::Text(rows[i].first_name.clone()));
        i = i + 1;
    }
    proof {
        assert(r@ =~= first_name_column(rows@));
    }
    r
}

fn last_name_values(rows: &Vec<Person>) -> (r: Vec<Value>)
    ensures
        r@ == last_name_column(rows@),
{
    let mut r: Vec<Value> = Vec::new();
    let mut i: usize = 0;
    while i < rows.len()
        invariant
            i <= rows@.len(),
            r@.len() == i,
            forall|j: int| 0 <= j < i ==> r@[j] == Value::Text(rows@[j].last_name),
        decreases rows@.len() - i,
    {
        r.push(Value::Text(rows[i].last_name.clone()));
        i = i + 1;
    }
    proof {
        assert(r@ =~= last_name_column(rows@));
    }
    r
}

fn parent_id_values(rows: &Vec<Parent>) -> (r: Vec<Value>)
    ensures
        r@ == parent_id_column(rows@),
{
    let mut r: Vec<Value> = Vec::new();
    let mut i: usize = 0;
    while i < rows.len()
        invariant
            i <= rows@.len(),
            r@.len() == i,
            forall|j: int| 0 <= j < i ==> r@[j] == Value::Integer(rows@[j].parent_id),
        decreases rows@.len() - i,
    {
        r.push(Value::Integer(rows[i].parent_id));
        i = i + 1;
    }
    proof {
        assert(r@ =~= parent_id_column(rows@));
    }
    r
}

fn child_id_values(rows: &Vec<Parent>) -> (r: Vec<Value>)
    ensures
        r@ == child_id_column(rows@),
{
    let mut r: Vec<Value> = Vec::new();
    let mut i: usize = 0;
    while i < rows.len()
        invariant
            i <= rows@.len(),
            r@.len() == i,
            forall|j: int| 0 <= j < i ==> r@[j] == Value::Integer(rows@[j].child_id),
        decreases rows@.len() - i,
    {
        r.push(Value::Integer(rows[i].child_id));
        i = i + 1;
    }
    proof {
        assert(r@ =~= child_id_column(rows@));
    }
    r
}

impl Family {
    /// Creates a family with both tables empty.
    pub fn new() -> (r: Family)
        ensures
            r.persons@ == Seq::<Person>::empty(),
            r.parents@ == Seq::<Parent>::empty(),
    {
        Family { persons: Vec::new(), parents: Vec::new() }
    }

    /// Exclusive handles to both tables at the same time. The two handles
    /// borrow disjoint fields, so each table can be read and appended to
    /// independently while both are held.
    pub fn split_tables(&mut self) -> ((persons, parents): (&mut Vec<Person>, &mut Vec<Parent>))
        ensures
            persons@ == old(self).persons@,
            parents@ == old(self).parents@,
            final(self).persons@ == final(persons)@,
            final(self).parents@ == final(parents)@,
    {
        (&mut self.persons, &mut self.parents)
    }
}

impl DataSet for Family {
    open spec fn schema(&self) -> Seq<TableModel> {
        family_schema()
    }

    open spec fn column(&self, table: Seq<char>, column: Seq<char>) -> Option<ColumnData> {
        if table == "Person"@ {
            if column == "first_name"@ {
                Some(
                    ColumnData {
                        column_type: ColumnType::Text,
                        values: first_name_column(self.persons@),
                    },
                )
            } else if column == "last_name"@ {
                Some(
                    ColumnData {
                        column_type: ColumnType::Text,
                        values: last_name_column(self.persons@),
                    },
                )
            } else {
                None
            }
        } else if table == "Parent"@ {
            if column == "parent_id"@ {
                Some(
                    ColumnData {
                        column_type: ColumnType::Integer,
                        values: parent_id_column(self.parents@),
                    },
                )
            } else if column == "child_id"@ {
                Some(
                    ColumnData {
                        column_type: ColumnType::Integer,
                        values: child_id_column(self.parents@),
                    },
                )
            } else {
                None
            }
        } else {
            None
        }
    }

    proof fn lemma_column_in_schema(&self, table: Seq<char>, column: Seq<char>) {
        reveal_with_fuel(lookup_column, 4);
        reveal_with_fuel(lookup_in_columns, 4);
    }

    proof fn lemma_column_values_typed(&self, table: Seq<char>, column: Seq<char>) {
    }

    fn tables(&self) -> (r: Vec<Table>) {
        let mut person_columns: Vec<Column> = Vec::new();
        person_columns.push(Column { name: "first_name".to_owned(), column_type: ColumnType::Text });
        person_columns.push(Column { name: "last_name".to_owned(), column_type: ColumnType::Text });
        let mut parent_columns: Vec<Column> = Vec::new();
        parent_columns.push(
            Column { name: "parent_id".to_owned(), column_type: ColumnType::Integer },
        );
        parent_columns.push(
            Column { name: "child_id".to_owned(), column_type: ColumnType::Integer },
        );
        let mut r: Vec<Table> = Vec::new();
        r.push(Table { name: "Person".to_owned(), columns: person_columns });
        r.push(Table { name: "Parent".to_owned(), columns: parent_columns });
        proof {
            assert(r@.map_values(|t: Table| t@) =~~= family_schema());
        }
        r
    }

    fn read(&self, table: &str, column: &str, requested: ColumnType) -> (r: Option<
        ReadData<Value>,
    >) {
        if str_eq(table, "Person") {
            if str_eq(column, "first_name") {
                if requested == ColumnType::Text {
                    Some(ReadData::new(first_name_values(&self.persons)))
                } else {
                    None
                }
            } else if str_eq(column, "last_name") {
                if requested == ColumnType::Text {
                    Some(ReadData::new(last_name_values(&self.persons)))
                } else {
                    None
                }
            } else {
                None
            }
        } else if str_eq(table, "Parent") {
            if str_eq(column, "parent_id") {
                if requested == ColumnType::Integer {
                    Some(ReadData::new(parent_id_values(&self.parents)))
                } else {
                    None
                }
            } else if str_eq(column, "child_id") {
                if requested == ColumnType::Integer {
                    Some(ReadData::new(child_id_values(&self.parents)))
                } else {
                    None
                }
            } else {
                None
            }
        } else {
            None
        }
    }
}

impl HasTable<Person> for Family {
    open spec fn table_view(&self) -> Seq<Person> {
        self.persons@
    }

    fn raw_table(&mut self) -> (t: &mut Vec<Person>) {
        &mut self.persons
    }

    fn get_table(&self) -> (t: &[Person]) {
        self.persons.as_slice()
    }

    fn add(&mut self, val: Person) -> (idx: usize)
        ensures
            person_added(*old(self), val, *final(self), idx as int),
    {
        let idx: usize = self.persons.len();
        self.persons.push(val);
        idx
    }
}

impl HasTable<Parent> for Family {
    open spec fn table_view(&self) -> Seq<Parent> {
        self.parents@
    }

    fn raw_table(&mut self) -> (t: &mut Vec<Parent>) {
        &mut self.parents
    }

    fn get_table(&self) -> (t: &[Parent]) {
        self.parents.as_slice()
    }

    fn add(&mut self, val: Parent) -> (idx: usize)
        ensures
            parent_added(*old(self), val, *final(self), idx as int),
    {
        let idx: usize = self.parents.len();
        self.parents.push(val);
        idx
    }
}

/// Law: a successful column read is one value per row. For each defined
/// column, the column data has exactly one entry per row of the owning
/// table, and the entry at each index is that row's own field value, so
/// consuming a reader in order reproduces the stored fields in insertion
/// order.
pub proof fn lemma_read_reproduces_rows(f: Family)
    ensures
        f.column("Person"@, "first_name"@) matches Some(d) && d.values.len() == f.persons@.len()
            && (forall|i: int|
            0 <= i < f.persons@.len() ==> #[trigger] d.values[i] == Value::Text(
                f.persons@[i].first_name,
            )),
        f.column("Person"@, "last_name"@) matches Some(d) && d.values.len() == f.persons@.len()
            && (forall|i: int|
            0 <= i < f.persons@.len() ==> #[trigger] d.values[i] == Value::Text(
                f.persons@[i].last_name,
            )),
        f.column("Parent"@, "parent_id"@) matches Some(d) && d.values.len() == f.parents@.len()
            && (forall|i: int|
            0 <= i < f.parents@.len() ==> #[trigger] d.values[i] == Value::Integer(
                f.parents@[i].parent_id,
            )),
        f.column("Parent"@, "child_id"@) matches Some(d) && d.values.len() == f.parents@.len()
            && (forall|i: int|
            0 <= i < f.parents@.len() ==> #[trigger] d.values[i] == Value::Integer(
                f.parents@[i].child_id,
            )),
{
    reveal_strlit("Person");
    reveal_strlit("Parent");
    reveal_strlit("first_name");
    reveal_strlit("last_name");
    reveal_strlit("parent_id");
    reveal_strlit("child_id");
    assert("Person"@[1] == 'e' && "Parent"@[1] == 'a');
    assert("Person"@ != "Parent"@);
    assert("first_name"@.len() == 10 && "last_name"@.len() == 9);
    assert("first_name"@ != "last_name"@);
    assert("parent_id"@.len() == 9 && "child_id"@.len() == 8);
    assert("parent_id"@ != "child_id"@);
}

/// Law: appends to the two distinct tables of one aggregate are
/// independent. Whichever order a person append and a parent append happen
/// in, each append returns the same row index — the length its own table
/// had before either append — and the aggregate ends in the same state.
pub proof fn lemma_appends_independent(
    f0: Family,
    f1: Family,
    f2: Family,
    g1: Family,
    g2: Family,
    p: Person,
    q: Parent,
    person_idx_first: int,
    parent_idx_second: int,
    parent_idx_first: int,
    person_idx_second: int,
)
    requires
        person_added(f0, p, f1, person_idx_first),
        parent_added(f1, q, f2, parent_idx_second),
        parent_added(f0, q, g1, parent_idx_first),
        person_added(g1, p, g2, person_idx_second),
    ensures
        person_idx_first == person_idx_second,
        parent_idx_first == parent_idx_second,
        person_idx_first == f0.persons@.len(),
        parent_idx_second == f0.parents@.len(),
        f2.persons@ == g2.persons@,
        f2.parents@ == g2.parents@,
{
}

} // verus!
