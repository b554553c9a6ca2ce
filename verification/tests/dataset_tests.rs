use dataset::ColumnType;
use dataset::DataSet;
use dataset::Family;
use dataset::HasTable;
use dataset::Parent;
use dataset::Person;
use dataset::Value;

fn person(first: &str, last: &str) -> Person {
    Person {
        first_name: first.to_string(),
        last_name: last.to_string(),
    }
}

#[test]
fn reader_has_one_entry_per_row_in_insertion_order() {
    let mut family = Family::new();
    family.add(person("Homer", "Simpson"));
    family.add(person("Marge", "Simpson"));
    family.add(person("Bart", "Simpson"));

    let mut reader = family
        .read("Person", "first_name", ColumnType::Text)
        .unwrap();
    assert_eq!(reader.len(), 3);
    assert_eq!(reader.next(), Some(Value::Text("Homer".to_string())));
    assert_eq!(reader.next(), Some(Value::Text("Marge".to_string())));
    assert_eq!(reader.next(), Some(Value::Text("Bart".to_string())));
    assert_eq!(reader.next(), None);
}

#[test]
fn type_mismatch_yields_absence_for_every_column() {
    let mut family = Family::new();
    family.add(person("Homer", "Simpson"));
    family.add(Parent {
        parent_id: 0,
        child_id: 0,
    });

    assert!(family
        .read("Person", "first_name", ColumnType::Integer)
        .is_none());
    assert!(family
        .read("Person", "last_name", ColumnType::Integer)
        .is_none());
    assert!(family
        .read("Parent", "parent_id", ColumnType::Text)
        .is_none());
    assert!(family
        .read("Parent", "child_id", ColumnType::Text)
        .is_none());
}

#[test]
fn unknown_names_yield_absence() {
    let mut family = Family::new();
    family.add(person("Homer", "Simpson"));

    assert!(family
        .read("Animal", "first_name", ColumnType::Text)
        .is_none());
    assert!(family
        .read("Person", "middle_name", ColumnType::Text)
        .is_none());
    assert!(family.read("Parent", "name", ColumnType::Integer).is_none());
    assert!(family.read("", "", ColumnType::Text).is_none());
}

#[test]
fn empty_table_reader_is_empty_however_often_consumed() {
    let family = Family::new();

    let mut reader = family
        .read("Person", "last_name", ColumnType::Text)
        .unwrap();
    assert_eq!(reader.len(), 0);
    assert_eq!(reader.next(), None);
    assert_eq!(reader.next(), None);
    assert_eq!(reader.next(), None);
    assert_eq!(reader.len(), 0);
    assert!(reader.get(0).is_none());
}

#[test]
fn add_returns_previous_length_and_appends() {
    let mut family = Family::new();
    assert_eq!(family.add(person("Homer", "Simpson")), 0);
    assert_eq!(family.add(person("Marge", "Simpson")), 1);
    assert_eq!(family.add(person("Bart", "Simpson")), 2);

    let persons: &[Person] = family.get_table();
    assert_eq!(persons.len(), 3);
    assert_eq!(persons[2].first_name, "Bart");
    assert_eq!(persons[2].last_name, "Simpson");
}

#[test]
fn appends_to_distinct_tables_are_independent() {
    let mut family = Family::new();
    assert_eq!(family.add(person("Homer", "Simpson")), 0);
    assert_eq!(
        family.add(Parent {
            parent_id: 0,
            child_id: 0,
        }),
        0
    );
    assert_eq!(family.add(person("Marge", "Simpson")), 1);
    assert_eq!(
        family.add(Parent {
            parent_id: 1,
            child_id: 0,
        }),
        1
    );

    let persons: &[Person] = family.get_table();
    let parents: &[Parent] = family.get_table();
    assert_eq!(persons.len(), 2);
    assert_eq!(parents.len(), 2);
}

#[test]
fn split_gives_two_independent_capability_handles() {
    let mut family = Family::new();
    family.add(person("Homer", "Simpson"));

    {
        let (persons, parents) = family.split_tables();
        persons.push(person("Marge", "Simpson"));
        parents.push(Parent {
            parent_id: 0,
            child_id: 1,
        });
        assert_eq!(persons.len(), 2);
        assert_eq!(parents.len(), 1);
    }

    let persons: &[Person] = family.get_table();
    let parents: &[Parent] = family.get_table();
    assert_eq!(persons.len(), 2);
    assert_eq!(parents.len(), 1);
    assert_eq!(parents[0], Parent {
        parent_id: 0,
        child_id: 1,
    });
}

#[test]
fn get_reads_by_index_without_consuming() {
    let mut family = Family::new();
    family.add(Parent {
        parent_id: 4,
        child_id: 7,
    });
    family.add(Parent {
        parent_id: 5,
        child_id: 8,
    });

    let mut reader = family
        .read("Parent", "child_id", ColumnType::Integer)
        .unwrap();
    assert_eq!(reader.get(0), Some(&Value::Integer(7)));
    assert_eq!(reader.get(1), Some(&Value::Integer(8)));
    assert_eq!(reader.get(2), None);
    assert_eq!(reader.len(), 2);

    assert_eq!(reader.next(), Some(Value::Integer(7)));
    assert_eq!(reader.get(0), Some(&Value::Integer(8)));
    assert_eq!(reader.get(1), None);
    assert_eq!(reader.len(), 1);
}

#[test]
fn tables_lists_the_schema() {
    let family = Family::new();
    let tables = family.tables();
    assert_eq!(tables.len(), 2);

    assert_eq!(tables[0].name, "Person");
    assert_eq!(tables[0].columns.len(), 2);
    assert_eq!(tables[0].columns[0].name, "first_name");
    assert_eq!(tables[0].columns[0].column_type, ColumnType::Text);
    assert_eq!(tables[0].columns[1].name, "last_name");
    assert_eq!(tables[0].columns[1].column_type, ColumnType::Text);

    assert_eq!(tables[1].name, "Parent");
    assert_eq!(tables[1].columns.len(), 2);
    assert_eq!(tables[1].columns[0].name, "parent_id");
    assert_eq!(tables[1].columns[0].column_type, ColumnType::Integer);
    assert_eq!(tables[1].columns[1].name, "child_id");
    assert_eq!(tables[1].columns[1].column_type, ColumnType::Integer);
}

#[test]
fn the_simpsons_end_to_end() {
    let mut family = Family::new();

    let homer = family.add(person("Homer", "Simpson"));
    let marge = family.add(person("Marge", "Simpson"));
    let bart = family.add(person("Bart", "Simpson"));
    let lisa = family.add(person("Lisa", "Simpson"));
    let maggie = family.add(person("Maggie", "Simpson"));
    assert_eq!(
        (homer, marge, bart, lisa, maggie),
        (0, 1, 2, 3, 4)
    );

    for &parent_id in &[homer, marge] {
        for &child_id in &[bart, lisa, maggie] {
            family.add(Parent {
                parent_id,
                child_id,
            });
        }
    }

    let mut parent_ids = family
        .read("Parent", "parent_id", ColumnType::Integer)
        .unwrap();
    assert_eq!(parent_ids.len(), 6);
    for expected in [0, 0, 0, 1, 1, 1] {
        assert_eq!(parent_ids.next(), Some(Value::Integer(expected)));
    }
    assert_eq!(parent_ids.next(), None);

    let mut last_names = family
        .read("Person", "last_name", ColumnType::Text)
        .unwrap();
    assert_eq!(last_names.len(), 5);
    for _ in 0..5 {
        assert_eq!(last_names.next(), Some(Value::Text("Simpson".to_string())));
    }
    assert_eq!(last_names.next(), None);

    assert!(family
        .read("Person", "first_name", ColumnType::Integer)
        .is_none());
}

#[test]
fn into_vec_returns_the_remaining_values_in_order() {
    let mut family = Family::new();
    family.add(Parent {
        parent_id: 1,
        child_id: 2,
    });
    family.add(Parent {
        parent_id: 3,
        child_id: 4,
    });

    let mut reader = family
        .read("Parent", "parent_id", ColumnType::Integer)
        .unwrap();
    assert_eq!(reader.next(), Some(Value::Integer(1)));
    assert_eq!(reader.into_vec(), vec![Value::Integer(3)]);

    let child_ids = family
        .read("Parent", "child_id", ColumnType::Integer)
        .unwrap();
    assert_eq!(
        child_ids.into_vec(),
        vec![Value::Integer(2), Value::Integer(4)]
    );
}

#[test]
fn reading_is_side_effect_free() {
    let mut family = Family::new();
    family.add(person("Homer", "Simpson"));

    let first = family
        .read("Person", "first_name", ColumnType::Text)
        .unwrap();
    assert_eq!(first.len(), 1);

    let again = family
        .read("Person", "first_name", ColumnType::Text)
        .unwrap();
    assert_eq!(again.len(), 1);

    let persons: &[Person] = family.get_table();
    assert_eq!(persons.len(), 1);
    assert_eq!(persons[0].first_name, "Homer");
}
