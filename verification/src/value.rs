//! The tagged value union used by the reflection path.
//!
//! A [`Value`] carries one column entry of any declared kind. The name-based
//! read path yields values of this type, and the kind tag is what the
//! dataset checks against the caller's requested kind.

use crate::meta::ColumnType;
use vstd::prelude::*;

verus! {

/// One value read from a column, tagged with its kind.
#[derive(Debug)]
pub enum Value {
    /// A pointer-sized unsigned integer, also used for row indices.
    Integer(usize),
    /// A text value.
    Text(String),
}

impl Value {
    /// The kind of this value.
    pub open spec fn kind(&self) -> ColumnType {
        match self {
            Value::Integer(_) => ColumnType::Integer,
            Value::Text(_) => ColumnType::Text,
        }
    }
}

impl PartialEq for Value {
    fn eq(&self, other: &Value) -> (r: bool) {
        match (self, other) {
            (Value::Integer(a), Value::Integer(b)) => *a == *b,
            (Value::Text(a), Value::Text(b)) => *a == *b,
            _ => false,
        }
    }
}

impl vstd::std_specs::cmp::PartialEqSpecImpl for Value {
    open spec fn obeys_eq_spec() -> bool {
        true
    }

    open spec fn eq_spec(&self, other: &Value) -> bool {
        match (self, other) {
            (Value::Integer(a), Value::Integer(b)) => a == b,
            (Value::Text(a), Value::Text(b)) => a@ == b@,
            _ => false,
        }
    }
}

} // verus!
