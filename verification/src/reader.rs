//! The column reader: a lazy, finite, forward-only view over one column's
//! values across a table's rows.
//!
//! A reader is a snapshot: it holds the column entries that existed when it
//! was created, in insertion order, and a later mutation of the table does
//! not affect it. Every access checks the remaining count first, so an empty
//! reader yields nothing, no matter how often it is consumed.

use vstd::prelude::*;

verus! {

/// A way of reading the remaining values of one column, left to right.
///
/// This is used for reflection when the row types of the data set are
/// unknown: the name-based read path hands out a `ReadData` over the tagged
/// [`crate::value::Value`] union. Its view is the sequence of values not yet
/// consumed.
pub struct ReadData<T> {
    values: Vec<T>,
}

impl<T> View for ReadData<T> {
    type V = Seq<T>;

    closed spec fn view(&self) -> Seq<T> {
        self.values@
    }
}

impl<T> ReadData<T> {
    /// Creates a reader over the given column entries, in order.
    pub fn new(values: Vec<T>) -> (r: ReadData<T>)
        ensures
            r@ == values@,
    {
        ReadData { values }
    }

    /// The number of items left.
    pub fn len(&self) -> (n: usize)
        ensures
            n == self@.len(),
    {
        self.values.len()
    }

    /// Gets the value at an index among the remaining items, without
    /// consuming anything: `None` exactly when the index is out of bounds.
    pub fn get(&self, index: usize) -> (r: Option<&T>)
        ensures
            match r {
                Some(v) => index < self@.len() && *v == self@[index as int],
                None => index >= self@.len(),
            },
    {
        if index < self.values.len() {
            Some(&self.values[index])
        } else {
            None
        }
    }

    /// Consumes the reader and returns all remaining values, in order.
    pub fn into_vec(self) -> (r: Vec<T>)
        ensures
            r@ == self@,
    {
        self.values
    }

    /// Yields the first remaining value and steps past it, or `None` once
    /// the reader is exhausted. An exhausted reader stays exhausted: further
    /// calls return `None` and leave it unchanged.
    pub fn next(&mut self) -> (r: Option<T>)
        ensures
            match r {
                Some(v) => old(self)@.len() > 0 && v == old(self)@[0] && final(self)@ == old(
                    self,
                )@.skip(1),
                None => old(self)@.len() == 0 && final(self)@ == old(self)@,
            },
    {
        if self.values.len() == 0 {
            None
        } else {
            let v = self.values.remove(0);
            proof {
                assert(self.values@ =~= old(self).values@.skip(1));
            }
            Some(v)
        }
    }
}

} // verus!
