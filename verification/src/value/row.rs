//! One row of values.

use crate::de::datadeal::Value;
use crate::de::datadeal::ValueView;
use vstd::prelude::*;

verus! {

/// The values of some values, as contracts speak of them.
pub open spec fn views(values: Seq<Value>) -> Seq<ValueView> {
    values.map_values(|value: Value| value@)
}

/// What a row of values can be built from and asked.
pub trait Row: Sized {
    /// The values of this row.
    spec fn values(&self) -> Seq<ValueView>;

    /// Construct row by columns name
    fn new(row: &[Value]) -> (made: Self)
        ensures
            made.values() == views(row@),
    ;

    /// Construct row by vec of column name
    fn from_vec(row: Vec<Value>) -> (made: Self)
        ensures
            made.values() == views(row@),
    ;

    /// Get row length
    fn len(&self) -> (len: usize)
        ensures
            len == self.values().len(),
    ;
}

/// One row: the values of its columns, in order.
#[derive(Debug)]
pub struct Values {
    pub values: Vec<Value>,
}

impl Row for Values {
    open spec fn values(&self) -> Seq<ValueView> {
        views(self.values@)
    }

    fn new(row: &[Value]) -> (made: Self) {
        let mut values: Vec<Value> = Vec::new();
        let mut index: usize = 0;
        assert(views(values@) =~= views(row@).take(0));
        while index < row.len()
            invariant
                index <= row@.len(),
                views(values@) == views(row@).take(index as int),
            decreases row@.len() - index,
        {
            let ghost before = views(values@);
            values.push(row[index].copy());
            index += 1;
            assert(views(values@) =~= before.push(row@[index - 1]@));
            assert(views(values@) =~= views(row@).take(index as int));
        }
        assert(views(row@).take(index as int) =~= views(row@));
        Values { values }
    }

    fn from_vec(row: Vec<Value>) -> (made: Self) {
        Values { values: row }
    }

    fn len(&self) -> (len: usize) {
        self.values.len()
    }
}

} // verus!
