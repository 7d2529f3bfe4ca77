//! A set of rows under the names of their columns.

use crate::de::datadeal::ValueView;
use crate::value::row::Row;
use crate::value::row::Values;
use vstd::prelude::*;
use vstd::slice::slice_to_vec;
use vstd::utf8::encode_utf8;

verus! {

/// The bytes of each of some names.
pub open spec fn name_bytes(names: Seq<String>) -> Seq<Seq<u8>> {
    names.map_values(|name: String| encode_utf8(name@))
}

/// The bytes of each of some names.
pub open spec fn bytes_of_names(names: Seq<Vec<u8>>) -> Seq<Seq<u8>> {
    names.map_values(|name: Vec<u8>| name@)
}

/// The values of each of some rows.
pub open spec fn rows_of(rows: Seq<Values>) -> Seq<Seq<ValueView>> {
    rows.map_values(|row: Values| row.values())
}

/// What a set of rows can be built from and asked.
pub trait DataSet: Sized {
    /// The names of the columns, as bytes.
    spec fn columns(&self) -> Seq<Seq<u8>>;

    /// The rows, each as its values.
    spec fn rows(&self) -> Seq<Seq<ValueView>>;

    /// Construct data set with name of columns
    fn new(col_names: &[String]) -> (made: Self)
        ensures
            made.columns() == name_bytes(col_names@),
            made.rows().len() == 0,
    ;

    /// Construct data set from vec of columns name
    fn from_columns_name(col_names: Vec<String>) -> (made: Self)
        ensures
            made.columns() == name_bytes(col_names@),
            made.rows().len() == 0,
    ;

    /// push one row into back of data set
    fn push(&mut self, row: Values)
        ensures
            final(self).columns() == old(self).columns(),
            final(self).rows() == old(self).rows().push(row.values()),
    ;

    /// Get rows size
    fn len(&self) -> (len: usize)
        ensures
            len == self.rows().len(),
    ;

    /// Get count of columns
    fn cols_len(&self) -> (len: usize)
        ensures
            len == self.columns().len(),
    ;
}

/// A set of rows: the names of the columns and the rows in order.
#[derive(Debug)]
pub struct ValueSet {
    pub column_names: Vec<Vec<u8>>,
    pub rows: Vec<Values>,
}

impl DataSet for ValueSet {
    open spec fn columns(&self) -> Seq<Seq<u8>> {
        bytes_of_names(self.column_names@)
    }

    open spec fn rows(&self) -> Seq<Seq<ValueView>> {
        rows_of(self.rows@)
    }

    fn new(col_names: &[String]) -> (made: Self) {
        let mut column_names: Vec<Vec<u8>> = Vec::new();
        let mut index: usize = 0;
        assert(bytes_of_names(column_names@) =~= name_bytes(col_names@).take(0));
        while index < col_names.len()
            invariant
                index <= col_names@.len(),
                bytes_of_names(column_names@) == name_bytes(col_names@).take(index as int),
            decreases col_names@.len() - index,
        {
            let ghost before = bytes_of_names(column_names@);
            column_names.push(slice_to_vec(col_names[index].as_str().as_bytes()));
            index += 1;
            assert(bytes_of_names(column_names@) =~= before.push(
                encode_utf8(col_names@[index - 1]@),
            ));
            assert(bytes_of_names(column_names@) =~= name_bytes(col_names@).take(index as int));
        }
        assert(name_bytes(col_names@).take(index as int) =~= name_bytes(col_names@));
        ValueSet { column_names, rows: Vec::new() }
    }

    fn from_columns_name(col_names: Vec<String>) -> (made: Self) {
        Self::new(col_names.as_slice())
    }

    fn push(&mut self, row: Values) {
        let ghost before = rows_of(self.rows@);
        self.rows.push(row);
        assert(rows_of(self.rows@) =~= before.push(row.values()));
    }

    fn len(&self) -> (len: usize) {
        self.rows.len()
    }

    fn cols_len(&self) -> (len: usize) {
        self.column_names.len()
    }
}

} // verus!
