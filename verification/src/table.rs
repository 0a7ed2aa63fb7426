//! Tables: rows that are all there at once, and reading them one by one.

use crate::data::{ColumnType, Row};
use crate::errors::{CrushError, CrushResult};
use crate::schema::{check_row, conforms, violation};
use crate::stream::Readable;
use vstd::prelude::*;

verus! {

/// Every row of `rows` conforms to `schema`.
pub open spec fn all_conform(rows: Seq<Row>, schema: Seq<ColumnType>) -> bool {
    forall|i: int| 0 <= i < rows.len() ==> conforms(#[trigger] rows[i]@, schema)
}

/// Row `i` is the first of `rows` that does not conform to `schema`.
pub open spec fn first_bad_row(rows: Seq<Row>, schema: Seq<ColumnType>, i: int) -> bool {
    &&& 0 <= i < rows.len()
    &&& !conforms(rows[i]@, schema)
    &&& all_conform(rows.take(i), schema)
}

/// A table: a finite collection of rows together with the schema that each
/// of them conforms to. Its view is the rows.
pub struct Rows {
    types: Vec<ColumnType>,
    rows: Vec<Row>,
}

impl View for Rows {
    type V = Seq<Row>;

    closed spec fn view(&self) -> Seq<Row> {
        self.rows@
    }
}

impl Rows {
    #[verifier::type_invariant]
    spec fn well_formed(&self) -> bool {
        all_conform(self.rows@, self.types@)
    }

    /// The schema of the table.
    pub closed spec fn schema(&self) -> Seq<ColumnType> {
        self.types@
    }

    /// The table of `rows` under the schema `types`, if every row conforms to
    /// it, and otherwise the schema violation of the first row that does not.
    pub fn new(types: Vec<ColumnType>, rows: Vec<Row>) -> (res: CrushResult<Rows>)
        ensures
            res matches Ok(table) ==> all_conform(rows@, types@) && table.schema() == types@
                && table@ == rows@,
            res matches Err(error) ==> exists|i: int| #[trigger]
                first_bad_row(rows@, types@, i) && error == violation(rows@[i]@, types@),
    {
        let mut i: usize = 0;
        while i < rows.len()
            invariant
                i <= rows.len(),
                all_conform(rows@.take(i as int), types@),
            decreases rows.len() - i,
        {
            match check_row(rows[i].cells(), &types) {
                Ok(()) => {},
                Err(error) => {
                    assert(first_bad_row(rows@, types@, i as int));
                    return Err(error);
                },
            }
            assert(rows@.take(i + 1) =~= rows@.take(i as int).push(rows@[i as int]));
            i += 1;
        }
        assert(rows@.take(i as int) =~= rows@);
        Ok(Rows { types, rows })
    }

    pub fn get_type(&self) -> (types: &Vec<ColumnType>)
        ensures
            types@ == self.schema(),
    {
        &self.types
    }

    /// The rows of the table, each of which conforms to its schema.
    pub fn rows(&self) -> (rows: &Vec<Row>)
        ensures
            rows@ == self@,
            all_conform(self@, self.schema()),
    {
        proof {
            use_type_invariant(self);
        }
        &self.rows
    }
}

/// Reads a table row by row, first row first.
pub struct RowsReader {
    types: Vec<ColumnType>,
    /// The rows not yet read, the next one last.
    stack: Vec<Row>,
    /// The rows read, oldest first.
    done: Ghost<Seq<Row>>,
}

impl RowsReader {
    #[verifier::type_invariant]
    spec fn well_formed(&self) -> bool {
        all_conform(self.stack@, self.types@)
    }

    /// The rows not yet read, the next one first.
    pub closed spec fn remaining(&self) -> Seq<Row> {
        self.stack@.reverse()
    }

    /// A reader that has all rows of `rows` before it.
    pub fn new(rows: Rows) -> (reader: RowsReader)
        ensures
            reader.schema() == rows.schema(),
            reader.remaining() == rows@,
            reader.delivered() == Seq::<Row>::empty(),
    {
        proof {
            use_type_invariant(&rows);
        }
        let Rows { types, rows: mut table } = rows;
        let ghost all = table@;
        let mut stack: Vec<Row> = Vec::new();
        while table.len() > 0
            invariant
                table@ == all.take(table@.len() as int),
                table@.len() + stack@.len() == all.len(),
                stack@.reverse() == all.skip(table@.len() as int),
                all_conform(all, types@),
            decreases table.len(),
        {
            let ghost before = stack@;
            let row = table.pop().unwrap();
            stack.push(row);
            assert(stack@.reverse() =~= all.skip(table@.len() as int)) by {
                assert(before.reverse() == all.skip(table@.len() + 1 as int));
                assert forall|k: int| 0 <= k < stack@.len() implies stack@.reverse()[k] == all.skip(
                    table@.len() as int,
                )[k] by {
                    if k > 0 {
                        assert(before.reverse()[k - 1] == all.skip(table@.len() + 1 as int)[k - 1]);
                    }
                }
            }
        }
        assert(stack@.reverse() =~= all);
        assert(all_conform(stack@, types@)) by {
            assert forall|i: int| 0 <= i < stack@.len() implies conforms(
                #[trigger] stack@[i]@,
                types@,
            ) by {
                assert(stack@[i] == stack@.reverse()[stack@.len() - 1 - i]);
            }
        }
        RowsReader { types, stack, done: Ghost(Seq::empty()) }
    }
}

impl Readable for RowsReader {
    closed spec fn schema(&self) -> Seq<ColumnType> {
        self.types@
    }

    closed spec fn delivered(&self) -> Seq<Row> {
        self.done@
    }

    open spec fn faults(&self) -> Seq<CrushError> {
        Seq::empty()
    }

    closed spec fn ended(&self) -> bool {
        self.stack@.len() == 0
    }

    open spec fn pending(&self) -> Option<Seq<Row>> {
        Some(self.remaining())
    }

    fn read(&mut self) -> (res: CrushResult<Row>) {
        proof {
            use_type_invariant(&*self);
        }
        let mut stack: Vec<Row> = Vec::new();
        std::mem::swap(&mut self.stack, &mut stack);
        let next = stack.pop();
        std::mem::swap(&mut self.stack, &mut stack);
        match next {
            Some(row) => {
                self.done = Ghost(self.done@.push(row));
                assert(self.stack@.reverse() =~= old(self).stack@.reverse().skip(1));
                Ok(row)
            },
            None => Err(CrushError::EndOfData),
        }
    }

    fn types(&self) -> (types: &Vec<ColumnType>) {
        &self.types
    }
}

} // verus!
