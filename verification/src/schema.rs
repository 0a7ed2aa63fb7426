//! Schemas, and what it means for a row to conform to one.

use crate::data::{Cell, ColumnType, Row};
use crate::errors::{CrushError, CrushResult, Kind};
use vstd::prelude::*;

verus! {

/// The cell at position `i` has the type that column `i` declares.
pub open spec fn cell_matches(row: Seq<Cell>, schema: Seq<ColumnType>, i: int) -> bool {
    row[i].value_type() == schema[i].cell_type
}

/// A row conforms to a schema when it has one cell for each column, each of
/// the type the column declares.
pub open spec fn conforms(row: Seq<Cell>, schema: Seq<ColumnType>) -> bool {
    &&& row.len() == schema.len()
    &&& forall|i: int| 0 <= i < row.len() ==> cell_matches(row, schema, i)
}

/// Position `i` is the first at which the row and the schema disagree.
pub open spec fn first_mismatch(row: Seq<Cell>, schema: Seq<ColumnType>, i: int) -> bool {
    &&& 0 <= i < row.len()
    &&& !cell_matches(row, schema, i)
    &&& forall|j: int| 0 <= j < i ==> cell_matches(row, schema, j)
}

/// The error for a cell that is not of the type its column declares.
pub open spec fn cell_type_error(column: ColumnType, cell: Cell) -> CrushError {
    CrushError::WrongCellType {
        column: column.name,
        expected: column.cell_type,
        actual: cell.value_type(),
    }
}

/// The error that a row which does not conform to a schema is rejected with:
/// a wrong number of cells, or else the first cell of a wrong type.
pub open spec fn violation(row: Seq<Cell>, schema: Seq<ColumnType>) -> CrushError {
    if row.len() != schema.len() {
        CrushError::WrongColumnCount { columns: schema.len() as usize, cells: row.len() as usize }
    } else {
        let i = choose|i: int| first_mismatch(row, schema, i);
        cell_type_error(schema[i], row[i])
    }
}

/// `error` is the violation of some row that does not conform to `schema`:
/// it tells the numbers of columns and cells of a row of a wrong length, or
/// names the column, the expected and the actual type of a first wrong cell.
pub open spec fn is_violation_of(error: CrushError, schema: Seq<ColumnType>) -> bool {
    exists|row: Seq<Cell>| !conforms(row, schema) && error == #[trigger] violation(row, schema)
}

/// At most one position is the first mismatch, so knowing it gives the error.
pub proof fn lemma_violation_at(row: Seq<Cell>, schema: Seq<ColumnType>, i: int)
    requires
        row.len() == schema.len(),
        first_mismatch(row, schema, i),
    ensures
        !conforms(row, schema),
        violation(row, schema) == cell_type_error(schema[i], row[i]),
{
    let k = choose|k: int| first_mismatch(row, schema, k);
    assert(first_mismatch(row, schema, k));
    assert(k == i) by {
        if k < i {
            assert(cell_matches(row, schema, k));
        } else if i < k {
            assert(cell_matches(row, schema, i));
        }
    }
}

/// What the reader of a stream with schema `schema` is given for a row that
/// arrived: the row itself if it conforms, and its violation if it does not.
pub open spec fn admitted(row: Row, schema: Seq<ColumnType>) -> CrushResult<Row> {
    if conforms(row@, schema) {
        Ok(row)
    } else {
        Err(violation(row@, schema))
    }
}

/// Whatever row arrives under whatever schema, the reader is given either
/// that very row, and the row then conforms to the schema, or an error of
/// the kind `SchemaViolation`. A row with a wrong number of cells, or with a
/// cell of a wrong type, is never handed out.
pub proof fn lemma_schema_conformance(row: Row, schema: Seq<ColumnType>)
    ensures
        admitted(row, schema) matches Ok(read) ==> read == row && conforms(read@, schema),
        admitted(row, schema) matches Err(error) ==> error.kind() == Kind::SchemaViolation
            && !conforms(row@, schema),
        row@.len() != schema.len() ==> admitted(row, schema) is Err,
        forall|i: int|
            0 <= i < row@.len() && row@.len() == schema.len() && !cell_matches(row@, schema, i)
                ==> admitted(row, schema) is Err,
{
}

/// Holds a row against a schema: `Ok` exactly when the row conforms, and
/// otherwise the violation.
pub fn check_row(cells: &Vec<Cell>, types: &Vec<ColumnType>) -> (res: Result<(), CrushError>)
    ensures
        res is Ok <==> conforms(cells@, types@),
        res matches Err(error) ==> error == violation(cells@, types@),
{
    if cells.len() != types.len() {
        return Err(CrushError::WrongColumnCount { columns: types.len(), cells: cells.len() });
    }
    let mut i: usize = 0;
    while i < cells.len()
        invariant
            cells.len() == types.len(),
            i <= cells.len(),
            forall|j: int| 0 <= j < i ==> cell_matches(cells@, types@, j),
        decreases cells.len() - i,
    {
        let actual = cells[i].value_type();
        if actual != types[i].cell_type {
            proof {
                lemma_violation_at(cells@, types@, i as int);
            }
            return Err(
                CrushError::WrongCellType {
                    column: types[i].name.clone(),
                    expected: types[i].cell_type,
                    actual,
                },
            );
        }
        i += 1;
    }
    Ok(())
}

/// A copy of a schema.
pub fn clone_schema(types: &Vec<ColumnType>) -> (copy: Vec<ColumnType>)
    ensures
        copy@ == types@,
{
    let mut copy: Vec<ColumnType> = Vec::new();
    let mut i: usize = 0;
    while i < types.len()
        invariant
            i <= types.len(),
            copy@ == types@.take(i as int),
        decreases types.len() - i,
    {
        copy.push(ColumnType { name: types[i].name.clone(), cell_type: types[i].cell_type });
        i += 1;
    }
    copy
}

} // verus!
