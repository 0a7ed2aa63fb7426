use crush::data::{Cell, ColumnType, Row, ValueType};
use crush::errors::CrushError;
use crush::stream::Readable;
use crush::table::{Rows, RowsReader};

fn number_schema() -> Vec<ColumnType> {
    vec![ColumnType::named("n", ValueType::Integer)]
}

fn number_row(n: i128) -> Row {
    Row::new(vec![Cell::Integer(n)])
}

#[test]
fn table_of_conforming_rows_is_built() {
    let table = Rows::new(number_schema(), vec![number_row(1), number_row(2)]).unwrap();
    assert_eq!(table.get_type(), &number_schema());
    assert_eq!(table.rows(), &vec![number_row(1), number_row(2)]);
}

#[test]
fn empty_table_is_built() {
    let table = Rows::new(number_schema(), vec![]).unwrap();
    assert_eq!(table.rows().len(), 0);
    assert_eq!(table.get_type(), &number_schema());
}

#[test]
fn table_rejects_its_first_bad_row() {
    let rows = vec![
        number_row(1),
        Row::new(vec![Cell::Bool(true)]),
        Row::new(vec![Cell::Integer(1), Cell::Integer(2)]),
    ];
    match Rows::new(number_schema(), rows) {
        Ok(_) => panic!("a row of the wrong type was accepted"),
        Err(error) => assert_eq!(
            error,
            CrushError::WrongCellType {
                column: "n".to_string(),
                expected: ValueType::Integer,
                actual: ValueType::Bool,
            }
        ),
    }
}

#[test]
fn table_rejects_a_row_of_wrong_length() {
    let rows = vec![Row::new(vec![])];
    match Rows::new(number_schema(), rows) {
        Ok(_) => panic!("a row of the wrong length was accepted"),
        Err(error) => assert_eq!(error, CrushError::WrongColumnCount { columns: 1, cells: 0 }),
    }
}

#[test]
fn reader_yields_the_rows_in_order_and_then_the_end() {
    let table = Rows::new(number_schema(), vec![number_row(1), number_row(2), number_row(3)]).unwrap();
    let mut reader = RowsReader::new(table);
    assert_eq!(reader.read(), Ok(number_row(1)));
    assert_eq!(reader.read(), Ok(number_row(2)));
    assert_eq!(reader.read(), Ok(number_row(3)));
    assert_eq!(reader.read(), Err(CrushError::EndOfData));
    assert_eq!(reader.read(), Err(CrushError::EndOfData));
}

#[test]
fn reader_of_an_empty_table_is_at_its_end() {
    let mut reader = RowsReader::new(Rows::new(number_schema(), vec![]).unwrap());
    assert_eq!(reader.read(), Err(CrushError::EndOfData));
}

#[test]
fn reader_has_the_schema_of_its_table() {
    let reader = RowsReader::new(Rows::new(number_schema(), vec![number_row(1)]).unwrap());
    assert_eq!(reader.types(), &number_schema());
}
