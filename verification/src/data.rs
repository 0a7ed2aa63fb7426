//! The values that stages exchange: cells, rows, and what a stage hands on.

use crate::stream::{streams, InputStream, Readable};
use crate::table::Rows;
use vstd::prelude::*;

verus! {

/// The type of one cell, as a schema declares it.
#[derive(Clone, Copy, Debug, PartialEq, Eq, Structural)]
pub enum ValueType {
    Bool,
    Integer,
    Text,
}

impl ValueType {
    /// The name of the type, as it is shown to the user.
    pub open spec fn name_text(self) -> Seq<char> {
        match self {
            ValueType::Bool => "bool"@,
            ValueType::Integer => "integer"@,
            ValueType::Text => "text"@,
        }
    }

    pub fn name(&self) -> (text: &'static str)
        ensures
            text@ == self.name_text(),
    {
        match self {
            ValueType::Bool => "bool",
            ValueType::Integer => "integer",
            ValueType::Text => "text",
        }
    }
}

/// One field of a row.
#[derive(Clone, Debug, PartialEq, Eq)]
pub enum Cell {
    Bool(bool),
    Integer(i128),
    Text(String),
}

impl Cell {
    /// The type of the value this cell holds.
    pub open spec fn spec_value_type(&self) -> ValueType {
        match self {
            Cell::Bool(_) => ValueType::Bool,
            Cell::Integer(_) => ValueType::Integer,
            Cell::Text(_) => ValueType::Text,
        }
    }

    #[verifier::when_used_as_spec(spec_value_type)]
    pub fn value_type(&self) -> (cell_type: ValueType)
        ensures
            cell_type == self.spec_value_type(),
    {
        match self {
            Cell::Bool(_) => ValueType::Bool,
            Cell::Integer(_) => ValueType::Integer,
            Cell::Text(_) => ValueType::Text,
        }
    }
}

/// One column of a schema: its name and the type of its cells.
#[derive(Clone, Debug, PartialEq, Eq)]
pub struct ColumnType {
    pub name: String,
    pub cell_type: ValueType,
}

impl ColumnType {
    pub fn named(name: &str, cell_type: ValueType) -> (column: ColumnType)
        ensures
            column.name@ == name@,
            column.cell_type == cell_type,
    {
        ColumnType { name: name.to_owned(), cell_type }
    }
}

/// An ordered sequence of cells. Its view is that sequence.
#[derive(Clone, Debug, PartialEq, Eq)]
pub struct Row {
    pub cells: Vec<Cell>,
}

impl View for Row {
    type V = Seq<Cell>;

    open spec fn view(&self) -> Seq<Cell> {
        self.cells@
    }
}

impl Row {
    pub fn new(cells: Vec<Cell>) -> (row: Row)
        ensures
            row@ == cells@,
    {
        Row { cells }
    }

    pub fn cells(&self) -> (cells: &Vec<Cell>)
        ensures
            cells@ == self@,
    {
        &self.cells
    }
}

/// A live stream of rows, as one stage hands it to the next.
pub struct Stream {
    pub stream: InputStream,
}

/// What a stage hands to the next stage, and what a command is given as an
/// argument.
pub enum Value {
    Bool(bool),
    Integer(i128),
    Text(String),
    Stream(Stream),
    Rows(Rows),
}

/// One argument of a command, with the name it was given under, if any.
pub struct Argument {
    pub name: Option<String>,
    pub value: Value,
}

impl Value {
    /// A stream without columns on which no row will ever arrive.
    pub fn empty_stream() -> (value: Value)
        ensures
            value matches Value::Stream(s) && s.stream.schema() == Seq::<ColumnType>::empty()
                && s.stream.delivered() == Seq::<Row>::empty(),
    {
        let (_, input) = streams(Vec::new());
        Value::Stream(Stream { stream: input })
    }
}

} // verus!
