//! The rows of a column, one by one: what an array holds in each, and what a write puts there.
use crate::builders::{ArrayContents, Cell, ScalarType, StructField};
use crate::column::{Data, Shape};
use crate::error::Fault;
use crate::row::{FlussArray, Value};
use vstd::prelude::*;

verus! {

/// A row of a column.
#[verifier::ext_equal]
pub ghost enum Entry {
    Null,
    Cell(Cell),
    List(Seq<Entry>),
    /// The cells of the fields.
    Struct(Seq<Option<Cell>>),
}

/// The type of an array.
#[verifier::ext_equal]
pub ghost enum ArrayType {
    Scalar(ScalarType),
    List { item_nullable: bool, item: Box<ArrayType> },
    Struct(Seq<StructField>),
}

impl ArrayContents {
    /// The type of the array.
    pub open spec fn array_type(self) -> ArrayType
        decreases self,
    {
        match self {
            ArrayContents::Scalar { ty, .. } => ArrayType::Scalar(ty),
            ArrayContents::List { item_nullable, values, .. } => ArrayType::List {
                item_nullable,
                item: Box::new(values.array_type()),
            },
            ArrayContents::Struct { fields, .. } => ArrayType::Struct(fields),
        }
    }

    /// The rows of the array.
    pub open spec fn entries(self) -> Seq<Entry>
        decreases self,
    {
        match self {
            ArrayContents::Scalar { cells, .. } => cells.map_values(
                |cell: Option<Cell>|
                    match cell {
                        Some(cell) => Entry::Cell(cell),
                        None => Entry::Null,
                    },
            ),
            ArrayContents::List { values, offsets, rows, .. } => Seq::new(
                rows.len(),
                |i: int|
                    if rows[i] {
                        Entry::List(values.entries().subrange(offsets[i], offsets[i + 1]))
                    } else {
                        Entry::Null
                    },
            ),
            ArrayContents::Struct { columns, rows, .. } => Seq::new(
                rows.len(),
                |i: int|
                    if rows[i] {
                        Entry::Struct(
                            columns.map_values(|column: Seq<Option<Cell>>| column[i]),
                        )
                    } else {
                        Entry::Null
                    },
            ),
        }
    }
}

impl Shape {
    /// The rows of the array of what a writer holds.
    pub open spec fn rows(self, data: Data) -> Seq<Entry> {
        self.array(data).entries()
    }

    /// The row that a value becomes, where it converts.
    pub open spec fn entry(self, value: Value) -> Entry
        decreases self, 0nat,
    {
        match (self, value) {
            (Shape::Scalar { kind, .. }, _) => Entry::Cell(kind.convert(value)->Ok_0),
            (Shape::List { item, .. }, Value::Array(array)) => Entry::List(
                Seq::new(array.elements@.len(), |i: int| item.element_entry(array, i)),
            ),
            (Shape::Struct { fields, .. }, Value::Array(array)) => Entry::Struct(
                Seq::new(
                    fields.len(),
                    |i: int| fields[i].column.cell(array, i as usize)->Ok_0,
                ),
            ),
            _ => arbitrary(),
        }
    }

    /// The row that an element of an array becomes.
    pub open spec fn element_entry(self, array: FlussArray, i: int) -> Entry
        decreases self, 1nat,
    {
        if array.null_at(i as usize) {
            Entry::Null
        } else {
            self.entry(array.value_at(i as usize, self.request())->Ok_0)
        }
    }
}

impl Shape {
    /// Whether nulls are admitted in every part of the column, and the builders of every struct are
    /// those of the Arrow type that was asked for.
    pub open spec fn lenient(self) -> bool
        decreases self,
    {
        match self {
            Shape::Scalar { .. } => true,
            Shape::List { item, .. } => item.nullable() && item.lenient(),
            Shape::Struct { fields, complete, .. } => {
                &&& complete
                &&& forall|i: int|
                    0 <= i < fields.len() ==> (#[trigger] fields[i]).nullable && fields[i].exact
            },
        }
    }
}

/// What a row answers to a writer: whether there is a null, and what is there.
pub ghost struct Reading {
    pub null: Result<bool, Fault>,
    pub answer: Result<Value, Fault>,
}

impl Shape {
    /// The data after the readings have been written, one after the other, whether or not they
    /// succeed.
    pub open spec fn write_all(self, data: Data, readings: Seq<Reading>) -> Data
        decreases readings.len(),
    {
        if readings.len() == 0 {
            data
        } else {
            self.write(
                self.write_all(data, readings.drop_last()),
                readings.last().null,
                readings.last().answer,
            ).0
        }
    }

    /// Whether the write of a reading succeeds.
    pub open spec fn takes(self, reading: Reading) -> bool {
        self.write(self.empty(), reading.null, reading.answer).1 is Ok
    }

    /// The row that a reading becomes.
    pub open spec fn reading_entry(self, reading: Reading) -> Entry {
        if self.nullable() && reading.null == Ok::<bool, Fault>(true) {
            Entry::Null
        } else {
            self.entry(reading.answer->Ok_0)
        }
    }
}

} // verus!
