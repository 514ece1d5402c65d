//! The errors of this crate.
//!
//! An error carries its message. What an error says is modelled by a [`Fault`], and why it comes by
//! a [`Refusal`] or a [`Failure`], so that a contract can say exactly which error comes back. The
//! wording is in [`crate::message`].
use crate::types::{ArrowType, DataType};
use vstd::prelude::*;

verus! {

/// What this crate's operations fail with.
#[derive(Clone, Debug, PartialEq, Eq)]
pub enum Error {
    /// The arguments ask for what is not supported.
    IllegalArgument { message: String },
    /// A value of a row does not convert.
    RowConvertError { message: String },
}

/// What an error says.
#[verifier::ext_equal]
pub ghost enum Fault {
    IllegalArgument(Seq<char>),
    RowConvertError(Seq<char>),
}

impl Fault {
    /// The message.
    pub open spec fn text(self) -> Seq<char> {
        match self {
            Fault::IllegalArgument(text) => text,
            Fault::RowConvertError(text) => text,
        }
    }
}

impl View for Error {
    type V = Fault;

    open spec fn view(&self) -> Fault {
        match self {
            Error::IllegalArgument { message } => Fault::IllegalArgument(message@),
            Error::RowConvertError { message } => Fault::RowConvertError(message@),
        }
    }
}

impl Error {
    /// The error in words.
    pub fn message(&self) -> (r: &str)
        ensures
            r@ == self@.text(),
    {
        match self {
            Error::IllegalArgument { message } => message.as_str(),
            Error::RowConvertError { message } => message.as_str(),
        }
    }
}

/// A result with what its error says in place of the error.
pub open spec fn told<T>(r: Result<T, Error>) -> Result<T, Fault> {
    match r {
        Ok(v) => Ok(v),
        Err(e) => Err(e@),
    }
}

/// Why a request was refused.
pub ghost enum Refusal {
    /// The length of a `BINARY` type exceeds Arrow's maximum, `i32::MAX`.
    BinaryLength { length: usize },
    /// A `DECIMAL` column needs the Arrow type `Decimal128`.
    NotDecimal128 { found: ArrowType },
    /// Negative decimal scales are not supported.
    NegativeDecimalScale { scale: i8 },
    /// Arrow does not admit this pair of decimal precision and scale.
    InvalidDecimal { precision: u8, scale: i8 },
    /// The Arrow type does not fit a `TIME` column.
    ArrowTypeForTime { found: ArrowType },
    /// The Arrow type does not fit a `TIMESTAMP` column.
    ArrowTypeForTimestamp { found: ArrowType },
    /// The Arrow type does not fit a `TIMESTAMP_LTZ` column.
    ArrowTypeForTimestampLtz { found: ArrowType },
    /// An `ARRAY` column needs the Arrow type `List`.
    NotList { found: ArrowType },
    /// A `ROW` column needs the Arrow type `Struct`.
    NotStruct { found: ArrowType },
    /// Columns of this logical type are not implemented.
    UnsupportedColumn { fluss: DataType },
    /// No list builder holds elements of this Arrow type.
    ListElementType { found: ArrowType },
    /// No builder is made for a field of this Arrow type in a struct that is a list's element.
    StructFieldType { found: ArrowType },
    /// A list inside a struct has no boxed builder.
    NestedList,
    /// A struct inside a struct has no boxed builder.
    NestedStruct,
    /// No boxed builder exists for this Arrow type.
    BoxedBuilderType { found: ArrowType },
    /// A null of a `MAP` field cannot be appended to a struct.
    MapFieldNull,
    /// The struct field has no builder that takes a null of its data type.
    FieldNull { index: usize, type_text: Seq<char> },
    /// A decimal builder sits under a struct field whose data type is not `DECIMAL`.
    FieldNotDecimal,
    /// An array inside a struct is not supported.
    ArrayField,
    /// A row inside a struct is not supported.
    RowField,
    /// A map inside a struct is not supported.
    MapField,
    /// The struct field has no builder that takes a value of its data type.
    NoMatchingBuilder { index: usize, type_text: Seq<char> },
    /// An array element, taken as a row, has the one position zero.
    ElementPosition { pos: usize },
    /// The position lies outside the row or the array.
    Position { pos: usize },
    /// The value at the position is not of the type that was asked for.
    ValueType { pos: usize },
}

/// Why a value could not be converted to what its column holds.
pub ghost enum Failure {
    /// The number of bytes differs from the width of the column.
    BinaryWidth,
    /// The time has sub-second precision, and the column holds whole seconds.
    SubSecondTime { millis: i32 },
    /// The timestamp overflows when it is converted to microseconds.
    TimestampToMicros { epoch_millis: i64 },
    /// The timestamp overflows when it is converted to nanoseconds.
    TimestampToNanos { epoch_millis: i64 },
    /// The decimal, at the scale of the column, has more digits than the precision of the column,
    /// or lies outside the range of `i128`.
    DecimalOverflow { precision: u32 },
}

} // verus!
