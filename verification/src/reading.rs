//! What rows and arrays answer: the laws of reading.
use crate::error::Fault;
use crate::row::{
    ArrayElementRow, Datum, FlussArray, GenericRow, InternalRow, Request, Value,
};
use crate::text;
use crate::values::{Date, Time, TimestampLtz, TimestampNtz};
use vstd::prelude::*;

verus! {

/// A row answers with the very value that it holds at the position, where that is of the type asked
/// for, and says which of the two is amiss otherwise. It has a null just where it holds one.
pub proof fn law_rows_answer_with_what_they_hold(row: GenericRow, pos: usize, request: Request)
    ensures
        row.field_count() == row.fields().elements@.len(),
        pos >= row.fields().elements@.len() ==> {
            let fault = Fault::IllegalArgument(
                "Position "@ + text::number(pos as int) + " is out of range"@,
            );
            &&& row.null_at(pos) == Err::<bool, Fault>(fault)
            &&& row.value_at(pos, request) == Err::<Value, Fault>(fault)
        },
        pos < row.fields().elements@.len() ==> {
            let gives = |value: Value| row.value_at(pos, request) == Ok::<Value, Fault>(value);
            &&& row.null_at(pos) == Ok::<bool, Fault>(
                row.fields().elements@[pos as int] == Datum::Null,
            )
            &&& match (request, row.fields().elements@[pos as int]) {
                (Request::Boolean, Datum::Bool(v)) => gives(Value::Bool(v)),
                (Request::Byte, Datum::Int8(v)) => gives(Value::Int8(v)),
                (Request::Short, Datum::Int16(v)) => gives(Value::Int16(v)),
                (Request::Int, Datum::Int32(v)) => gives(Value::Int32(v)),
                (Request::Long, Datum::Int64(v)) => gives(Value::Int64(v)),
                (Request::Float, Datum::Float32(v)) => gives(Value::Float32(v)),
                (Request::Double, Datum::Float64(v)) => gives(Value::Float64(v)),
                (Request::Char { .. }, Datum::String(v)) => gives(Value::Str(v@)),
                (Request::Str, Datum::String(v)) => gives(Value::Str(v@)),
                (Request::Bytes, Datum::Blob(v)) => gives(Value::Bytes(v@)),
                (Request::Binary { .. }, Datum::Blob(v)) => gives(Value::Bytes(v@)),
                (Request::Decimal { .. }, Datum::Decimal(v)) => gives(Value::Decimal(v)),
                (Request::Date, Datum::Date(v)) => gives(Value::Date(v)),
                (Request::Time, Datum::Time(v)) => gives(Value::Time(v)),
                (Request::TimestampNtz { .. }, Datum::TimestampNtz(v)) => {
                    gives(Value::TimestampNtz(v))
                },
                (Request::TimestampLtz { .. }, Datum::TimestampLtz(v)) => {
                    gives(Value::TimestampLtz(v))
                },
                (Request::Array, Datum::Array(v)) => gives(Value::Array(v)),
                _ => row.value_at(pos, request) == Err::<Value, Fault>(
                    Fault::IllegalArgument(
                        "The value at position "@ + text::number(pos as int)
                            + " has another type"@,
                    ),
                ),
            }
        },
{
}

/// An array answers with the very value that it holds at the position. It does not tell dates and
/// times from 32-bit integers, nor the two kinds of timestamps from each other. It has a null just
/// where it holds one.
pub proof fn law_arrays_answer_with_what_they_hold(array: FlussArray, pos: usize, request: Request)
    ensures
        array.null_at(pos) <==> pos < array.elements@.len() && array.elements@[pos as int]
            == Datum::Null,
        pos >= array.elements@.len() ==> array.value_at(pos, request) == Err::<Value, Fault>(
            Fault::IllegalArgument("Position "@ + text::number(pos as int) + " is out of range"@),
        ),
        pos < array.elements@.len() ==> {
            let gives = |value: Value| array.value_at(pos, request) == Ok::<Value, Fault>(value);
            match (request, array.elements@[pos as int]) {
                (Request::Boolean, Datum::Bool(v)) => gives(Value::Bool(v)),
                (Request::Byte, Datum::Int8(v)) => gives(Value::Int8(v)),
                (Request::Short, Datum::Int16(v)) => gives(Value::Int16(v)),
                (Request::Int, Datum::Int32(v)) => gives(Value::Int32(v)),
                (Request::Long, Datum::Int64(v)) => gives(Value::Int64(v)),
                (Request::Float, Datum::Float32(v)) => gives(Value::Float32(v)),
                (Request::Double, Datum::Float64(v)) => gives(Value::Float64(v)),
                (Request::Char { .. }, Datum::String(v)) => gives(Value::Str(v@)),
                (Request::Str, Datum::String(v)) => gives(Value::Str(v@)),
                (Request::Bytes, Datum::Blob(v)) => gives(Value::Bytes(v@)),
                (Request::Binary { .. }, Datum::Blob(v)) => gives(Value::Bytes(v@)),
                (Request::Decimal { .. }, Datum::Decimal(v)) => gives(Value::Decimal(v)),
                (Request::Date, Datum::Date(v)) => gives(Value::Date(v)),
                (Request::Time, Datum::Time(v)) => gives(Value::Time(v)),
                (Request::TimestampNtz { .. }, Datum::TimestampNtz(v)) => {
                    gives(Value::TimestampNtz(v))
                },
                (Request::TimestampLtz { .. }, Datum::TimestampLtz(v)) => {
                    gives(Value::TimestampLtz(v))
                },
                (Request::Array, Datum::Array(v)) => gives(Value::Array(v)),
                (Request::Int, Datum::Date(v)) => gives(Value::Int32(v.days)),
                (Request::Int, Datum::Time(v)) => gives(Value::Int32(v.millis)),
                (Request::Date, Datum::Int32(v)) => gives(Value::Date(Date { days: v })),
                (Request::Date, Datum::Time(v)) => gives(Value::Date(Date { days: v.millis })),
                (Request::Time, Datum::Int32(v)) => gives(Value::Time(Time { millis: v })),
                (Request::Time, Datum::Date(v)) => gives(Value::Time(Time { millis: v.days })),
                (Request::TimestampNtz { .. }, Datum::TimestampLtz(v)) => gives(
                    Value::TimestampNtz(
                        TimestampNtz {
                            millisecond: v.epoch_millisecond,
                            nano_of_millisecond: v.nano_of_millisecond,
                        },
                    ),
                ),
                (Request::TimestampLtz { .. }, Datum::TimestampNtz(v)) => gives(
                    Value::TimestampLtz(
                        TimestampLtz {
                            epoch_millisecond: v.millisecond,
                            nano_of_millisecond: v.nano_of_millisecond,
                        },
                    ),
                ),
                _ => array.value_at(pos, request) == Err::<Value, Fault>(
                    Fault::IllegalArgument(
                        "The value at position "@ + text::number(pos as int)
                            + " has another type"@,
                    ),
                ),
            }
        },
{
}

/// An element of an array, taken as a row, answers at position zero as the array does at the place
/// of the element, and at no other position.
pub proof fn law_elements_answer_for_their_array(
    element: ArrayElementRow,
    pos: usize,
    request: Request,
)
    ensures
        element.field_count() == 1,
        pos == 0 ==> {
            &&& element.null_at(pos) == Ok::<bool, Fault>(
                element.array().null_at(element.index()),
            )
            &&& element.value_at(pos, request) == element.array().value_at(
                element.index(),
                request,
            )
        },
        pos != 0 ==> {
            let fault = Fault::IllegalArgument(
                "Array element row has only one field, got position "@ + text::number(pos as int),
            );
            &&& element.null_at(pos) == Err::<bool, Fault>(fault)
            &&& element.value_at(pos, request) == Err::<Value, Fault>(fault)
        },
{
}

} // verus!
