//! Rows, arrays and their values, as the column writers read them.
use crate::error;
use crate::error::{Error, Fault, Refusal};
use crate::values::{Date, Decimal, Time, TimestampLtz, TimestampNtz, F32, F64};
use vstd::prelude::*;

verus! {

/// A value of a row or an array.
#[derive(Debug)]
pub enum Datum {
    Null,
    Bool(bool),
    Int8(i8),
    Int16(i16),
    Int32(i32),
    Int64(i64),
    Float32(F32),
    Float64(F64),
    String(String),
    Blob(Vec<u8>),
    Decimal(Decimal),
    Date(Date),
    Time(Time),
    TimestampNtz(TimestampNtz),
    TimestampLtz(TimestampLtz),
    Array(FlussArray),
}

/// An array of values. A row that is nested in another value is held as the array of its fields.
#[derive(Debug)]
pub struct FlussArray {
    pub elements: Vec<Datum>,
}

/// What is asked of a row or an array at a position: a value of a type.
#[derive(Clone, Copy, Debug, PartialEq, Eq, Structural)]
pub enum Request {
    Boolean,
    Byte,
    Short,
    Int,
    Long,
    Float,
    Double,
    Char { length: usize },
    Str,
    Bytes,
    Binary { width: usize },
    Decimal { precision: usize, scale: usize },
    Date,
    Time,
    TimestampNtz { fraction: u32 },
    TimestampLtz { fraction: u32 },
    Array,
}

/// What a row or an array answers to a [`Request`].
pub ghost enum Value {
    Bool(bool),
    Int8(i8),
    Int16(i16),
    Int32(i32),
    Int64(i64),
    Float32(F32),
    Float64(F64),
    Str(Seq<char>),
    Bytes(Seq<u8>),
    Decimal(Decimal),
    Date(Date),
    Time(Time),
    TimestampNtz(TimestampNtz),
    TimestampLtz(TimestampLtz),
    Array(FlussArray),
}

impl Datum {
    /// The value as one of the requested type, or `None` where it is of another type.
    pub open spec fn value(self, request: Request) -> Option<Value> {
        match (request, self) {
            (Request::Boolean, Datum::Bool(v)) => Some(Value::Bool(v)),
            (Request::Byte, Datum::Int8(v)) => Some(Value::Int8(v)),
            (Request::Short, Datum::Int16(v)) => Some(Value::Int16(v)),
            (Request::Int, Datum::Int32(v)) => Some(Value::Int32(v)),
            (Request::Long, Datum::Int64(v)) => Some(Value::Int64(v)),
            (Request::Float, Datum::Float32(v)) => Some(Value::Float32(v)),
            (Request::Double, Datum::Float64(v)) => Some(Value::Float64(v)),
            (Request::Char { .. }, Datum::String(v)) => Some(Value::Str(v@)),
            (Request::Str, Datum::String(v)) => Some(Value::Str(v@)),
            (Request::Bytes, Datum::Blob(v)) => Some(Value::Bytes(v@)),
            (Request::Binary { .. }, Datum::Blob(v)) => Some(Value::Bytes(v@)),
            (Request::Decimal { .. }, Datum::Decimal(v)) => Some(Value::Decimal(v)),
            (Request::Date, Datum::Date(v)) => Some(Value::Date(v)),
            (Request::Time, Datum::Time(v)) => Some(Value::Time(v)),
            (Request::TimestampNtz { .. }, Datum::TimestampNtz(v)) => Some(Value::TimestampNtz(v)),
            (Request::TimestampLtz { .. }, Datum::TimestampLtz(v)) => Some(Value::TimestampLtz(v)),
            (Request::Array, Datum::Array(v)) => Some(Value::Array(v)),
            _ => None,
        }
    }
}

impl Datum {
    /// The value as one of the requested type that is stored in the same way, or `None` where there
    /// is no such value. Dates and times are stored as 32-bit integers, and the two kinds of
    /// timestamps alike.
    pub open spec fn stored_value(self, request: Request) -> Option<Value> {
        match (request, self) {
            (Request::Int, Datum::Date(v)) => Some(Value::Int32(v.days)),
            (Request::Int, Datum::Time(v)) => Some(Value::Int32(v.millis)),
            (Request::Date, Datum::Int32(v)) => Some(Value::Date(Date { days: v })),
            (Request::Date, Datum::Time(v)) => Some(Value::Date(Date { days: v.millis })),
            (Request::Time, Datum::Int32(v)) => Some(Value::Time(Time { millis: v })),
            (Request::Time, Datum::Date(v)) => Some(Value::Time(Time { millis: v.days })),
            (Request::TimestampNtz { .. }, Datum::TimestampLtz(v)) => Some(
                Value::TimestampNtz(
                    TimestampNtz {
                        millisecond: v.epoch_millisecond,
                        nano_of_millisecond: v.nano_of_millisecond,
                    },
                ),
            ),
            (Request::TimestampLtz { .. }, Datum::TimestampNtz(v)) => Some(
                Value::TimestampLtz(
                    TimestampLtz {
                        epoch_millisecond: v.millisecond,
                        nano_of_millisecond: v.nano_of_millisecond,
                    },
                ),
            ),
            _ => self.value(request),
        }
    }
}

impl FlussArray {
    /// What the array answers to `request` at `pos`. It does not record the types of its elements.
    pub open spec fn value_at(self, pos: usize, request: Request) -> Result<Value, Fault> {
        if pos < self.elements@.len() {
            match self.elements@[pos as int].stored_value(request) {
                Some(value) => Ok(value),
                None => Err((Refusal::ValueType { pos }).fault()),
            }
        } else {
            Err((Refusal::Position { pos }).fault())
        }
    }

    /// Whether the array has a null at `pos`.
    pub open spec fn null_at(self, pos: usize) -> bool {
        pos < self.elements@.len() && self.elements@[pos as int] is Null
    }

    /// The number of elements.
    pub fn size(&self) -> (n: usize)
        ensures
            n == self.elements@.len(),
    {
        self.elements.len()
    }

    /// Whether the array has a null at `pos`. A position outside the array holds no null.
    pub fn is_null_at(&self, pos: usize) -> (r: bool)
        ensures
            r == self.null_at(pos),
    {
        pos < self.elements.len() && match &self.elements[pos] {
            Datum::Null => true,
            _ => false,
        }
    }

    /// Why no value of the requested type is at `pos`.
    fn refusal(&self, pos: usize) -> (e: Error)
        ensures
            e@ == (if pos < self.elements@.len() {
                Refusal::ValueType { pos }
            } else {
                Refusal::Position { pos }
            }).fault(),
    {
        if pos < self.elements.len() {
            Error::value_type(pos)
        } else {
            Error::position(pos)
        }
    }

    /// The boolean at `pos`.
    pub fn get_boolean(&self, pos: usize) -> (r: Result<bool, Error>)
        ensures
            match r {
                Ok(v) => self.value_at(pos, Request::Boolean) == Ok::<Value, Fault>(Value::Bool(v)),
                Err(e) => self.value_at(pos, Request::Boolean) == Err::<Value, Fault>(e@),
            },
    {
        if pos < self.elements.len() {
            if let Datum::Bool(v) = &self.elements[pos] {
                return Ok(*v);
            }
        }
        Err(self.refusal(pos))
    }

    /// The 8-bit integer at `pos`.
    pub fn get_byte(&self, pos: usize) -> (r: Result<i8, Error>)
        ensures
            match r {
                Ok(v) => self.value_at(pos, Request::Byte) == Ok::<Value, Fault>(Value::Int8(v)),
                Err(e) => self.value_at(pos, Request::Byte) == Err::<Value, Fault>(e@),
            },
    {
        if pos < self.elements.len() {
            if let Datum::Int8(v) = &self.elements[pos] {
                return Ok(*v);
            }
        }
        Err(self.refusal(pos))
    }

    /// The 16-bit integer at `pos`.
    pub fn get_short(&self, pos: usize) -> (r: Result<i16, Error>)
        ensures
            match r {
                Ok(v) => self.value_at(pos, Request::Short) == Ok::<Value, Fault>(Value::Int16(v)),
                Err(e) => self.value_at(pos, Request::Short) == Err::<Value, Fault>(e@),
            },
    {
        if pos < self.elements.len() {
            if let Datum::Int16(v) = &self.elements[pos] {
                return Ok(*v);
            }
        }
        Err(self.refusal(pos))
    }

    /// The 32-bit integer at `pos`.
    pub fn get_int(&self, pos: usize) -> (r: Result<i32, Error>)
        ensures
            match r {
                Ok(v) => self.value_at(pos, Request::Int) == Ok::<Value, Fault>(Value::Int32(v)),
                Err(e) => self.value_at(pos, Request::Int) == Err::<Value, Fault>(e@),
            },
    {
        if pos < self.elements.len() {
            match &self.elements[pos] {
                Datum::Int32(v) => {
                    return Ok(*v);
                },
                Datum::Date(v) => {
                    return Ok(v.days);
                },
                Datum::Time(v) => {
                    return Ok(v.millis);
                },
                _ => {},
            }
        }
        Err(self.refusal(pos))
    }

    /// The 64-bit integer at `pos`.
    pub fn get_long(&self, pos: usize) -> (r: Result<i64, Error>)
        ensures
            match r {
                Ok(v) => self.value_at(pos, Request::Long) == Ok::<Value, Fault>(Value::Int64(v)),
                Err(e) => self.value_at(pos, Request::Long) == Err::<Value, Fault>(e@),
            },
    {
        if pos < self.elements.len() {
            if let Datum::Int64(v) = &self.elements[pos] {
                return Ok(*v);
            }
        }
        Err(self.refusal(pos))
    }

    /// The single-precision number at `pos`.
    pub fn get_float(&self, pos: usize) -> (r: Result<F32, Error>)
        ensures
            match r {
                Ok(v) => self.value_at(
                    pos,
                    Request::Float,
                ) == Ok::<Value, Fault>(Value::Float32(v)),
                Err(e) => self.value_at(pos, Request::Float) == Err::<Value, Fault>(e@),
            },
    {
        if pos < self.elements.len() {
            if let Datum::Float32(v) = &self.elements[pos] {
                return Ok(*v);
            }
        }
        Err(self.refusal(pos))
    }

    /// The double-precision number at `pos`.
    pub fn get_double(&self, pos: usize) -> (r: Result<F64, Error>)
        ensures
            match r {
                Ok(v) => self.value_at(
                    pos,
                    Request::Double,
                ) == Ok::<Value, Fault>(Value::Float64(v)),
                Err(e) => self.value_at(pos, Request::Double) == Err::<Value, Fault>(e@),
            },
    {
        if pos < self.elements.len() {
            if let Datum::Float64(v) = &self.elements[pos] {
                return Ok(*v);
            }
        }
        Err(self.refusal(pos))
    }

    /// The date at `pos`.
    pub fn get_date(&self, pos: usize) -> (r: Result<Date, Error>)
        ensures
            match r {
                Ok(v) => self.value_at(pos, Request::Date) == Ok::<Value, Fault>(Value::Date(v)),
                Err(e) => self.value_at(pos, Request::Date) == Err::<Value, Fault>(e@),
            },
    {
        if pos < self.elements.len() {
            match &self.elements[pos] {
                Datum::Date(v) => {
                    return Ok(*v);
                },
                Datum::Int32(v) => {
                    return Ok(Date { days: *v });
                },
                Datum::Time(v) => {
                    return Ok(Date { days: v.millis });
                },
                _ => {},
            }
        }
        Err(self.refusal(pos))
    }

    /// The time of day at `pos`.
    pub fn get_time(&self, pos: usize) -> (r: Result<Time, Error>)
        ensures
            match r {
                Ok(v) => self.value_at(pos, Request::Time) == Ok::<Value, Fault>(Value::Time(v)),
                Err(e) => self.value_at(pos, Request::Time) == Err::<Value, Fault>(e@),
            },
    {
        if pos < self.elements.len() {
            match &self.elements[pos] {
                Datum::Time(v) => {
                    return Ok(*v);
                },
                Datum::Int32(v) => {
                    return Ok(Time { millis: *v });
                },
                Datum::Date(v) => {
                    return Ok(Time { millis: v.days });
                },
                _ => {},
            }
        }
        Err(self.refusal(pos))
    }

    /// The text at `pos`.
    pub fn get_string(&self, pos: usize) -> (r: Result<&str, Error>)
        ensures
            match r {
                Ok(v) => self.value_at(pos, Request::Str) == Ok::<Value, Fault>(Value::Str(v@)),
                Err(e) => self.value_at(pos, Request::Str) == Err::<Value, Fault>(e@),
            },
    {
        if pos < self.elements.len() {
            if let Datum::String(v) = &self.elements[pos] {
                return Ok(v.as_str());
            }
        }
        Err(self.refusal(pos))
    }

    /// The bytes at `pos`.
    pub fn get_binary(&self, pos: usize) -> (r: Result<&[u8], Error>)
        ensures
            match r {
                Ok(v) => self.value_at(pos, Request::Bytes) == Ok::<Value, Fault>(Value::Bytes(v@)),
                Err(e) => self.value_at(pos, Request::Bytes) == Err::<Value, Fault>(e@),
            },
    {
        if pos < self.elements.len() {
            if let Datum::Blob(v) = &self.elements[pos] {
                return Ok(v.as_slice());
            }
        }
        Err(self.refusal(pos))
    }

    /// The decimal at `pos`.
    pub fn get_decimal(&self, pos: usize, precision: u32, scale: u32) -> (r: Result<Decimal, Error>)
        ensures
            match r {
                Ok(v) => self.value_at(
                    pos,
                    (Request::Decimal {
                        precision: precision as usize,
                        scale: scale as usize,
                    }),
                ) == Ok::<Value, Fault>(Value::Decimal(v)),
                Err(e) => self.value_at(
                    pos,
                    (Request::Decimal {
                        precision: precision as usize,
                        scale: scale as usize,
                    }),
                ) == Err::<Value, Fault>(e@),
            },
    {
        if pos < self.elements.len() {
            if let Datum::Decimal(v) = &self.elements[pos] {
                return Ok(*v);
            }
        }
        Err(self.refusal(pos))
    }

    /// The timestamp without time zone at `pos`.
    pub fn get_timestamp_ntz(&self, pos: usize, fraction: u32) -> (r: Result<TimestampNtz, Error>)
        ensures
            match r {
                Ok(v) => self.value_at(
                    pos,
                    (Request::TimestampNtz { fraction }),
                ) == Ok::<Value, Fault>(Value::TimestampNtz(v)),
                Err(e) => self.value_at(
                    pos,
                    (Request::TimestampNtz { fraction }),
                ) == Err::<Value, Fault>(e@),
            },
    {
        if pos < self.elements.len() {
            match &self.elements[pos] {
                Datum::TimestampNtz(v) => {
                    return Ok(*v);
                },
                Datum::TimestampLtz(v) => {
                    return Ok(
                        TimestampNtz {
                            millisecond: v.epoch_millisecond,
                            nano_of_millisecond: v.nano_of_millisecond,
                        },
                    );
                },
                _ => {},
            }
        }
        Err(self.refusal(pos))
    }

    /// The timestamp with local time zone at `pos`.
    pub fn get_timestamp_ltz(&self, pos: usize, fraction: u32) -> (r: Result<TimestampLtz, Error>)
        ensures
            match r {
                Ok(v) => self.value_at(
                    pos,
                    (Request::TimestampLtz { fraction }),
                ) == Ok::<Value, Fault>(Value::TimestampLtz(v)),
                Err(e) => self.value_at(
                    pos,
                    (Request::TimestampLtz { fraction }),
                ) == Err::<Value, Fault>(e@),
            },
    {
        if pos < self.elements.len() {
            match &self.elements[pos] {
                Datum::TimestampLtz(v) => {
                    return Ok(*v);
                },
                Datum::TimestampNtz(v) => {
                    return Ok(
                        TimestampLtz {
                            epoch_millisecond: v.millisecond,
                            nano_of_millisecond: v.nano_of_millisecond,
                        },
                    );
                },
                _ => {},
            }
        }
        Err(self.refusal(pos))
    }

    /// The array at `pos`.
    pub fn get_array(&self, pos: usize) -> (r: Result<&FlussArray, Error>)
        ensures
            match r {
                Ok(v) => self.value_at(pos, Request::Array) == Ok::<Value, Fault>(Value::Array(*v)),
                Err(e) => self.value_at(pos, Request::Array) == Err::<Value, Fault>(e@),
            },
    {
        if pos < self.elements.len() {
            if let Datum::Array(v) = &self.elements[pos] {
                return Ok(v);
            }
        }
        Err(self.refusal(pos))
    }
}

/// A row: values at positions.
///
/// What a row answers is a function of the position and the request, given by the two
/// specification functions; every method returns that answer.
pub trait InternalRow {
    /// Whether the row has a null at `pos`, or the error that asking gives.
    spec fn null_at(&self, pos: usize) -> Result<bool, Fault>;

    /// What the row answers to `request` at `pos`.
    spec fn value_at(&self, pos: usize, request: Request) -> Result<Value, Fault>;

    /// The number of positions.
    spec fn field_count(&self) -> nat;

    /// The number of positions.
    fn get_field_count(&self) -> (n: usize)
        ensures
            n == self.field_count(),
    ;

    /// Whether the row has a null at `pos`.
    fn is_null_at(&self, pos: usize) -> (r: Result<bool, Error>)
        ensures
            error::told(r) == self.null_at(pos),
    ;

    /// The boolean at `pos`.
    fn get_boolean(&self, pos: usize) -> (r: Result<bool, Error>)
        ensures
            match r {
                Ok(v) => self.value_at(pos, Request::Boolean) == Ok::<Value, Fault>(Value::Bool(v)),
                Err(e) => self.value_at(pos, Request::Boolean) == Err::<Value, Fault>(e@),
            },
    ;

    /// The 8-bit integer at `pos`.
    fn get_byte(&self, pos: usize) -> (r: Result<i8, Error>)
        ensures
            match r {
                Ok(v) => self.value_at(pos, Request::Byte) == Ok::<Value, Fault>(Value::Int8(v)),
                Err(e) => self.value_at(pos, Request::Byte) == Err::<Value, Fault>(e@),
            },
    ;

    /// The 16-bit integer at `pos`.
    fn get_short(&self, pos: usize) -> (r: Result<i16, Error>)
        ensures
            match r {
                Ok(v) => self.value_at(pos, Request::Short) == Ok::<Value, Fault>(Value::Int16(v)),
                Err(e) => self.value_at(pos, Request::Short) == Err::<Value, Fault>(e@),
            },
    ;

    /// The 32-bit integer at `pos`.
    fn get_int(&self, pos: usize) -> (r: Result<i32, Error>)
        ensures
            match r {
                Ok(v) => self.value_at(pos, Request::Int) == Ok::<Value, Fault>(Value::Int32(v)),
                Err(e) => self.value_at(pos, Request::Int) == Err::<Value, Fault>(e@),
            },
    ;

    /// The 64-bit integer at `pos`.
    fn get_long(&self, pos: usize) -> (r: Result<i64, Error>)
        ensures
            match r {
                Ok(v) => self.value_at(pos, Request::Long) == Ok::<Value, Fault>(Value::Int64(v)),
                Err(e) => self.value_at(pos, Request::Long) == Err::<Value, Fault>(e@),
            },
    ;

    /// The single-precision number at `pos`.
    fn get_float(&self, pos: usize) -> (r: Result<F32, Error>)
        ensures
            match r {
                Ok(v) => self.value_at(
                    pos,
                    Request::Float,
                ) == Ok::<Value, Fault>(Value::Float32(v)),
                Err(e) => self.value_at(pos, Request::Float) == Err::<Value, Fault>(e@),
            },
    ;

    /// The double-precision number at `pos`.
    fn get_double(&self, pos: usize) -> (r: Result<F64, Error>)
        ensures
            match r {
                Ok(v) => self.value_at(
                    pos,
                    Request::Double,
                ) == Ok::<Value, Fault>(Value::Float64(v)),
                Err(e) => self.value_at(pos, Request::Double) == Err::<Value, Fault>(e@),
            },
    ;

    /// The date at `pos`.
    fn get_date(&self, pos: usize) -> (r: Result<Date, Error>)
        ensures
            match r {
                Ok(v) => self.value_at(pos, Request::Date) == Ok::<Value, Fault>(Value::Date(v)),
                Err(e) => self.value_at(pos, Request::Date) == Err::<Value, Fault>(e@),
            },
    ;

    /// The time of day at `pos`.
    fn get_time(&self, pos: usize) -> (r: Result<Time, Error>)
        ensures
            match r {
                Ok(v) => self.value_at(pos, Request::Time) == Ok::<Value, Fault>(Value::Time(v)),
                Err(e) => self.value_at(pos, Request::Time) == Err::<Value, Fault>(e@),
            },
    ;

    /// The text at `pos`.
    fn get_string(&self, pos: usize) -> (r: Result<&str, Error>)
        ensures
            match r {
                Ok(v) => self.value_at(pos, Request::Str) == Ok::<Value, Fault>(Value::Str(v@)),
                Err(e) => self.value_at(pos, Request::Str) == Err::<Value, Fault>(e@),
            },
    ;

    /// The text of a `CHAR` of this length at `pos`.
    fn get_char(&self, pos: usize, length: usize) -> (r: Result<&str, Error>)
        ensures
            match r {
                Ok(v) => self.value_at(
                    pos,
                    (Request::Char { length }),
                ) == Ok::<Value, Fault>(Value::Str(v@)),
                Err(e) => self.value_at(pos, (Request::Char { length })) == Err::<Value, Fault>(e@),
            },
    ;

    /// The bytes at `pos`.
    fn get_bytes(&self, pos: usize) -> (r: Result<&[u8], Error>)
        ensures
            match r {
                Ok(v) => self.value_at(pos, Request::Bytes) == Ok::<Value, Fault>(Value::Bytes(v@)),
                Err(e) => self.value_at(pos, Request::Bytes) == Err::<Value, Fault>(e@),
            },
    ;

    /// The bytes of a `BINARY` of this width at `pos`.
    fn get_binary(&self, pos: usize, width: usize) -> (r: Result<&[u8], Error>)
        ensures
            match r {
                Ok(v) => self.value_at(
                    pos,
                    (Request::Binary { width }),
                ) == Ok::<Value, Fault>(Value::Bytes(v@)),
                Err(e) => self.value_at(
                    pos,
                    (Request::Binary { width }),
                ) == Err::<Value, Fault>(e@),
            },
    ;

    /// The decimal of this precision and scale at `pos`.
    fn get_decimal(&self, pos: usize, precision: usize, scale: usize) -> (r: Result<Decimal, Error>)
        ensures
            match r {
                Ok(v) => self.value_at(
                    pos,
                    (Request::Decimal { precision, scale }),
                ) == Ok::<Value, Fault>(Value::Decimal(v)),
                Err(e) => self.value_at(
                    pos,
                    (Request::Decimal { precision, scale }),
                ) == Err::<Value, Fault>(e@),
            },
    ;

    /// The timestamp without time zone, of this fractional precision, at `pos`.
    fn get_timestamp_ntz(&self, pos: usize, fraction: u32) -> (r: Result<TimestampNtz, Error>)
        ensures
            match r {
                Ok(v) => self.value_at(
                    pos,
                    (Request::TimestampNtz { fraction }),
                ) == Ok::<Value, Fault>(Value::TimestampNtz(v)),
                Err(e) => self.value_at(
                    pos,
                    (Request::TimestampNtz { fraction }),
                ) == Err::<Value, Fault>(e@),
            },
    ;

    /// The timestamp with local time zone, of this fractional precision, at `pos`.
    fn get_timestamp_ltz(&self, pos: usize, fraction: u32) -> (r: Result<TimestampLtz, Error>)
        ensures
            match r {
                Ok(v) => self.value_at(
                    pos,
                    (Request::TimestampLtz { fraction }),
                ) == Ok::<Value, Fault>(Value::TimestampLtz(v)),
                Err(e) => self.value_at(
                    pos,
                    (Request::TimestampLtz { fraction }),
                ) == Err::<Value, Fault>(e@),
            },
    ;

    /// The array at `pos`.
    fn get_array(&self, pos: usize) -> (r: Result<&FlussArray, Error>)
        ensures
            match r {
                Ok(v) => self.value_at(pos, Request::Array) == Ok::<Value, Fault>(Value::Array(*v)),
                Err(e) => self.value_at(pos, Request::Array) == Err::<Value, Fault>(e@),
            },
    ;
}

/// An element of an array, taken as a row with the one position zero.
#[derive(Debug)]
pub struct ArrayElementRow<'a> {
    array: &'a FlussArray,
    index: usize,
}

impl<'a> ArrayElementRow<'a> {
    /// The array that the element belongs to.
    pub closed spec fn array(self) -> FlussArray {
        *self.array
    }

    /// The element's place in the array.
    pub closed spec fn index(self) -> usize {
        self.index
    }

    /// The element of `array` at `index`.
    pub fn new(array: &'a FlussArray, index: usize) -> (row: Self)
        ensures
            row.array() == *array,
            row.index() == index,
    {
        ArrayElementRow { array, index }
    }
}

impl<'a> InternalRow for ArrayElementRow<'a> {
    open spec fn null_at(&self, pos: usize) -> Result<bool, Fault> {
        if pos == 0 {
            Ok(self.array().null_at(self.index()))
        } else {
            Err((Refusal::ElementPosition { pos }).fault())
        }
    }

    open spec fn value_at(&self, pos: usize, request: Request) -> Result<Value, Fault> {
        if pos == 0 {
            self.array().value_at(self.index(), request)
        } else {
            Err((Refusal::ElementPosition { pos }).fault())
        }
    }

    open spec fn field_count(&self) -> nat {
        1
    }

    fn get_field_count(&self) -> usize {
        1
    }

    fn is_null_at(&self, pos: usize) -> Result<bool, Error> {
        if pos == 0 {
            Ok(self.array.is_null_at(self.index))
        } else {
            Err(Error::element_position(pos))
        }
    }

    fn get_boolean(&self, pos: usize) -> Result<bool, Error> {
        if pos == 0 {
            self.array.get_boolean(self.index)
        } else {
            Err(Error::element_position(pos))
        }
    }

    fn get_byte(&self, pos: usize) -> Result<i8, Error> {
        if pos == 0 {
            self.array.get_byte(self.index)
        } else {
            Err(Error::element_position(pos))
        }
    }

    fn get_short(&self, pos: usize) -> Result<i16, Error> {
        if pos == 0 {
            self.array.get_short(self.index)
        } else {
            Err(Error::element_position(pos))
        }
    }

    fn get_int(&self, pos: usize) -> Result<i32, Error> {
        if pos == 0 {
            self.array.get_int(self.index)
        } else {
            Err(Error::element_position(pos))
        }
    }

    fn get_long(&self, pos: usize) -> Result<i64, Error> {
        if pos == 0 {
            self.array.get_long(self.index)
        } else {
            Err(Error::element_position(pos))
        }
    }

    fn get_float(&self, pos: usize) -> Result<F32, Error> {
        if pos == 0 {
            self.array.get_float(self.index)
        } else {
            Err(Error::element_position(pos))
        }
    }

    fn get_double(&self, pos: usize) -> Result<F64, Error> {
        if pos == 0 {
            self.array.get_double(self.index)
        } else {
            Err(Error::element_position(pos))
        }
    }

    fn get_date(&self, pos: usize) -> Result<Date, Error> {
        if pos == 0 {
            self.array.get_date(self.index)
        } else {
            Err(Error::element_position(pos))
        }
    }

    fn get_time(&self, pos: usize) -> Result<Time, Error> {
        if pos == 0 {
            self.array.get_time(self.index)
        } else {
            Err(Error::element_position(pos))
        }
    }

    fn get_string(&self, pos: usize) -> Result<&str, Error> {
        if pos == 0 {
            self.array.get_string(self.index)
        } else {
            Err(Error::element_position(pos))
        }
    }

    fn get_char(&self, pos: usize, _length: usize) -> Result<&str, Error> {
        self.get_string(pos)
    }

    fn get_bytes(&self, pos: usize) -> Result<&[u8], Error> {
        if pos == 0 {
            self.array.get_binary(self.index)
        } else {
            Err(Error::element_position(pos))
        }
    }

    fn get_binary(&self, pos: usize, _width: usize) -> Result<&[u8], Error> {
        self.get_bytes(pos)
    }

    fn get_decimal(&self, pos: usize, precision: usize, scale: usize) -> Result<Decimal, Error> {
        if pos == 0 {
            self.array.get_decimal(self.index, precision as u32, scale as u32)
        } else {
            Err(Error::element_position(pos))
        }
    }

    fn get_timestamp_ntz(&self, pos: usize, fraction: u32) -> Result<TimestampNtz, Error> {
        if pos == 0 {
            self.array.get_timestamp_ntz(self.index, fraction)
        } else {
            Err(Error::element_position(pos))
        }
    }

    fn get_timestamp_ltz(&self, pos: usize, fraction: u32) -> Result<TimestampLtz, Error> {
        if pos == 0 {
            self.array.get_timestamp_ltz(self.index, fraction)
        } else {
            Err(Error::element_position(pos))
        }
    }

    fn get_array(&self, pos: usize) -> Result<&FlussArray, Error> {
        if pos == 0 {
            self.array.get_array(self.index)
        } else {
            Err(Error::element_position(pos))
        }
    }
}

/// A row that holds the values of its fields, with their types.
#[derive(Debug)]
pub struct GenericRow {
    fields: FlussArray,
}

impl GenericRow {
    /// The values of the row.
    pub closed spec fn fields(self) -> FlussArray {
        self.fields
    }

    /// The row of the given values.
    pub fn from_data(values: Vec<Datum>) -> (row: Self)
        ensures
            row.fields().elements == values,
    {
        GenericRow { fields: FlussArray { elements: values } }
    }
}

impl InternalRow for GenericRow {
    open spec fn null_at(&self, pos: usize) -> Result<bool, Fault> {
        if pos < self.fields().elements@.len() {
            Ok(self.fields().null_at(pos))
        } else {
            Err((Refusal::Position { pos }).fault())
        }
    }

    open spec fn value_at(&self, pos: usize, request: Request) -> Result<Value, Fault> {
        if pos < self.fields().elements@.len() {
            match self.fields().elements@[pos as int].value(request) {
                Some(value) => Ok(value),
                None => Err((Refusal::ValueType { pos }).fault()),
            }
        } else {
            Err((Refusal::Position { pos }).fault())
        }
    }

    open spec fn field_count(&self) -> nat {
        self.fields().elements@.len()
    }

    fn get_field_count(&self) -> usize {
        self.fields.size()
    }

    fn is_null_at(&self, pos: usize) -> Result<bool, Error> {
        if pos < self.fields.size() {
            Ok(self.fields.is_null_at(pos))
        } else {
            Err(Error::position(pos))
        }
    }

    fn get_boolean(&self, pos: usize) -> Result<bool, Error> {
        self.fields.get_boolean(pos)
    }

    fn get_byte(&self, pos: usize) -> Result<i8, Error> {
        self.fields.get_byte(pos)
    }

    fn get_short(&self, pos: usize) -> Result<i16, Error> {
        self.fields.get_short(pos)
    }

    fn get_int(&self, pos: usize) -> Result<i32, Error> {
        if pos < self.fields.size() {
            if let Datum::Int32(v) = &self.fields.elements[pos] {
                return Ok(*v);
            }
        }
        Err(self.fields.refusal(pos))
    }

    fn get_long(&self, pos: usize) -> Result<i64, Error> {
        self.fields.get_long(pos)
    }

    fn get_float(&self, pos: usize) -> Result<F32, Error> {
        self.fields.get_float(pos)
    }

    fn get_double(&self, pos: usize) -> Result<F64, Error> {
        self.fields.get_double(pos)
    }

    fn get_date(&self, pos: usize) -> Result<Date, Error> {
        if pos < self.fields.size() {
            if let Datum::Date(v) = &self.fields.elements[pos] {
                return Ok(*v);
            }
        }
        Err(self.fields.refusal(pos))
    }

    fn get_time(&self, pos: usize) -> Result<Time, Error> {
        if pos < self.fields.size() {
            if let Datum::Time(v) = &self.fields.elements[pos] {
                return Ok(*v);
            }
        }
        Err(self.fields.refusal(pos))
    }

    fn get_string(&self, pos: usize) -> Result<&str, Error> {
        self.fields.get_string(pos)
    }

    fn get_char(&self, pos: usize, _length: usize) -> Result<&str, Error> {
        self.fields.get_string(pos)
    }

    fn get_bytes(&self, pos: usize) -> Result<&[u8], Error> {
        self.fields.get_binary(pos)
    }

    fn get_binary(&self, pos: usize, _width: usize) -> Result<&[u8], Error> {
        self.fields.get_binary(pos)
    }

    fn get_decimal(&self, pos: usize, precision: usize, scale: usize) -> Result<Decimal, Error> {
        self.fields.get_decimal(pos, precision as u32, scale as u32)
    }

    fn get_timestamp_ntz(&self, pos: usize, _fraction: u32) -> Result<TimestampNtz, Error> {
        if pos < self.fields.size() {
            if let Datum::TimestampNtz(v) = &self.fields.elements[pos] {
                return Ok(*v);
            }
        }
        Err(self.fields.refusal(pos))
    }

    fn get_timestamp_ltz(&self, pos: usize, _fraction: u32) -> Result<TimestampLtz, Error> {
        if pos < self.fields.size() {
            if let Datum::TimestampLtz(v) = &self.fields.elements[pos] {
                return Ok(*v);
            }
        }
        Err(self.fields.refusal(pos))
    }

    fn get_array(&self, pos: usize) -> Result<&FlussArray, Error> {
        self.fields.get_array(pos)
    }
}

} // verus!
