//! Which values a scalar column asks a row for, and what it stores of them.
use crate::builders;
use crate::builders::{BoxedBuilder, BuilderShape, Cell, ScalarType};
use crate::error;
use crate::error::{Error, Failure, Fault};
use crate::row::{InternalRow, Request, Value};
use crate::values;
use crate::values::{F32, F64, MICROS_PER_MILLI, MILLIS_PER_SECOND, NANOS_PER_MILLI};
use vstd::prelude::*;

verus! {

/// A scalar column: a logical type together with the Arrow type that it is stored as.
#[derive(Clone, Copy, Debug, PartialEq, Eq, Structural)]
pub enum ScalarKind {
    Bool,
    Int8,
    Int16,
    Int32,
    Int64,
    Float32,
    Float64,
    Char { len: usize },
    String,
    Bytes,
    Binary { width: i32 },
    Decimal128 {
        src_precision: usize,
        src_scale: usize,
        target_precision: u8,
        target_scale: i8,
    },
    Date32,
    Time32Second,
    Time32Millisecond,
    Time64Microsecond,
    Time64Nanosecond,
    TimestampNtzSecond { precision: u32 },
    TimestampNtzMillisecond { precision: u32 },
    TimestampNtzMicrosecond { precision: u32 },
    TimestampNtzNanosecond { precision: u32 },
    TimestampLtzSecond { precision: u32 },
    TimestampLtzMillisecond { precision: u32 },
    TimestampLtzMicrosecond { precision: u32 },
    TimestampLtzNanosecond { precision: u32 },
}

/// The time of day in milliseconds as one in seconds, which it must be exactly.
pub open spec fn whole_seconds(millis: i32) -> Result<int, Fault> {
    if millis as int % MILLIS_PER_SECOND as int == 0 {
        Ok(millis as int / MILLIS_PER_SECOND as int)
    } else {
        Err((Failure::SubSecondTime { millis }).fault())
    }
}

/// A number as a cell.
pub open spec fn int_cell(r: Result<int, Fault>) -> Result<Cell, Fault> {
    match r {
        Ok(x) => Ok(Cell::Int(x)),
        Err(e) => Err(e),
    }
}

impl ScalarKind {
    /// Whether the width of the values is one that values can have.
    pub open spec fn wf(self) -> bool {
        self.spec_ty().wf()
    }

    /// The Arrow type of the column.
    pub open spec fn spec_ty(self) -> ScalarType {
        match self {
            ScalarKind::Bool => ScalarType::Boolean,
            ScalarKind::Int8 => ScalarType::Int8,
            ScalarKind::Int16 => ScalarType::Int16,
            ScalarKind::Int32 => ScalarType::Int32,
            ScalarKind::Int64 => ScalarType::Int64,
            ScalarKind::Float32 => ScalarType::Float32,
            ScalarKind::Float64 => ScalarType::Float64,
            ScalarKind::Char { .. } => ScalarType::Utf8,
            ScalarKind::String => ScalarType::Utf8,
            ScalarKind::Bytes => ScalarType::Binary,
            ScalarKind::Binary { width } => ScalarType::FixedSizeBinary { width },
            ScalarKind::Decimal128 { target_precision, target_scale, .. } => {
                ScalarType::Decimal128 { precision: target_precision, scale: target_scale }
            },
            ScalarKind::Date32 => ScalarType::Date32,
            ScalarKind::Time32Second => ScalarType::Time32Second,
            ScalarKind::Time32Millisecond => ScalarType::Time32Millisecond,
            ScalarKind::Time64Microsecond => ScalarType::Time64Microsecond,
            ScalarKind::Time64Nanosecond => ScalarType::Time64Nanosecond,
            ScalarKind::TimestampNtzSecond { .. } => ScalarType::TimestampSecond,
            ScalarKind::TimestampNtzMillisecond { .. } => ScalarType::TimestampMillisecond,
            ScalarKind::TimestampNtzMicrosecond { .. } => ScalarType::TimestampMicrosecond,
            ScalarKind::TimestampNtzNanosecond { .. } => ScalarType::TimestampNanosecond,
            ScalarKind::TimestampLtzSecond { .. } => ScalarType::TimestampSecond,
            ScalarKind::TimestampLtzMillisecond { .. } => ScalarType::TimestampMillisecond,
            ScalarKind::TimestampLtzMicrosecond { .. } => ScalarType::TimestampMicrosecond,
            ScalarKind::TimestampLtzNanosecond { .. } => ScalarType::TimestampNanosecond,
        }
    }

    /// The Arrow type of the column.
    pub fn ty(self) -> (ty: ScalarType)
        ensures
            ty == self.spec_ty(),
    {
        match self {
            ScalarKind::Bool => ScalarType::Boolean,
            ScalarKind::Int8 => ScalarType::Int8,
            ScalarKind::Int16 => ScalarType::Int16,
            ScalarKind::Int32 => ScalarType::Int32,
            ScalarKind::Int64 => ScalarType::Int64,
            ScalarKind::Float32 => ScalarType::Float32,
            ScalarKind::Float64 => ScalarType::Float64,
            ScalarKind::Char { .. } => ScalarType::Utf8,
            ScalarKind::String => ScalarType::Utf8,
            ScalarKind::Bytes => ScalarType::Binary,
            ScalarKind::Binary { width } => ScalarType::FixedSizeBinary { width },
            ScalarKind::Decimal128 { target_precision, target_scale, .. } => {
                ScalarType::Decimal128 { precision: target_precision, scale: target_scale }
            },
            ScalarKind::Date32 => ScalarType::Date32,
            ScalarKind::Time32Second => ScalarType::Time32Second,
            ScalarKind::Time32Millisecond => ScalarType::Time32Millisecond,
            ScalarKind::Time64Microsecond => ScalarType::Time64Microsecond,
            ScalarKind::Time64Nanosecond => ScalarType::Time64Nanosecond,
            ScalarKind::TimestampNtzSecond { .. } => ScalarType::TimestampSecond,
            ScalarKind::TimestampNtzMillisecond { .. } => ScalarType::TimestampMillisecond,
            ScalarKind::TimestampNtzMicrosecond { .. } => ScalarType::TimestampMicrosecond,
            ScalarKind::TimestampNtzNanosecond { .. } => ScalarType::TimestampNanosecond,
            ScalarKind::TimestampLtzSecond { .. } => ScalarType::TimestampSecond,
            ScalarKind::TimestampLtzMillisecond { .. } => ScalarType::TimestampMillisecond,
            ScalarKind::TimestampLtzMicrosecond { .. } => ScalarType::TimestampMicrosecond,
            ScalarKind::TimestampLtzNanosecond { .. } => ScalarType::TimestampNanosecond,
        }
    }

    /// What the column asks a row for.
    pub open spec fn request(self) -> Request {
        match self {
            ScalarKind::Bool => Request::Boolean,
            ScalarKind::Int8 => Request::Byte,
            ScalarKind::Int16 => Request::Short,
            ScalarKind::Int32 => Request::Int,
            ScalarKind::Int64 => Request::Long,
            ScalarKind::Float32 => Request::Float,
            ScalarKind::Float64 => Request::Double,
            ScalarKind::Char { len } => Request::Char { length: len },
            ScalarKind::String => Request::Str,
            ScalarKind::Bytes => Request::Bytes,
            ScalarKind::Binary { width } => Request::Binary { width: width as usize },
            ScalarKind::Decimal128 { src_precision, src_scale, .. } => Request::Decimal {
                precision: src_precision,
                scale: src_scale,
            },
            ScalarKind::Date32 => Request::Date,
            ScalarKind::Time32Second => Request::Time,
            ScalarKind::Time32Millisecond => Request::Time,
            ScalarKind::Time64Microsecond => Request::Time,
            ScalarKind::Time64Nanosecond => Request::Time,
            ScalarKind::TimestampNtzSecond { precision } => Request::TimestampNtz {
                fraction: precision,
            },
            ScalarKind::TimestampNtzMillisecond { precision } => Request::TimestampNtz {
                fraction: precision,
            },
            ScalarKind::TimestampNtzMicrosecond { precision } => Request::TimestampNtz {
                fraction: precision,
            },
            ScalarKind::TimestampNtzNanosecond { precision } => Request::TimestampNtz {
                fraction: precision,
            },
            ScalarKind::TimestampLtzSecond { precision } => Request::TimestampLtz {
                fraction: precision,
            },
            ScalarKind::TimestampLtzMillisecond { precision } => Request::TimestampLtz {
                fraction: precision,
            },
            ScalarKind::TimestampLtzMicrosecond { precision } => Request::TimestampLtz {
                fraction: precision,
            },
            ScalarKind::TimestampLtzNanosecond { precision } => Request::TimestampLtz {
                fraction: precision,
            },
        }
    }

    /// What the column stores of a value of the type that it asks for.
    pub open spec fn convert(self, value: Value) -> Result<Cell, Fault> {
        match (self, value) {
            (ScalarKind::Bool, Value::Bool(v)) => Ok(Cell::Bool(v)),
            (ScalarKind::Int8, Value::Int8(v)) => Ok(Cell::Int(v as int)),
            (ScalarKind::Int16, Value::Int16(v)) => Ok(Cell::Int(v as int)),
            (ScalarKind::Int32, Value::Int32(v)) => Ok(Cell::Int(v as int)),
            (ScalarKind::Int64, Value::Int64(v)) => Ok(Cell::Int(v as int)),
            (ScalarKind::Float32, Value::Float32(v)) => Ok(Cell::Float32(v)),
            (ScalarKind::Float64, Value::Float64(v)) => Ok(Cell::Float64(v)),
            (ScalarKind::Char { .. }, Value::Str(v)) => Ok(Cell::Str(v)),
            (ScalarKind::String, Value::Str(v)) => Ok(Cell::Str(v)),
            (ScalarKind::Bytes, Value::Bytes(v)) => Ok(Cell::Bytes(v)),
            (ScalarKind::Binary { width }, Value::Bytes(v)) => if v.len() == width {
                Ok(Cell::Bytes(v))
            } else {
                Err(Failure::BinaryWidth.fault())
            },
            (
                ScalarKind::Decimal128 { target_precision, target_scale, .. },
                Value::Decimal(v),
            ) => int_cell(
                values::spec_decimal_to_unscaled(v, target_precision as u32, target_scale as i64),
            ),
            (ScalarKind::Date32, Value::Date(v)) => Ok(Cell::Int(v.days as int)),
            (ScalarKind::Time32Second, Value::Time(v)) => int_cell(whole_seconds(v.millis)),
            (ScalarKind::Time32Millisecond, Value::Time(v)) => Ok(Cell::Int(v.millis as int)),
            (ScalarKind::Time64Microsecond, Value::Time(v)) => Ok(
                Cell::Int(v.millis * MICROS_PER_MILLI),
            ),
            (ScalarKind::Time64Nanosecond, Value::Time(v)) => Ok(
                Cell::Int(v.millis * NANOS_PER_MILLI),
            ),
            (ScalarKind::TimestampNtzSecond { .. }, Value::TimestampNtz(v)) => Ok(
                Cell::Int(
                    values::truncated_quotient(v.millisecond as int, MILLIS_PER_SECOND as int),
                ),
            ),
            (ScalarKind::TimestampNtzMillisecond { .. }, Value::TimestampNtz(v)) => Ok(
                Cell::Int(v.millisecond as int),
            ),
            (ScalarKind::TimestampNtzMicrosecond { .. }, Value::TimestampNtz(v)) => int_cell(
                values::spec_millis_nanos_to_micros(v.millisecond, v.nano_of_millisecond),
            ),
            (ScalarKind::TimestampNtzNanosecond { .. }, Value::TimestampNtz(v)) => int_cell(
                values::spec_millis_nanos_to_nanos(v.millisecond, v.nano_of_millisecond),
            ),
            (ScalarKind::TimestampLtzSecond { .. }, Value::TimestampLtz(v)) => Ok(
                Cell::Int(
                    values::truncated_quotient(
                        v.epoch_millisecond as int,
                        MILLIS_PER_SECOND as int,
                    ),
                ),
            ),
            (ScalarKind::TimestampLtzMillisecond { .. }, Value::TimestampLtz(v)) => Ok(
                Cell::Int(v.epoch_millisecond as int),
            ),
            (ScalarKind::TimestampLtzMicrosecond { .. }, Value::TimestampLtz(v)) => int_cell(
                values::spec_millis_nanos_to_micros(v.epoch_millisecond, v.nano_of_millisecond),
            ),
            (ScalarKind::TimestampLtzNanosecond { .. }, Value::TimestampLtz(v)) => int_cell(
                values::spec_millis_nanos_to_nanos(v.epoch_millisecond, v.nano_of_millisecond),
            ),
            _ => arbitrary(),
        }
    }

    /// What the column stores for what a row answers.
    pub open spec fn cell(self, answer: Result<Value, Fault>) -> Result<Cell, Fault> {
        match answer {
            Ok(value) => self.convert(value),
            Err(e) => Err(e),
        }
    }
}

/// A value as a scalar column stores it.
#[derive(Clone, Copy, Debug)]
pub enum ScalarValue<'a> {
    Bool(bool),
    Int8(i8),
    Int16(i16),
    Int32(i32),
    Int64(i64),
    Int128(i128),
    Float32(F32),
    Float64(F64),
    Str(&'a str),
    Bytes(&'a [u8]),
}

impl<'a> ScalarValue<'a> {
    /// The value as a cell.
    pub open spec fn cell(self) -> Cell {
        match self {
            ScalarValue::Bool(v) => Cell::Bool(v),
            ScalarValue::Int8(v) => Cell::Int(v as int),
            ScalarValue::Int16(v) => Cell::Int(v as int),
            ScalarValue::Int32(v) => Cell::Int(v as int),
            ScalarValue::Int64(v) => Cell::Int(v as int),
            ScalarValue::Int128(v) => Cell::Int(v as int),
            ScalarValue::Float32(v) => Cell::Float32(v),
            ScalarValue::Float64(v) => Cell::Float64(v),
            ScalarValue::Str(v) => Cell::Str(v@),
            ScalarValue::Bytes(v) => Cell::Bytes(v@),
        }
    }

    /// Whether a column of the given type stores such values.
    pub open spec fn suits(self, ty: ScalarType) -> bool {
        match ty {
            ScalarType::Boolean => self is Bool,
            ScalarType::Int8 => self is Int8,
            ScalarType::Int16 => self is Int16,
            ScalarType::Int32 | ScalarType::Date32 | ScalarType::Time32Second
            | ScalarType::Time32Millisecond => self is Int32,
            ScalarType::Int64 | ScalarType::Time64Microsecond | ScalarType::Time64Nanosecond
            | ScalarType::TimestampSecond | ScalarType::TimestampMillisecond
            | ScalarType::TimestampMicrosecond | ScalarType::TimestampNanosecond => self is Int64,
            ScalarType::Float32 => self is Float32,
            ScalarType::Float64 => self is Float64,
            ScalarType::Utf8 => self is Str,
            ScalarType::Binary => self is Bytes,
            ScalarType::FixedSizeBinary { width } => self matches ScalarValue::Bytes(v)
                && v@.len() == width,
            ScalarType::Decimal128 { .. } => self is Int128,
        }
    }
}

/// Reads the value at `pos` of a row as the column stores it.
pub fn read_scalar<'a, R: InternalRow + ?Sized>(
    kind: ScalarKind,
    row: &'a R,
    pos: usize,
) -> (r: Result<ScalarValue<'a>, Error>)
    requires
        kind.wf(),
    ensures
        match r {
            Ok(v) => kind.cell(row.value_at(pos, kind.request())) == Ok::<Cell, Fault>(v.cell())
                && v.suits(kind.spec_ty()),
            Err(e) => kind.cell(row.value_at(pos, kind.request())) == Err::<Cell, Fault>(e@),
        },
{
    let value = match kind {
        ScalarKind::Bool => ScalarValue::Bool(row.get_boolean(pos)?),
        ScalarKind::Int8 => ScalarValue::Int8(row.get_byte(pos)?),
        ScalarKind::Int16 => ScalarValue::Int16(row.get_short(pos)?),
        ScalarKind::Int32 => ScalarValue::Int32(row.get_int(pos)?),
        ScalarKind::Int64 => ScalarValue::Int64(row.get_long(pos)?),
        ScalarKind::Float32 => ScalarValue::Float32(row.get_float(pos)?),
        ScalarKind::Float64 => ScalarValue::Float64(row.get_double(pos)?),
        ScalarKind::Char { len } => ScalarValue::Str(row.get_char(pos, len)?),
        ScalarKind::String => ScalarValue::Str(row.get_string(pos)?),
        ScalarKind::Bytes => ScalarValue::Bytes(row.get_bytes(pos)?),
        ScalarKind::Binary { width } => {
            let v = row.get_binary(pos, width as usize)?;
            if v.len() != width as usize {
                return Err(Error::binary_width());
            }
            ScalarValue::Bytes(v)
        },
        ScalarKind::Decimal128 { src_precision, src_scale, target_precision, target_scale } => {
            let v = row.get_decimal(pos, src_precision, src_scale)?;
            ScalarValue::Int128(
                values::decimal_to_unscaled(&v, target_precision as u32, target_scale as i64)?,
            )
        },
        ScalarKind::Date32 => ScalarValue::Int32(row.get_date(pos)?.days),
        ScalarKind::Time32Second => {
            let millis: i32 = row.get_time(pos)?.millis;
            if millis % MILLIS_PER_SECOND as i32 != 0 {
                return Err(Error::sub_second_time(millis));
            }
            ScalarValue::Int32(millis / MILLIS_PER_SECOND as i32)
        },
        ScalarKind::Time32Millisecond => ScalarValue::Int32(row.get_time(pos)?.millis),
        ScalarKind::Time64Microsecond => {
            ScalarValue::Int64(row.get_time(pos)?.millis as i64 * MICROS_PER_MILLI)
        },
        ScalarKind::Time64Nanosecond => {
            ScalarValue::Int64(row.get_time(pos)?.millis as i64 * NANOS_PER_MILLI)
        },
        ScalarKind::TimestampNtzSecond { precision } => {
            let v = row.get_timestamp_ntz(pos, precision)?;
            ScalarValue::Int64(v.millisecond / MILLIS_PER_SECOND)
        },
        ScalarKind::TimestampNtzMillisecond { precision } => {
            let v = row.get_timestamp_ntz(pos, precision)?;
            ScalarValue::Int64(v.millisecond)
        },
        ScalarKind::TimestampNtzMicrosecond { precision } => {
            let v = row.get_timestamp_ntz(pos, precision)?;
            ScalarValue::Int64(
                values::millis_nanos_to_micros(v.millisecond, v.nano_of_millisecond)?,
            )
        },
        ScalarKind::TimestampNtzNanosecond { precision } => {
            let v = row.get_timestamp_ntz(pos, precision)?;
            ScalarValue::Int64(
                values::millis_nanos_to_nanos(v.millisecond, v.nano_of_millisecond)?,
            )
        },
        ScalarKind::TimestampLtzSecond { precision } => {
            let v = row.get_timestamp_ltz(pos, precision)?;
            ScalarValue::Int64(v.epoch_millisecond / MILLIS_PER_SECOND)
        },
        ScalarKind::TimestampLtzMillisecond { precision } => {
            let v = row.get_timestamp_ltz(pos, precision)?;
            ScalarValue::Int64(v.epoch_millisecond)
        },
        ScalarKind::TimestampLtzMicrosecond { precision } => {
            let v = row.get_timestamp_ltz(pos, precision)?;
            ScalarValue::Int64(
                values::millis_nanos_to_micros(v.epoch_millisecond, v.nano_of_millisecond)?,
            )
        },
        ScalarKind::TimestampLtzNanosecond { precision } => {
            let v = row.get_timestamp_ltz(pos, precision)?;
            ScalarValue::Int64(
                values::millis_nanos_to_nanos(v.epoch_millisecond, v.nano_of_millisecond)?,
            )
        },
    };
    Ok(value)
}

/// Appends a value to a builder of a type that stores it.
pub fn append_scalar(ty: ScalarType, b: &mut BoxedBuilder, value: ScalarValue<'_>)
    requires
        builders::builder_shape(*old(b)) == BuilderShape::Scalar(ty),
        value.suits(ty),
        ty.fits(builders::builder_cells(*old(b)).push(Some(value.cell()))),
    ensures
        builders::appended(*old(b), *final(b), Some(value.cell())),
{
    proof {
        builders::lemma_byte_total_push(builders::builder_cells(*b), Some(value.cell()));
    }
    match (ty, value) {
        (ScalarType::Boolean, ScalarValue::Bool(v)) => {
            builders::append_boolean(b, Some(v));
        },
        (ScalarType::Int8, ScalarValue::Int8(v)) => {
            builders::append_int8(b, Some(v));
        },
        (ScalarType::Int16, ScalarValue::Int16(v)) => {
            builders::append_int16(b, Some(v));
        },
        (ScalarType::Int32, ScalarValue::Int32(v)) => {
            builders::append_int32(b, Some(v));
        },
        (ScalarType::Int64, ScalarValue::Int64(v)) => {
            builders::append_int64(b, Some(v));
        },
        (ScalarType::Float32, ScalarValue::Float32(v)) => {
            builders::append_float32(b, Some(v));
        },
        (ScalarType::Float64, ScalarValue::Float64(v)) => {
            builders::append_float64(b, Some(v));
        },
        (ScalarType::Utf8, ScalarValue::Str(v)) => {
            builders::append_utf8(b, Some(v));
        },
        (ScalarType::Binary, ScalarValue::Bytes(v)) => {
            builders::append_binary(b, Some(v));
        },
        (ScalarType::Decimal128 { .. }, ScalarValue::Int128(v)) => {
            builders::append_decimal128(b, Some(v));
        },
        (ScalarType::Date32, ScalarValue::Int32(v)) => {
            builders::append_date32(b, Some(v));
        },
        (ScalarType::Time32Second, ScalarValue::Int32(v)) => {
            builders::append_time32_second(b, Some(v));
        },
        (ScalarType::Time32Millisecond, ScalarValue::Int32(v)) => {
            builders::append_time32_millisecond(b, Some(v));
        },
        (ScalarType::Time64Microsecond, ScalarValue::Int64(v)) => {
            builders::append_time64_microsecond(b, Some(v));
        },
        (ScalarType::Time64Nanosecond, ScalarValue::Int64(v)) => {
            builders::append_time64_nanosecond(b, Some(v));
        },
        (ScalarType::TimestampSecond, ScalarValue::Int64(v)) => {
            builders::append_timestamp_second(b, Some(v));
        },
        (ScalarType::TimestampMillisecond, ScalarValue::Int64(v)) => {
            builders::append_timestamp_millisecond(b, Some(v));
        },
        (ScalarType::TimestampMicrosecond, ScalarValue::Int64(v)) => {
            builders::append_timestamp_microsecond(b, Some(v));
        },
        (ScalarType::TimestampNanosecond, ScalarValue::Int64(v)) => {
            builders::append_timestamp_nanosecond(b, Some(v));
        },
        (ScalarType::FixedSizeBinary { .. }, ScalarValue::Bytes(v)) => {
            let appended = builders::append_fixed_size_binary(b, v);
            assert(appended is Ok);
        },
        _ => {
            assert(false);
        },
    }
}

/// Reads the value at `pos` of a row and appends what the column stores of it. Where the row has no
/// such value, or the value does not convert, nothing is appended.
pub fn write_scalar<R: InternalRow + ?Sized>(
    kind: ScalarKind,
    b: &mut BoxedBuilder,
    row: &R,
    pos: usize,
) -> (r: Result<(), Error>)
    requires
        builders::builder_shape(*old(b)) == BuilderShape::Scalar(kind.spec_ty()),
        kind.wf(),
        kind.cell(row.value_at(pos, kind.request())) matches Ok(cell) ==> kind.spec_ty().fits(
            builders::builder_cells(*old(b)).push(Some(cell)),
        ),
    ensures
        match kind.cell(row.value_at(pos, kind.request())) {
            Ok(cell) => error::told(r) == Ok::<(), Fault>(()) && builders::appended(
                *old(b),
                *final(b),
                Some(cell),
            ),
            Err(e) => error::told(r) == Err::<(), Fault>(e) && builders::unchanged(
                *old(b),
                *final(b),
            ),
        },
{
    let value = read_scalar(kind, row, pos)?;
    append_scalar(kind.ty(), b, value);
    Ok(())
}

} // verus!
