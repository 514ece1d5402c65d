//! Columns of the Arrow types that have no children: making their builders, appending nulls, and
//! the size of their buffers.
use crate::builders;
use crate::builders::{BoxedBuilder, BuilderRef, BuilderShape, Cell, ScalarType};
use crate::error::{Error, Fault, Refusal};
use vstd::prelude::*;

verus! {

/// The least multiple of 8 that is not below `n`.
pub open spec fn padded(n: nat) -> nat {
    (n + 7) / 8 * 8
}

/// Rounds up to a multiple of 8, the alignment of Arrow's buffers.
pub fn round_up_to_8(n: usize) -> (r: usize)
    requires
        n + 7 <= usize::MAX,
    ensures
        r == padded(n as nat),
{
    let m: usize = n + 7;
    assert(m & !7usize == (m / 8) * 8) by (bit_vector);
    m & !7
}

impl ScalarType {
    /// Whether the width of the values is one that values can have.
    pub open spec fn wf(self) -> bool {
        self matches ScalarType::FixedSizeBinary { width } ==> width >= 0
    }

    /// The number of bytes of a number.
    pub open spec fn value_bytes(self) -> nat {
        match self {
            ScalarType::Int8 => 1,
            ScalarType::Int16 => 2,
            ScalarType::Int32 | ScalarType::Float32 | ScalarType::Date32
            | ScalarType::Time32Second | ScalarType::Time32Millisecond => 4,
            ScalarType::Decimal128 { .. } => 16,
            _ => 8,
        }
    }

    /// Whether `cells` can stand in a builder of this type: offsets reach the end of their bytes.
    pub open spec fn fits(self, cells: Seq<Option<Cell>>) -> bool {
        builders::offsets_reach(self, cells)
    }

    /// Whether a builder with this capacity, and room for this many bytes where the type has
    /// offsets, can be asked for: none of its buffers exceeds what an allocation can have.
    pub open spec fn can_reserve(self, capacity: usize, bytes: int) -> bool {
        match self {
            ScalarType::Boolean => true,
            ScalarType::Utf8 | ScalarType::Binary => (capacity + 1) * 4 <= isize::MAX && bytes
                <= isize::MAX,
            ScalarType::FixedSizeBinary { width } => 0 <= width && capacity * width <= isize::MAX,
            _ => capacity * self.value_bytes() <= isize::MAX,
        }
    }

    /// Whether Arrow has a column of this type: it does unless it is a decimal whose precision and
    /// scale it does not admit.
    pub open spec fn admitted(self) -> Result<ScalarType, Fault> {
        match self {
            ScalarType::Decimal128 { precision, scale } if !builders::valid_decimal(
                precision,
                scale,
            ) => Err((Refusal::InvalidDecimal { precision, scale }).fault()),
            _ => Ok(self),
        }
    }

    /// The number of bytes of the buffers of a column without validity: offsets, where the type has
    /// them, then values. Each is padded by itself.
    pub open spec fn value_buffer_bytes(self, cells: Seq<Option<Cell>>) -> nat {
        let n = cells.len();
        match self {
            ScalarType::Boolean => padded(builders::bitmap_bytes(n)),
            ScalarType::Utf8 | ScalarType::Binary => padded((n + 1) * 4) + padded(
                builders::byte_total(cells),
            ),
            ScalarType::FixedSizeBinary { width } => padded((n * width) as nat),
            _ => padded(n * self.value_bytes()),
        }
    }

    /// The number of bytes of the buffers of a column. There is a validity bitmap where there is a
    /// null.
    pub open spec fn buffer_bytes(self, cells: Seq<Option<Cell>>) -> nat {
        padded(bitmap_size(cells.contains(None), cells.len())) + self.value_buffer_bytes(cells)
    }
}

/// The number of bytes of a validity bitmap, which is there once there is a null.
pub open spec fn bitmap_size(nulls: bool, n: nat) -> nat {
    match builders::bitmap_for(nulls, n) {
        Some(bytes) => bytes,
        None => 0,
    }
}

/// An empty builder of the given type, with the given capacity and, where the type has offsets,
/// room for the given number of bytes.
pub fn new_builder(ty: ScalarType, capacity: usize, bytes: usize) -> (r: Result<
    BoxedBuilder,
    Error,
>)
    requires
        ty.can_reserve(capacity, bytes as int),
    ensures
        match r {
            Ok(b) => ty.admitted() == Ok::<ScalarType, Fault>(ty) && builders::is_new(b, ty),
            Err(e) => ty.admitted() == Err::<ScalarType, Fault>(e@),
        },
{
    let builder = match ty {
        ScalarType::Boolean => builders::boolean_builder(capacity),
        ScalarType::Int8 => builders::int8_builder(capacity),
        ScalarType::Int16 => builders::int16_builder(capacity),
        ScalarType::Int32 => builders::int32_builder(capacity),
        ScalarType::Int64 => builders::int64_builder(capacity),
        ScalarType::Float32 => builders::float32_builder(capacity),
        ScalarType::Float64 => builders::float64_builder(capacity),
        ScalarType::Utf8 => builders::utf8_builder(capacity, bytes),
        ScalarType::Binary => builders::binary_builder(capacity, bytes),
        ScalarType::FixedSizeBinary { width } => {
            builders::fixed_size_binary_builder(capacity, width)
        },
        ScalarType::Decimal128 { precision, scale } => {
            match builders::decimal128_builder(capacity, precision, scale) {
                Ok(b) => b,
                Err(reason) => {
                    return Err(Error::invalid_decimal(precision, scale, reason.as_str()));
                },
            }
        },
        ScalarType::Date32 => builders::date32_builder(capacity),
        ScalarType::Time32Second => builders::time32_second_builder(capacity),
        ScalarType::Time32Millisecond => builders::time32_millisecond_builder(capacity),
        ScalarType::Time64Microsecond => builders::time64_microsecond_builder(capacity),
        ScalarType::Time64Nanosecond => builders::time64_nanosecond_builder(capacity),
        ScalarType::TimestampSecond => builders::timestamp_second_builder(capacity),
        ScalarType::TimestampMillisecond => builders::timestamp_millisecond_builder(capacity),
        ScalarType::TimestampMicrosecond => builders::timestamp_microsecond_builder(capacity),
        ScalarType::TimestampNanosecond => builders::timestamp_nanosecond_builder(capacity),
    };
    Ok(builder)
}

/// Appends a null to a builder of the given type.
pub fn append_scalar_null(b: &mut BoxedBuilder, ty: ScalarType)
    requires
        builders::builder_shape(*old(b)) == BuilderShape::Scalar(ty),
        ty.fits(builders::builder_cells(*old(b))),
    ensures
        builders::appended(*old(b), *final(b), None),
{
    match ty {
        ScalarType::Boolean => builders::append_boolean(b, None),
        ScalarType::Int8 => builders::append_int8(b, None),
        ScalarType::Int16 => builders::append_int16(b, None),
        ScalarType::Int32 => builders::append_int32(b, None),
        ScalarType::Int64 => builders::append_int64(b, None),
        ScalarType::Float32 => builders::append_float32(b, None),
        ScalarType::Float64 => builders::append_float64(b, None),
        ScalarType::Utf8 => builders::append_utf8(b, None),
        ScalarType::Binary => builders::append_binary(b, None),
        ScalarType::FixedSizeBinary { .. } => builders::append_fixed_size_binary_null(b),
        ScalarType::Decimal128 { .. } => builders::append_decimal128(b, None),
        ScalarType::Date32 => builders::append_date32(b, None),
        ScalarType::Time32Second => builders::append_time32_second(b, None),
        ScalarType::Time32Millisecond => builders::append_time32_millisecond(b, None),
        ScalarType::Time64Microsecond => builders::append_time64_microsecond(b, None),
        ScalarType::Time64Nanosecond => builders::append_time64_nanosecond(b, None),
        ScalarType::TimestampSecond => builders::append_timestamp_second(b, None),
        ScalarType::TimestampMillisecond => builders::append_timestamp_millisecond(b, None),
        ScalarType::TimestampMicrosecond => builders::append_timestamp_microsecond(b, None),
        ScalarType::TimestampNanosecond => builders::append_timestamp_nanosecond(b, None),
    }
}

/// The padded length of a validity bitmap.
pub fn validity_size(length: Option<usize>) -> (r: usize)
    requires
        length matches Some(n) ==> padded(n as nat) <= usize::MAX,
    ensures
        r == padded(
            match length {
                Some(n) => n as nat,
                None => 0,
            },
        ),
{
    match length {
        Some(n) => round_up_to_8(n),
        None => 0,
    }
}

/// The padded lengths of a validity bitmap and of `n` values of `width` bytes each.
fn primitive_size(lengths: (Option<usize>, usize), width: usize) -> (r: usize)
    requires
        padded(
            match lengths.0 {
                Some(n) => n as nat,
                None => 0,
            },
        ) + padded((lengths.1 * width) as nat) <= usize::MAX,
    ensures
        r == padded(
            match lengths.0 {
                Some(n) => n as nat,
                None => 0,
            },
        ) + padded((lengths.1 * width) as nat),
{
    validity_size(lengths.0) + round_up_to_8(lengths.1 * width)
}

/// The padded lengths of a validity bitmap, of offsets and of the bytes that they cut.
fn var_width_size(lengths: (Option<usize>, usize, usize)) -> (r: usize)
    requires
        padded(
            match lengths.0 {
                Some(n) => n as nat,
                None => 0,
            },
        ) + padded((lengths.1 * 4) as nat) + padded(lengths.2 as nat) <= usize::MAX,
    ensures
        r == padded(
            match lengths.0 {
                Some(n) => n as nat,
                None => 0,
            },
        ) + padded((lengths.1 * 4) as nat) + padded(lengths.2 as nat),
{
    validity_size(lengths.0) + round_up_to_8(lengths.1 * 4) + round_up_to_8(lengths.2)
}

/// The number of bytes of the buffers of a builder of the given type.
pub fn scalar_buffer_size(b: &BuilderRef, ty: ScalarType) -> (r: usize)
    requires
        builders::viewed_type(*b) == ty,
        ty.buffer_bytes(builders::viewed_cells(*b)) <= usize::MAX,
    ensures
        r == ty.buffer_bytes(builders::viewed_cells(*b)),
{
    match ty {
        ScalarType::Boolean => primitive_size(builders::boolean_lengths(b), 1),
        ScalarType::Int8 => primitive_size(builders::int8_lengths(b), 1),
        ScalarType::Int16 => primitive_size(builders::int16_lengths(b), 2),
        ScalarType::Int32 => primitive_size(builders::int32_lengths(b), 4),
        ScalarType::Int64 => primitive_size(builders::int64_lengths(b), 8),
        ScalarType::Float32 => primitive_size(builders::float32_lengths(b), 4),
        ScalarType::Float64 => primitive_size(builders::float64_lengths(b), 8),
        ScalarType::Utf8 => var_width_size(builders::utf8_lengths(b)),
        ScalarType::Binary => var_width_size(builders::binary_lengths(b)),
        ScalarType::FixedSizeBinary { .. } => {
            primitive_size(builders::fixed_size_binary_lengths(b), 1)
        },
        ScalarType::Decimal128 { .. } => primitive_size(builders::decimal128_lengths(b), 16),
        ScalarType::Date32 => primitive_size(builders::date32_lengths(b), 4),
        ScalarType::Time32Second => primitive_size(builders::time32_second_lengths(b), 4),
        ScalarType::Time32Millisecond => primitive_size(builders::time32_millisecond_lengths(b), 4),
        ScalarType::Time64Microsecond => primitive_size(builders::time64_microsecond_lengths(b), 8),
        ScalarType::Time64Nanosecond => primitive_size(builders::time64_nanosecond_lengths(b), 8),
        ScalarType::TimestampSecond => primitive_size(builders::timestamp_second_lengths(b), 8),
        ScalarType::TimestampMillisecond => {
            primitive_size(builders::timestamp_millisecond_lengths(b), 8)
        },
        ScalarType::TimestampMicrosecond => {
            primitive_size(builders::timestamp_microsecond_lengths(b), 8)
        },
        ScalarType::TimestampNanosecond => {
            primitive_size(builders::timestamp_nanosecond_lengths(b), 8)
        },
    }
}

} // verus!
