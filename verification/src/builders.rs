//! Arrow's builders and arrays.
//!
//! Every function in this module hands over to the `arrow` crate. Its contract is taken on trust:
//! it says what the Arrow function does to the contents of a builder, in terms of the specification
//! functions below that have no body.
//!
//! A boxed builder does not show which builder it is. Its shape says so, and every function asks
//! for the shape that it is for, so that finding the builder in the box never fails.
//!
//! A builder is asked for with a capacity, and reserves buffers for it. A buffer of more than
//! `isize::MAX` bytes cannot be had, hence the bounds on capacities.
use crate::text;
use crate::types;
use crate::values::{F32, F64};
use arrow::array::{
    Array, ArrayBuilder, ArrayData, BinaryBuilder, BooleanBuilder, Date32Builder,
    Decimal128Builder, FixedSizeBinaryBuilder, Float32Builder, Float64Builder, Int16Builder,
    Int32Builder, Int64Builder, Int8Builder, ListArray, ListBuilder, StringBuilder,
    StructBuilder, Time32MillisecondBuilder, Time32SecondBuilder, Time64MicrosecondBuilder,
    Time64NanosecondBuilder, TimestampMicrosecondBuilder, TimestampMillisecondBuilder,
    TimestampNanosecondBuilder, TimestampSecondBuilder, make_array,
};
use arrow::buffer::{NullBuffer, OffsetBuffer, ScalarBuffer};
use arrow::datatypes::{ArrowPrimitiveType, Float32Type, Float64Type};
use arrow_schema::{ArrowError, Field};
use std::sync::Arc;
use vstd::prelude::*;

verus! {

/// The Arrow types whose arrays have no children. Each has its own builder in Arrow.
#[derive(Clone, Copy, Debug, PartialEq, Eq, Structural)]
pub enum ScalarType {
    Boolean,
    Int8,
    Int16,
    Int32,
    Int64,
    Float32,
    Float64,
    Utf8,
    Binary,
    FixedSizeBinary { width: i32 },
    Decimal128 { precision: u8, scale: i8 },
    Date32,
    Time32Second,
    Time32Millisecond,
    Time64Microsecond,
    Time64Nanosecond,
    TimestampSecond,
    TimestampMillisecond,
    TimestampMicrosecond,
    TimestampNanosecond,
}

/// A value in an array of a [`ScalarType`].
pub ghost enum Cell {
    Bool(bool),
    /// A number of any of the integer types; of a decimal, its unscaled value.
    Int(int),
    Float32(F32),
    Float64(F64),
    Str(Seq<char>),
    Bytes(Seq<u8>),
}

/// Which builder a [`BoxedBuilder`] is.
pub ghost enum BuilderShape {
    Scalar(ScalarType),
    /// A struct builder, by the builders of its fields.
    Struct(Seq<ScalarType>),
    /// A list builder, by the builder of its elements.
    List(Box<BuilderShape>),
}

/// A field of a struct: its name, its nullability, its type and its metadata.
pub ghost struct StructField {
    pub name: Seq<char>,
    pub nullable: bool,
    pub ty: ScalarType,
    /// Pairs of a key and a value.
    pub metadata: Set<(Seq<char>, Seq<char>)>,
}

/// What a struct builder holds.
#[verifier::ext_equal]
pub ghost struct StructState {
    /// The fields that the builder was made for.
    pub fields: Seq<StructField>,
    /// Per field, which builder it has.
    pub builders: Seq<ScalarType>,
    /// Per field, what has been appended to its builder.
    pub cells: Seq<Seq<Option<Cell>>>,
    /// Per row, whether it is valid.
    pub rows: Seq<bool>,
}

/// What a list builder holds.
pub ghost struct ListState {
    /// The builder of the elements.
    pub values: BoxedBuilder,
    /// Where each list starts among the elements, and where the last one ends.
    pub offsets: Seq<int>,
    /// Per list, whether it is valid.
    pub rows: Seq<bool>,
}

/// What an array holds. A `None` cell, and a `false` row, is a null.
#[verifier::ext_equal]
pub ghost enum ArrayContents {
    Scalar { ty: ScalarType, cells: Seq<Option<Cell>> },
    /// Row `i` is the elements of `values` from `offsets[i]` up to `offsets[i + 1]`.
    List {
        item_nullable: bool,
        values: Box<ArrayContents>,
        offsets: Seq<int>,
        rows: Seq<bool>,
    },
    /// Row `i` is the cells at `i` of the columns, which are in the order of the fields.
    Struct {
        fields: Seq<StructField>,
        columns: Seq<Seq<Option<Cell>>>,
        rows: Seq<bool>,
    },
}

impl ArrayContents {
    /// The number of rows.
    pub open spec fn len(self) -> nat {
        match self {
            ArrayContents::Scalar { cells, .. } => cells.len(),
            ArrayContents::List { rows, .. } => rows.len(),
            ArrayContents::Struct { rows, .. } => rows.len(),
        }
    }

    /// Whether a row is null.
    pub open spec fn has_null(self) -> bool {
        match self {
            ArrayContents::Scalar { cells, .. } => cells.contains(None),
            ArrayContents::List { rows, .. } => rows.contains(false),
            ArrayContents::Struct { rows, .. } => rows.contains(false),
        }
    }
}

/// The number of bytes of the texts and byte strings among the cells.
pub open spec fn byte_total(cells: Seq<Option<Cell>>) -> nat
    decreases cells.len(),
{
    if cells.len() == 0 {
        0
    } else {
        byte_total(cells.drop_last()) + cell_bytes(cells.last())
    }
}

/// The number of bytes of a text or a byte string.
pub open spec fn cell_bytes(cell: Option<Cell>) -> nat {
    match cell {
        Some(Cell::Str(s)) => vstd::utf8::encode_utf8(s).len(),
        Some(Cell::Bytes(b)) => b.len(),
        _ => 0,
    }
}

/// Appending a cell adds its bytes to the total.
pub proof fn lemma_byte_total_push(cells: Seq<Option<Cell>>, cell: Option<Cell>)
    ensures
        byte_total(cells.push(cell)) == byte_total(cells) + cell_bytes(cell),
{
    assert(cells.push(cell).drop_last() =~= cells);
}

/// Whether the offsets of a builder of the given type, where it keeps any, reach the end of the
/// bytes of `cells`. Texts and byte strings are cut out of all their bytes by 32-bit offsets.
pub open spec fn offsets_reach(ty: ScalarType, cells: Seq<Option<Cell>>) -> bool {
    match ty {
        ScalarType::Utf8 | ScalarType::Binary => byte_total(cells) <= i32::MAX,
        _ => true,
    }
}

/// Whether `cells` stay within what an array of the given type reaches. An array of values of a
/// fixed width finds them by 32-bit positions, where a null takes up as many bytes as a value.
pub open spec fn within_reach(ty: ScalarType, cells: Seq<Option<Cell>>) -> bool {
    match ty {
        ScalarType::FixedSizeBinary { width } => cells.len() * width <= i32::MAX,
        _ => offsets_reach(ty, cells),
    }
}

/// Whether Arrow admits the precision and the scale of a 128-bit decimal.
pub open spec fn valid_decimal(precision: u8, scale: i8) -> bool {
    1 <= precision <= 38 && scale <= 38 && (scale > 0 ==> scale <= precision)
}

/// What Arrow says of a precision and a scale of a 128-bit decimal that it does not admit.
pub open spec fn decimal_error(precision: u8, scale: i8) -> Seq<char> {
    "Invalid argument error: "@ + if precision == 0 {
        "precision cannot be 0, has to be between [1, 38]"@
    } else if precision > 38 {
        "precision "@ + text::number(precision as int) + " is greater than max 38"@
    } else if scale > 38 {
        "scale "@ + text::number(scale as int) + " is greater than max 38"@
    } else {
        "scale "@ + text::number(scale as int) + " is greater than precision "@ + text::number(
            precision as int,
        )
    }
}

/// The number of bytes that hold `n` bits.
pub open spec fn bitmap_bytes(n: nat) -> nat {
    (n + 7) / 8
}

/// The length of a bitmap that is there only where there are nulls.
pub open spec fn bitmap_for(nulls: bool, n: nat) -> Option<nat> {
    if nulls {
        Some(bitmap_bytes(n))
    } else {
        None
    }
}

/// The length of the validity bitmap of a builder, which has none before a null is appended.
pub open spec fn validity_bytes(cells: Seq<Option<Cell>>) -> Option<nat> {
    bitmap_for(cells.contains(None), cells.len())
}

/// An optional length as a number.
pub open spec fn length(n: Option<usize>) -> Option<nat> {
    match n {
        Some(n) => Some(n as nat),
        None => None,
    }
}

/// Whether Arrow makes an array of what a struct builder holds: each field has a builder of its
/// type with a cell per row, within reach, and one that is not nullable has nulls only in rows that
/// are null.
pub open spec fn struct_complete(state: StructState) -> bool {
    &&& state.fields.len() == state.builders.len()
    &&& state.cells.len() == state.builders.len()
    &&& forall|i: int|
        0 <= i < state.fields.len() ==> (#[trigger] state.fields[i]).ty == state.builders[i]
    &&& forall|i: int|
        0 <= i < state.fields.len() ==> (#[trigger] state.cells[i]).len() == state.rows.len()
            && within_reach(state.builders[i], state.cells[i])
    &&& forall|i: int, j: int|
        0 <= i < state.fields.len() && 0 <= j < state.rows.len() && !state.fields[i].nullable
            && state.rows[j] ==> (#[trigger] state.cells[i][j]) is Some
}

/// A builder of any Arrow type: a `Box<dyn ArrayBuilder>`.
#[verifier::external_body]
pub struct BoxedBuilder {
    builder: Box<dyn ArrayBuilder>,
}

/// A builder that is only looked at: a `&dyn ArrayBuilder`.
#[verifier::external_body]
pub struct BuilderRef<'a> {
    builder: &'a dyn ArrayBuilder,
}

/// Whether a builder of the given type has nothing in it.
pub open spec fn is_new(b: BoxedBuilder, ty: ScalarType) -> bool {
    builder_shape(b) == BuilderShape::Scalar(ty) && builder_cells(b) == Seq::<Option<Cell>>::empty()
}

/// Whether a builder of the given shape has nothing in it, and nor do the builders under it.
pub open spec fn is_empty_builder(b: BoxedBuilder, shape: BuilderShape) -> bool
    decreases shape,
{
    &&& builder_shape(b) == shape
    &&& match shape {
        BuilderShape::Scalar(ty) => is_new(b, ty),
        BuilderShape::Struct(types) => {
            &&& boxed_struct_state(b).builders == types
            &&& boxed_struct_state(b).cells == types.map_values(
                |ty: ScalarType| Seq::<Option<Cell>>::empty(),
            )
            &&& boxed_struct_state(b).rows == Seq::<bool>::empty()
        },
        BuilderShape::List(values) => {
            &&& is_empty_builder(list_state(b).values, *values)
            &&& list_state(b).offsets == seq![0int]
            &&& list_state(b).rows == Seq::<bool>::empty()
        },
    }
}

/// The number of entries of a builder.
pub open spec fn builder_len(b: BoxedBuilder) -> nat {
    match builder_shape(b) {
        BuilderShape::Scalar(_) => builder_cells(b).len(),
        BuilderShape::Struct(_) => boxed_struct_state(b).rows.len(),
        BuilderShape::List(_) => list_state(b).rows.len(),
    }
}

/// Whether `after` is `before` with one more cell.
pub open spec fn appended(before: BoxedBuilder, after: BoxedBuilder, cell: Option<Cell>) -> bool {
    builder_shape(after) == builder_shape(before) && builder_cells(after) == builder_cells(
        before,
    ).push(cell)
}

/// Whether `after` is the same builder as `before`, with the same cells.
pub open spec fn unchanged(before: BoxedBuilder, after: BoxedBuilder) -> bool {
    builder_shape(after) == builder_shape(before) && builder_cells(after) == builder_cells(before)
}

/// `arrow::array::StructBuilder`: builders of the fields of a struct, and the validity of its rows.
#[verifier::external_type_specification]
#[verifier::external_body]
pub struct ExStructBuilder(StructBuilder);

/// `arrow::array::ArrayData`: an array of any Arrow type.
#[verifier::external_type_specification]
#[verifier::external_body]
pub struct ExArrayData(ArrayData);

/// `arrow_schema::Field`: a named field of an Arrow struct.
#[verifier::external_type_specification]
#[verifier::external_body]
pub struct ExField(Field);

/// `arrow_schema::ArrowError`: what Arrow's functions fail with.
#[verifier::external_type_specification]
#[verifier::external_body]
pub struct ExArrowError(ArrowError);

/// Which builder a boxed builder is.
pub uninterp spec fn builder_shape(b: BoxedBuilder) -> BuilderShape;

/// What has been appended to a boxed builder of a scalar type since it was made or last finished.
pub uninterp spec fn builder_cells(b: BoxedBuilder) -> Seq<Option<Cell>>;

/// The type of a builder of a scalar type that is looked at.
pub uninterp spec fn viewed_type(b: BuilderRef) -> ScalarType;

/// What has been appended to a builder that is looked at.
pub uninterp spec fn viewed_cells(b: BuilderRef) -> Seq<Option<Cell>>;

/// The name, the nullability and the type of a field of a scalar type.
pub uninterp spec fn field_parts(f: Field) -> StructField;

/// What a struct builder whose fields have scalar types holds.
pub uninterp spec fn struct_state(b: StructBuilder) -> StructState;

/// What a boxed struct builder, whose fields have scalar types, holds.
pub uninterp spec fn boxed_struct_state(b: BoxedBuilder) -> StructState;

/// What a boxed list builder holds.
pub uninterp spec fn list_state(b: BoxedBuilder) -> ListState;

/// What an array holds.
pub uninterp spec fn array_contents(a: ArrayData) -> ArrayContents;

/// `BooleanBuilder::with_capacity`: an empty builder.
#[verifier::external_body]
pub(crate) fn boolean_builder(capacity: usize) -> (b: BoxedBuilder)
    ensures
        is_new(b, ScalarType::Boolean),
{
    BoxedBuilder { builder: Box::new(BooleanBuilder::with_capacity(capacity)) }
}

/// `Int8Builder::with_capacity`: an empty builder.
#[verifier::external_body]
pub(crate) fn int8_builder(capacity: usize) -> (b: BoxedBuilder)
    requires
        capacity <= isize::MAX,
    ensures
        is_new(b, ScalarType::Int8),
{
    BoxedBuilder { builder: Box::new(Int8Builder::with_capacity(capacity)) }
}

/// `Int16Builder::with_capacity`: an empty builder.
#[verifier::external_body]
pub(crate) fn int16_builder(capacity: usize) -> (b: BoxedBuilder)
    requires
        capacity * 2 <= isize::MAX,
    ensures
        is_new(b, ScalarType::Int16),
{
    BoxedBuilder { builder: Box::new(Int16Builder::with_capacity(capacity)) }
}

/// `Int32Builder::with_capacity`: an empty builder.
#[verifier::external_body]
pub(crate) fn int32_builder(capacity: usize) -> (b: BoxedBuilder)
    requires
        capacity * 4 <= isize::MAX,
    ensures
        is_new(b, ScalarType::Int32),
{
    BoxedBuilder { builder: Box::new(Int32Builder::with_capacity(capacity)) }
}

/// `Int64Builder::with_capacity`: an empty builder.
#[verifier::external_body]
pub(crate) fn int64_builder(capacity: usize) -> (b: BoxedBuilder)
    requires
        capacity * 8 <= isize::MAX,
    ensures
        is_new(b, ScalarType::Int64),
{
    BoxedBuilder { builder: Box::new(Int64Builder::with_capacity(capacity)) }
}

/// `Date32Builder::with_capacity`: an empty builder.
#[verifier::external_body]
pub(crate) fn date32_builder(capacity: usize) -> (b: BoxedBuilder)
    requires
        capacity * 4 <= isize::MAX,
    ensures
        is_new(b, ScalarType::Date32),
{
    BoxedBuilder { builder: Box::new(Date32Builder::with_capacity(capacity)) }
}

/// `Time32SecondBuilder::with_capacity`: an empty builder.
#[verifier::external_body]
pub(crate) fn time32_second_builder(capacity: usize) -> (b: BoxedBuilder)
    requires
        capacity * 4 <= isize::MAX,
    ensures
        is_new(b, ScalarType::Time32Second),
{
    BoxedBuilder { builder: Box::new(Time32SecondBuilder::with_capacity(capacity)) }
}

/// `Time32MillisecondBuilder::with_capacity`: an empty builder.
#[verifier::external_body]
pub(crate) fn time32_millisecond_builder(capacity: usize) -> (b: BoxedBuilder)
    requires
        capacity * 4 <= isize::MAX,
    ensures
        is_new(b, ScalarType::Time32Millisecond),
{
    BoxedBuilder { builder: Box::new(Time32MillisecondBuilder::with_capacity(capacity)) }
}

/// `Time64MicrosecondBuilder::with_capacity`: an empty builder.
#[verifier::external_body]
pub(crate) fn time64_microsecond_builder(capacity: usize) -> (b: BoxedBuilder)
    requires
        capacity * 8 <= isize::MAX,
    ensures
        is_new(b, ScalarType::Time64Microsecond),
{
    BoxedBuilder { builder: Box::new(Time64MicrosecondBuilder::with_capacity(capacity)) }
}

/// `Time64NanosecondBuilder::with_capacity`: an empty builder.
#[verifier::external_body]
pub(crate) fn time64_nanosecond_builder(capacity: usize) -> (b: BoxedBuilder)
    requires
        capacity * 8 <= isize::MAX,
    ensures
        is_new(b, ScalarType::Time64Nanosecond),
{
    BoxedBuilder { builder: Box::new(Time64NanosecondBuilder::with_capacity(capacity)) }
}

/// `TimestampSecondBuilder::with_capacity`: an empty builder.
#[verifier::external_body]
pub(crate) fn timestamp_second_builder(capacity: usize) -> (b: BoxedBuilder)
    requires
        capacity * 8 <= isize::MAX,
    ensures
        is_new(b, ScalarType::TimestampSecond),
{
    BoxedBuilder { builder: Box::new(TimestampSecondBuilder::with_capacity(capacity)) }
}

/// `TimestampMillisecondBuilder::with_capacity`: an empty builder.
#[verifier::external_body]
pub(crate) fn timestamp_millisecond_builder(capacity: usize) -> (b: BoxedBuilder)
    requires
        capacity * 8 <= isize::MAX,
    ensures
        is_new(b, ScalarType::TimestampMillisecond),
{
    BoxedBuilder { builder: Box::new(TimestampMillisecondBuilder::with_capacity(capacity)) }
}

/// `TimestampMicrosecondBuilder::with_capacity`: an empty builder.
#[verifier::external_body]
pub(crate) fn timestamp_microsecond_builder(capacity: usize) -> (b: BoxedBuilder)
    requires
        capacity * 8 <= isize::MAX,
    ensures
        is_new(b, ScalarType::TimestampMicrosecond),
{
    BoxedBuilder { builder: Box::new(TimestampMicrosecondBuilder::with_capacity(capacity)) }
}

/// `TimestampNanosecondBuilder::with_capacity`: an empty builder.
#[verifier::external_body]
pub(crate) fn timestamp_nanosecond_builder(capacity: usize) -> (b: BoxedBuilder)
    requires
        capacity * 8 <= isize::MAX,
    ensures
        is_new(b, ScalarType::TimestampNanosecond),
{
    BoxedBuilder { builder: Box::new(TimestampNanosecondBuilder::with_capacity(capacity)) }
}

/// `Float32Builder::with_capacity`: an empty builder.
#[verifier::external_body]
pub(crate) fn float32_builder(capacity: usize) -> (b: BoxedBuilder)
    requires
        capacity * 4 <= isize::MAX,
    ensures
        is_new(b, ScalarType::Float32),
{
    BoxedBuilder { builder: Box::new(Float32Builder::with_capacity(capacity)) }
}

/// `Float64Builder::with_capacity`: an empty builder.
#[verifier::external_body]
pub(crate) fn float64_builder(capacity: usize) -> (b: BoxedBuilder)
    requires
        capacity * 8 <= isize::MAX,
    ensures
        is_new(b, ScalarType::Float64),
{
    BoxedBuilder { builder: Box::new(Float64Builder::with_capacity(capacity)) }
}

/// `StringBuilder::with_capacity`: an empty builder.
#[verifier::external_body]
pub(crate) fn utf8_builder(capacity: usize, bytes: usize) -> (b: BoxedBuilder)
    requires
        (capacity + 1) * 4 <= isize::MAX,
        bytes <= isize::MAX,
    ensures
        is_new(b, ScalarType::Utf8),
{
    BoxedBuilder { builder: Box::new(StringBuilder::with_capacity(capacity, bytes)) }
}

/// `BinaryBuilder::with_capacity`: an empty builder.
#[verifier::external_body]
pub(crate) fn binary_builder(capacity: usize, bytes: usize) -> (b: BoxedBuilder)
    requires
        (capacity + 1) * 4 <= isize::MAX,
        bytes <= isize::MAX,
    ensures
        is_new(b, ScalarType::Binary),
{
    BoxedBuilder { builder: Box::new(BinaryBuilder::with_capacity(capacity, bytes)) }
}

/// `FixedSizeBinaryBuilder::with_capacity`: an empty builder for values of `width` bytes.
#[verifier::external_body]
pub(crate) fn fixed_size_binary_builder(capacity: usize, width: i32) -> (b: BoxedBuilder)
    requires
        0 <= width,
        capacity * width <= isize::MAX,
    ensures
        is_new(b, ScalarType::FixedSizeBinary { width }),
{
    BoxedBuilder { builder: Box::new(FixedSizeBinaryBuilder::with_capacity(capacity, width)) }
}

/// `Decimal128Builder::with_capacity`, then `with_precision_and_scale`: an empty builder of the
/// given precision and scale. Arrow admits a precision from 1 to 38, and a scale up to 38 that, if
/// it is positive, does not exceed the precision. What it does not admit it fails on, with an
/// `ArrowError::InvalidArgumentError` that says which of these bounds is broken first; its text is
/// handed out.
#[verifier::external_body]
pub(crate) fn decimal128_builder(capacity: usize, precision: u8, scale: i8) -> (r: Result<
    BoxedBuilder,
    String,
>)
    requires
        capacity * 16 <= isize::MAX,
    ensures
        match r {
            Ok(b) => valid_decimal(precision, scale) && is_new(
                b,
                ScalarType::Decimal128 { precision, scale },
            ),
            Err(text) => !valid_decimal(precision, scale) && text@ == decimal_error(
                precision,
                scale,
            ),
        },
{
    match Decimal128Builder::with_capacity(capacity).with_precision_and_scale(precision, scale) {
        Ok(builder) => Ok(BoxedBuilder { builder: Box::new(builder) }),
        Err(e) => Err(e.to_string()),
    }
}

/// `BooleanBuilder::append_option`: appends the value, or a null for `None`.
#[verifier::external_body]
pub(crate) fn append_boolean(b: &mut BoxedBuilder, v: Option<bool>)
    requires
        builder_shape(*old(b)) == BuilderShape::Scalar(ScalarType::Boolean),
    ensures
        appended(
            *old(b),
            *final(b),
            match v {
                Some(x) => Some(Cell::Bool(x)),
                None => None,
            },
        ),
{
    b.builder.as_any_mut().downcast_mut::<BooleanBuilder>().unwrap().append_option(v)
}

/// `Int8Builder::append_option`: appends the value, or a null for `None`.
#[verifier::external_body]
pub(crate) fn append_int8(b: &mut BoxedBuilder, v: Option<i8>)
    requires
        builder_shape(*old(b)) == BuilderShape::Scalar(ScalarType::Int8),
    ensures
        appended(
            *old(b),
            *final(b),
            match v {
                Some(x) => Some(Cell::Int(x as int)),
                None => None,
            },
        ),
{
    b.builder.as_any_mut().downcast_mut::<Int8Builder>().unwrap().append_option(v)
}

/// `Int16Builder::append_option`: appends the value, or a null for `None`.
#[verifier::external_body]
pub(crate) fn append_int16(b: &mut BoxedBuilder, v: Option<i16>)
    requires
        builder_shape(*old(b)) == BuilderShape::Scalar(ScalarType::Int16),
    ensures
        appended(
            *old(b),
            *final(b),
            match v {
                Some(x) => Some(Cell::Int(x as int)),
                None => None,
            },
        ),
{
    b.builder.as_any_mut().downcast_mut::<Int16Builder>().unwrap().append_option(v)
}

/// `Int32Builder::append_option`: appends the value, or a null for `None`.
#[verifier::external_body]
pub(crate) fn append_int32(b: &mut BoxedBuilder, v: Option<i32>)
    requires
        builder_shape(*old(b)) == BuilderShape::Scalar(ScalarType::Int32),
    ensures
        appended(
            *old(b),
            *final(b),
            match v {
                Some(x) => Some(Cell::Int(x as int)),
                None => None,
            },
        ),
{
    b.builder.as_any_mut().downcast_mut::<Int32Builder>().unwrap().append_option(v)
}

/// `Int64Builder::append_option`: appends the value, or a null for `None`.
#[verifier::external_body]
pub(crate) fn append_int64(b: &mut BoxedBuilder, v: Option<i64>)
    requires
        builder_shape(*old(b)) == BuilderShape::Scalar(ScalarType::Int64),
    ensures
        appended(
            *old(b),
            *final(b),
            match v {
                Some(x) => Some(Cell::Int(x as int)),
                None => None,
            },
        ),
{
    b.builder.as_any_mut().downcast_mut::<Int64Builder>().unwrap().append_option(v)
}

/// `Date32Builder::append_option`: appends the value, or a null for `None`.
#[verifier::external_body]
pub(crate) fn append_date32(b: &mut BoxedBuilder, v: Option<i32>)
    requires
        builder_shape(*old(b)) == BuilderShape::Scalar(ScalarType::Date32),
    ensures
        appended(
            *old(b),
            *final(b),
            match v {
                Some(x) => Some(Cell::Int(x as int)),
                None => None,
            },
        ),
{
    b.builder.as_any_mut().downcast_mut::<Date32Builder>().unwrap().append_option(v)
}

/// `Time32SecondBuilder::append_option`: appends the value, or a null for `None`.
#[verifier::external_body]
pub(crate) fn append_time32_second(b: &mut BoxedBuilder, v: Option<i32>)
    requires
        builder_shape(*old(b)) == BuilderShape::Scalar(ScalarType::Time32Second),
    ensures
        appended(
            *old(b),
            *final(b),
            match v {
                Some(x) => Some(Cell::Int(x as int)),
                None => None,
            },
        ),
{
    b.builder.as_any_mut().downcast_mut::<Time32SecondBuilder>().unwrap().append_option(v)
}

/// `Time32MillisecondBuilder::append_option`: appends the value, or a null for `None`.
#[verifier::external_body]
pub(crate) fn append_time32_millisecond(b: &mut BoxedBuilder, v: Option<i32>)
    requires
        builder_shape(*old(b)) == BuilderShape::Scalar(ScalarType::Time32Millisecond),
    ensures
        appended(
            *old(b),
            *final(b),
            match v {
                Some(x) => Some(Cell::Int(x as int)),
                None => None,
            },
        ),
{
    b.builder.as_any_mut().downcast_mut::<Time32MillisecondBuilder>().unwrap().append_option(v)
}

/// `Time64MicrosecondBuilder::append_option`: appends the value, or a null for `None`.
#[verifier::external_body]
pub(crate) fn append_time64_microsecond(b: &mut BoxedBuilder, v: Option<i64>)
    requires
        builder_shape(*old(b)) == BuilderShape::Scalar(ScalarType::Time64Microsecond),
    ensures
        appended(
            *old(b),
            *final(b),
            match v {
                Some(x) => Some(Cell::Int(x as int)),
                None => None,
            },
        ),
{
    b.builder.as_any_mut().downcast_mut::<Time64MicrosecondBuilder>().unwrap().append_option(v)
}

/// `Time64NanosecondBuilder::append_option`: appends the value, or a null for `None`.
#[verifier::external_body]
pub(crate) fn append_time64_nanosecond(b: &mut BoxedBuilder, v: Option<i64>)
    requires
        builder_shape(*old(b)) == BuilderShape::Scalar(ScalarType::Time64Nanosecond),
    ensures
        appended(
            *old(b),
            *final(b),
            match v {
                Some(x) => Some(Cell::Int(x as int)),
                None => None,
            },
        ),
{
    b.builder.as_any_mut().downcast_mut::<Time64NanosecondBuilder>().unwrap().append_option(v)
}

/// `TimestampSecondBuilder::append_option`: appends the value, or a null for `None`.
#[verifier::external_body]
pub(crate) fn append_timestamp_second(b: &mut BoxedBuilder, v: Option<i64>)
    requires
        builder_shape(*old(b)) == BuilderShape::Scalar(ScalarType::TimestampSecond),
    ensures
        appended(
            *old(b),
            *final(b),
            match v {
                Some(x) => Some(Cell::Int(x as int)),
                None => None,
            },
        ),
{
    b.builder.as_any_mut().downcast_mut::<TimestampSecondBuilder>().unwrap().append_option(v)
}

/// `TimestampMillisecondBuilder::append_option`: appends the value, or a null for `None`.
#[verifier::external_body]
pub(crate) fn append_timestamp_millisecond(b: &mut BoxedBuilder, v: Option<i64>)
    requires
        builder_shape(*old(b)) == BuilderShape::Scalar(ScalarType::TimestampMillisecond),
    ensures
        appended(
            *old(b),
            *final(b),
            match v {
                Some(x) => Some(Cell::Int(x as int)),
                None => None,
            },
        ),
{
    b.builder.as_any_mut().downcast_mut::<TimestampMillisecondBuilder>().unwrap().append_option(v)
}

/// `TimestampMicrosecondBuilder::append_option`: appends the value, or a null for `None`.
#[verifier::external_body]
pub(crate) fn append_timestamp_microsecond(b: &mut BoxedBuilder, v: Option<i64>)
    requires
        builder_shape(*old(b)) == BuilderShape::Scalar(ScalarType::TimestampMicrosecond),
    ensures
        appended(
            *old(b),
            *final(b),
            match v {
                Some(x) => Some(Cell::Int(x as int)),
                None => None,
            },
        ),
{
    b.builder.as_any_mut().downcast_mut::<TimestampMicrosecondBuilder>().unwrap().append_option(v)
}

/// `TimestampNanosecondBuilder::append_option`: appends the value, or a null for `None`.
#[verifier::external_body]
pub(crate) fn append_timestamp_nanosecond(b: &mut BoxedBuilder, v: Option<i64>)
    requires
        builder_shape(*old(b)) == BuilderShape::Scalar(ScalarType::TimestampNanosecond),
    ensures
        appended(
            *old(b),
            *final(b),
            match v {
                Some(x) => Some(Cell::Int(x as int)),
                None => None,
            },
        ),
{
    b.builder.as_any_mut().downcast_mut::<TimestampNanosecondBuilder>().unwrap().append_option(v)
}

/// `Decimal128Builder::append_option`: appends the value, or a null for `None`.
#[verifier::external_body]
pub(crate) fn append_decimal128(b: &mut BoxedBuilder, v: Option<i128>)
    requires
        builder_shape(*old(b)) matches BuilderShape::Scalar(ScalarType::Decimal128 { .. }),
    ensures
        appended(
            *old(b),
            *final(b),
            match v {
                Some(x) => Some(Cell::Int(x as int)),
                None => None,
            },
        ),
{
    b.builder.as_any_mut().downcast_mut::<Decimal128Builder>().unwrap().append_option(v)
}

/// `Float32Builder::append_option`: appends the number of the given bit pattern, or a null
/// for `None`.
#[verifier::external_body]
pub(crate) fn append_float32(b: &mut BoxedBuilder, v: Option<F32>)
    requires
        builder_shape(*old(b)) == BuilderShape::Scalar(ScalarType::Float32),
    ensures
        appended(
            *old(b),
            *final(b),
            match v {
                Some(x) => Some(Cell::Float32(x)),
                None => None,
            },
        ),
{
    let v = v.map(|x| <<Float32Type as ArrowPrimitiveType>::Native>::from_bits(x.bits));
    b.builder.as_any_mut().downcast_mut::<Float32Builder>().unwrap().append_option(v)
}

/// `Float64Builder::append_option`: appends the number of the given bit pattern, or a null
/// for `None`.
#[verifier::external_body]
pub(crate) fn append_float64(b: &mut BoxedBuilder, v: Option<F64>)
    requires
        builder_shape(*old(b)) == BuilderShape::Scalar(ScalarType::Float64),
    ensures
        appended(
            *old(b),
            *final(b),
            match v {
                Some(x) => Some(Cell::Float64(x)),
                None => None,
            },
        ),
{
    let v = v.map(|x| <<Float64Type as ArrowPrimitiveType>::Native>::from_bits(x.bits));
    b.builder.as_any_mut().downcast_mut::<Float64Builder>().unwrap().append_option(v)
}

/// `StringBuilder::append_option`: appends the text, or a null for `None`. The offsets into the
/// text are `i32`, so all the text together must not exceed `i32::MAX` bytes.
#[verifier::external_body]
pub(crate) fn append_utf8(b: &mut BoxedBuilder, v: Option<&str>)
    requires
        builder_shape(*old(b)) == BuilderShape::Scalar(ScalarType::Utf8),
        byte_total(builder_cells(*old(b))) + (match v {
            Some(x) => vstd::utf8::encode_utf8(x@).len(),
            None => 0,
        }) <= i32::MAX,
    ensures
        appended(
            *old(b),
            *final(b),
            match v {
                Some(x) => Some(Cell::Str(x@)),
                None => None,
            },
        ),
{
    b.builder.as_any_mut().downcast_mut::<StringBuilder>().unwrap().append_option(v)
}

/// `BinaryBuilder::append_option`: appends the bytes, or a null for `None`. The offsets into the
/// bytes are `i32`, so all the bytes together must not exceed `i32::MAX`.
#[verifier::external_body]
pub(crate) fn append_binary(b: &mut BoxedBuilder, v: Option<&[u8]>)
    requires
        builder_shape(*old(b)) == BuilderShape::Scalar(ScalarType::Binary),
        byte_total(builder_cells(*old(b))) + (match v {
            Some(x) => x@.len(),
            None => 0,
        }) <= i32::MAX,
    ensures
        appended(
            *old(b),
            *final(b),
            match v {
                Some(x) => Some(Cell::Bytes(x@)),
                None => None,
            },
        ),
{
    b.builder.as_any_mut().downcast_mut::<BinaryBuilder>().unwrap().append_option(v)
}

/// `FixedSizeBinaryBuilder::append_value`: appends the bytes if they are as many as the width of
/// the builder, and otherwise fails and appends nothing. Arrow compares the width with the length
/// as an `i32`, hence the bound on the length.
#[verifier::external_body]
pub(crate) fn append_fixed_size_binary(b: &mut BoxedBuilder, v: &[u8]) -> (r: Result<
    (),
    ArrowError,
>)
    requires
        builder_shape(*old(b)) matches BuilderShape::Scalar(ScalarType::FixedSizeBinary { .. }),
        v@.len() <= i32::MAX,
    ensures
        r is Ok <==> builder_shape(*old(b)) == BuilderShape::Scalar(
            ScalarType::FixedSizeBinary { width: v@.len() as i32 },
        ),
        r is Ok ==> appended(*old(b), *final(b), Some(Cell::Bytes(v@))),
        r is Err ==> unchanged(*old(b), *final(b)),
{
    b.builder.as_any_mut().downcast_mut::<FixedSizeBinaryBuilder>().unwrap().append_value(v)
}

/// `FixedSizeBinaryBuilder::append_null`: appends a null.
#[verifier::external_body]
pub(crate) fn append_fixed_size_binary_null(b: &mut BoxedBuilder)
    requires
        builder_shape(*old(b)) matches BuilderShape::Scalar(ScalarType::FixedSizeBinary { .. }),
    ensures
        appended(*old(b), *final(b), None),
{
    b.builder.as_any_mut().downcast_mut::<FixedSizeBinaryBuilder>().unwrap().append_null()
}

/// `ArrayBuilder::finish`: the array of the cells of a builder of a scalar type, which is empty
/// afterwards. Arrow makes no array of values of a fixed width that together exceed `i32::MAX`
/// bytes.
#[verifier::external_body]
pub(crate) fn finish_builder(b: &mut BoxedBuilder) -> (array: ArrayData)
    requires
        builder_shape(*old(b)) is Scalar,
        within_reach(builder_shape(*old(b))->Scalar_0, builder_cells(*old(b))),
    ensures
        builder_shape(*final(b)) == builder_shape(*old(b)),
        builder_cells(*final(b)) == Seq::<Option<Cell>>::empty(),
        array_contents(array) == (ArrayContents::Scalar {
            ty: builder_shape(*old(b))->Scalar_0,
            cells: builder_cells(*old(b)),
        }),
{
    b.builder.finish().to_data()
}

/// `Box::as_ref`: the builder, to look at.
#[verifier::external_body]
pub(crate) fn view_builder(b: &BoxedBuilder) -> (r: BuilderRef<'_>)
    requires
        builder_shape(*b) is Scalar,
    ensures
        builder_shape(*b) == BuilderShape::Scalar(viewed_type(r)),
        viewed_cells(r) == builder_cells(*b),
{
    BuilderRef { builder: b.builder.as_ref() }
}

/// `BooleanBuilder::validity_slice` and `values_slice`: the length of the validity
/// bitmap, and that of the bitmap of the values.
#[verifier::external_body]
pub(crate) fn boolean_lengths(b: &BuilderRef) -> (r: (Option<usize>, usize))
    requires
        viewed_type(*b) == ScalarType::Boolean,
    ensures
        length(r.0) == validity_bytes(viewed_cells(*b)),
        r.1 == bitmap_bytes(viewed_cells(*b).len()),
{
    let b = b.builder.as_any().downcast_ref::<BooleanBuilder>().unwrap();
    (b.validity_slice().map(|s| s.len()), b.values_slice().len())
}

/// `Int8Builder::validity_slice` and `values_slice`: the length of the validity
/// bitmap, and the number of values.
#[verifier::external_body]
pub(crate) fn int8_lengths(b: &BuilderRef) -> (r: (Option<usize>, usize))
    requires
        viewed_type(*b) == ScalarType::Int8,
    ensures
        length(r.0) == validity_bytes(viewed_cells(*b)),
        r.1 == viewed_cells(*b).len(),
{
    let b = b.builder.as_any().downcast_ref::<Int8Builder>().unwrap();
    (b.validity_slice().map(|s| s.len()), b.values_slice().len())
}

/// `Int16Builder::validity_slice` and `values_slice`: the length of the validity
/// bitmap, and the number of values.
#[verifier::external_body]
pub(crate) fn int16_lengths(b: &BuilderRef) -> (r: (Option<usize>, usize))
    requires
        viewed_type(*b) == ScalarType::Int16,
    ensures
        length(r.0) == validity_bytes(viewed_cells(*b)),
        r.1 == viewed_cells(*b).len(),
{
    let b = b.builder.as_any().downcast_ref::<Int16Builder>().unwrap();
    (b.validity_slice().map(|s| s.len()), b.values_slice().len())
}

/// `Int32Builder::validity_slice` and `values_slice`: the length of the validity
/// bitmap, and the number of values.
#[verifier::external_body]
pub(crate) fn int32_lengths(b: &BuilderRef) -> (r: (Option<usize>, usize))
    requires
        viewed_type(*b) == ScalarType::Int32,
    ensures
        length(r.0) == validity_bytes(viewed_cells(*b)),
        r.1 == viewed_cells(*b).len(),
{
    let b = b.builder.as_any().downcast_ref::<Int32Builder>().unwrap();
    (b.validity_slice().map(|s| s.len()), b.values_slice().len())
}

/// `Int64Builder::validity_slice` and `values_slice`: the length of the validity
/// bitmap, and the number of values.
#[verifier::external_body]
pub(crate) fn int64_lengths(b: &BuilderRef) -> (r: (Option<usize>, usize))
    requires
        viewed_type(*b) == ScalarType::Int64,
    ensures
        length(r.0) == validity_bytes(viewed_cells(*b)),
        r.1 == viewed_cells(*b).len(),
{
    let b = b.builder.as_any().downcast_ref::<Int64Builder>().unwrap();
    (b.validity_slice().map(|s| s.len()), b.values_slice().len())
}

/// `Date32Builder::validity_slice` and `values_slice`: the length of the validity
/// bitmap, and the number of values.
#[verifier::external_body]
pub(crate) fn date32_lengths(b: &BuilderRef) -> (r: (Option<usize>, usize))
    requires
        viewed_type(*b) == ScalarType::Date32,
    ensures
        length(r.0) == validity_bytes(viewed_cells(*b)),
        r.1 == viewed_cells(*b).len(),
{
    let b = b.builder.as_any().downcast_ref::<Date32Builder>().unwrap();
    (b.validity_slice().map(|s| s.len()), b.values_slice().len())
}

/// `Time32SecondBuilder::validity_slice` and `values_slice`: the length of the validity
/// bitmap, and the number of values.
#[verifier::external_body]
pub(crate) fn time32_second_lengths(b: &BuilderRef) -> (r: (Option<usize>, usize))
    requires
        viewed_type(*b) == ScalarType::Time32Second,
    ensures
        length(r.0) == validity_bytes(viewed_cells(*b)),
        r.1 == viewed_cells(*b).len(),
{
    let b = b.builder.as_any().downcast_ref::<Time32SecondBuilder>().unwrap();
    (b.validity_slice().map(|s| s.len()), b.values_slice().len())
}

/// `Time32MillisecondBuilder::validity_slice` and `values_slice`: the length of the validity
/// bitmap, and the number of values.
#[verifier::external_body]
pub(crate) fn time32_millisecond_lengths(b: &BuilderRef) -> (r: (Option<usize>, usize))
    requires
        viewed_type(*b) == ScalarType::Time32Millisecond,
    ensures
        length(r.0) == validity_bytes(viewed_cells(*b)),
        r.1 == viewed_cells(*b).len(),
{
    let b = b.builder.as_any().downcast_ref::<Time32MillisecondBuilder>().unwrap();
    (b.validity_slice().map(|s| s.len()), b.values_slice().len())
}

/// `Time64MicrosecondBuilder::validity_slice` and `values_slice`: the length of the validity
/// bitmap, and the number of values.
#[verifier::external_body]
pub(crate) fn time64_microsecond_lengths(b: &BuilderRef) -> (r: (Option<usize>, usize))
    requires
        viewed_type(*b) == ScalarType::Time64Microsecond,
    ensures
        length(r.0) == validity_bytes(viewed_cells(*b)),
        r.1 == viewed_cells(*b).len(),
{
    let b = b.builder.as_any().downcast_ref::<Time64MicrosecondBuilder>().unwrap();
    (b.validity_slice().map(|s| s.len()), b.values_slice().len())
}

/// `Time64NanosecondBuilder::validity_slice` and `values_slice`: the length of the validity
/// bitmap, and the number of values.
#[verifier::external_body]
pub(crate) fn time64_nanosecond_lengths(b: &BuilderRef) -> (r: (Option<usize>, usize))
    requires
        viewed_type(*b) == ScalarType::Time64Nanosecond,
    ensures
        length(r.0) == validity_bytes(viewed_cells(*b)),
        r.1 == viewed_cells(*b).len(),
{
    let b = b.builder.as_any().downcast_ref::<Time64NanosecondBuilder>().unwrap();
    (b.validity_slice().map(|s| s.len()), b.values_slice().len())
}

/// `TimestampSecondBuilder::validity_slice` and `values_slice`: the length of the validity
/// bitmap, and the number of values.
#[verifier::external_body]
pub(crate) fn timestamp_second_lengths(b: &BuilderRef) -> (r: (Option<usize>, usize))
    requires
        viewed_type(*b) == ScalarType::TimestampSecond,
    ensures
        length(r.0) == validity_bytes(viewed_cells(*b)),
        r.1 == viewed_cells(*b).len(),
{
    let b = b.builder.as_any().downcast_ref::<TimestampSecondBuilder>().unwrap();
    (b.validity_slice().map(|s| s.len()), b.values_slice().len())
}

/// `TimestampMillisecondBuilder::validity_slice` and `values_slice`: the length of the validity
/// bitmap, and the number of values.
#[verifier::external_body]
pub(crate) fn timestamp_millisecond_lengths(b: &BuilderRef) -> (r: (Option<usize>, usize))
    requires
        viewed_type(*b) == ScalarType::TimestampMillisecond,
    ensures
        length(r.0) == validity_bytes(viewed_cells(*b)),
        r.1 == viewed_cells(*b).len(),
{
    let b = b.builder.as_any().downcast_ref::<TimestampMillisecondBuilder>().unwrap();
    (b.validity_slice().map(|s| s.len()), b.values_slice().len())
}

/// `TimestampMicrosecondBuilder::validity_slice` and `values_slice`: the length of the validity
/// bitmap, and the number of values.
#[verifier::external_body]
pub(crate) fn timestamp_microsecond_lengths(b: &BuilderRef) -> (r: (Option<usize>, usize))
    requires
        viewed_type(*b) == ScalarType::TimestampMicrosecond,
    ensures
        length(r.0) == validity_bytes(viewed_cells(*b)),
        r.1 == viewed_cells(*b).len(),
{
    let b = b.builder.as_any().downcast_ref::<TimestampMicrosecondBuilder>().unwrap();
    (b.validity_slice().map(|s| s.len()), b.values_slice().len())
}

/// `TimestampNanosecondBuilder::validity_slice` and `values_slice`: the length of the validity
/// bitmap, and the number of values.
#[verifier::external_body]
pub(crate) fn timestamp_nanosecond_lengths(b: &BuilderRef) -> (r: (Option<usize>, usize))
    requires
        viewed_type(*b) == ScalarType::TimestampNanosecond,
    ensures
        length(r.0) == validity_bytes(viewed_cells(*b)),
        r.1 == viewed_cells(*b).len(),
{
    let b = b.builder.as_any().downcast_ref::<TimestampNanosecondBuilder>().unwrap();
    (b.validity_slice().map(|s| s.len()), b.values_slice().len())
}

/// `Float32Builder::validity_slice` and `values_slice`: the length of the validity
/// bitmap, and the number of values.
#[verifier::external_body]
pub(crate) fn float32_lengths(b: &BuilderRef) -> (r: (Option<usize>, usize))
    requires
        viewed_type(*b) == ScalarType::Float32,
    ensures
        length(r.0) == validity_bytes(viewed_cells(*b)),
        r.1 == viewed_cells(*b).len(),
{
    let b = b.builder.as_any().downcast_ref::<Float32Builder>().unwrap();
    (b.validity_slice().map(|s| s.len()), b.values_slice().len())
}

/// `Float64Builder::validity_slice` and `values_slice`: the length of the validity
/// bitmap, and the number of values.
#[verifier::external_body]
pub(crate) fn float64_lengths(b: &BuilderRef) -> (r: (Option<usize>, usize))
    requires
        viewed_type(*b) == ScalarType::Float64,
    ensures
        length(r.0) == validity_bytes(viewed_cells(*b)),
        r.1 == viewed_cells(*b).len(),
{
    let b = b.builder.as_any().downcast_ref::<Float64Builder>().unwrap();
    (b.validity_slice().map(|s| s.len()), b.values_slice().len())
}

/// `Decimal128Builder::validity_slice` and `values_slice`: the length of the validity
/// bitmap, and the number of values.
#[verifier::external_body]
pub(crate) fn decimal128_lengths(b: &BuilderRef) -> (r: (Option<usize>, usize))
    requires
        viewed_type(*b) is Decimal128,
    ensures
        length(r.0) == validity_bytes(viewed_cells(*b)),
        r.1 == viewed_cells(*b).len(),
{
    let b = b.builder.as_any().downcast_ref::<Decimal128Builder>().unwrap();
    (b.validity_slice().map(|s| s.len()), b.values_slice().len())
}

/// `FixedSizeBinaryBuilder::validity_slice` and `values_slice`: the length of the validity
/// bitmap, and the number of bytes of the values.
#[verifier::external_body]
pub(crate) fn fixed_size_binary_lengths(b: &BuilderRef) -> (r: (Option<usize>, usize))
    requires
        viewed_type(*b) is FixedSizeBinary,
    ensures
        length(r.0) == validity_bytes(viewed_cells(*b)),
        r.1 == viewed_cells(*b).len() * viewed_type(*b)->width,
{
    let b = b.builder.as_any().downcast_ref::<FixedSizeBinaryBuilder>().unwrap();
    (b.validity_slice().map(|s| s.len()), b.values_slice().len())
}

/// `StringBuilder::validity_slice`, `offsets_slice` and `values_slice`: the length of the validity
/// bitmap, the number of offsets, of which there is one more than there are values, and the number
/// of bytes of the values.
#[verifier::external_body]
pub(crate) fn utf8_lengths(b: &BuilderRef) -> (r: (Option<usize>, usize, usize))
    requires
        viewed_type(*b) == ScalarType::Utf8,
    ensures
        length(r.0) == validity_bytes(viewed_cells(*b)),
        r.1 == viewed_cells(*b).len() + 1,
        r.2 == byte_total(viewed_cells(*b)),
{
    let b = b.builder.as_any().downcast_ref::<StringBuilder>().unwrap();
    (b.validity_slice().map(|s| s.len()), b.offsets_slice().len(), b.values_slice().len())
}

/// `BinaryBuilder::validity_slice`, `offsets_slice` and `values_slice`: the length of the validity
/// bitmap, the number of offsets, of which there is one more than there are values, and the number
/// of bytes of the values.
#[verifier::external_body]
pub(crate) fn binary_lengths(b: &BuilderRef) -> (r: (Option<usize>, usize, usize))
    requires
        viewed_type(*b) == ScalarType::Binary,
    ensures
        length(r.0) == validity_bytes(viewed_cells(*b)),
        r.1 == viewed_cells(*b).len() + 1,
        r.2 == byte_total(viewed_cells(*b)),
{
    let b = b.builder.as_any().downcast_ref::<BinaryBuilder>().unwrap();
    (b.validity_slice().map(|s| s.len()), b.offsets_slice().len(), b.values_slice().len())
}

/// `Field::new` and `Field::with_metadata`: a field with the given name, nullability and metadata,
/// of the type of the arrays that a builder of a scalar type makes. The type is read off an array
/// that `ArrayBuilder::finish_cloned` makes of the empty builder.
#[verifier::external_body]
pub(crate) fn field_for(
    name: &str,
    b: &BoxedBuilder,
    nullable: bool,
    metadata: &Vec<(String, String)>,
) -> (f: Field)
    requires
        builder_shape(*b) is Scalar,
        is_new(*b, builder_shape(*b)->Scalar_0),
        types::distinct_keys(metadata@),
    ensures
        field_parts(f) == (StructField {
            name: name@,
            nullable,
            ty: builder_shape(*b)->Scalar_0,
            metadata: types::metadata_pairs(metadata@),
        }),
{
    let data_type = b.builder.finish_cloned().data_type().clone();
    Field::new(name, data_type, nullable).with_metadata(metadata.iter().cloned().collect())
}

/// `StructBuilder::new`: a struct builder without rows, from the fields and their builders.
#[verifier::external_body]
pub(crate) fn struct_builder(fields: Vec<Field>, builders: Vec<BoxedBuilder>) -> (s: StructBuilder)
    requires
        forall|i: int|
            0 <= i < builders@.len() ==> #[trigger] builder_shape(builders@[i]) is Scalar,
    ensures
        struct_state(s) == (StructState {
            fields: fields@.map_values(|f: Field| field_parts(f)),
            builders: builders@.map_values(|b: BoxedBuilder| builder_shape(b)->Scalar_0),
            cells: builders@.map_values(|b: BoxedBuilder| builder_cells(b)),
            rows: Seq::empty(),
        }),
{
    StructBuilder::new(fields, builders.into_iter().map(|b| b.builder).collect())
}

/// `StructBuilder::field_builders_mut`: exchanges the builder of field `i` for `b`.
#[verifier::external_body]
pub(crate) fn swap_field_builder(s: &mut StructBuilder, i: usize, b: &mut BoxedBuilder)
    requires
        i < struct_state(*old(s)).builders.len(),
        builder_shape(*old(b)) is Scalar,
    ensures
        struct_state(*final(s)) == (StructState {
            fields: struct_state(*old(s)).fields,
            builders: struct_state(*old(s)).builders.update(
                i as int,
                builder_shape(*old(b))->Scalar_0,
            ),
            cells: struct_state(*old(s)).cells.update(i as int, builder_cells(*old(b))),
            rows: struct_state(*old(s)).rows,
        }),
        builder_shape(*final(b)) == BuilderShape::Scalar(struct_state(*old(s)).builders[i as int]),
        builder_cells(*final(b)) == struct_state(*old(s)).cells[i as int],
{
    std::mem::swap(&mut s.field_builders_mut()[i], &mut b.builder)
}

/// `StructBuilder::field_builders`: the builder of field `i`, to look at.
#[verifier::external_body]
pub(crate) fn view_field_builder(s: &StructBuilder, i: usize) -> (r: BuilderRef<'_>)
    requires
        i < struct_state(*s).builders.len(),
    ensures
        viewed_type(r) == struct_state(*s).builders[i as int],
        viewed_cells(r) == struct_state(*s).cells[i as int],
{
    BuilderRef { builder: s.field_builders()[i].as_ref() }
}

/// `StructBuilder::validity_slice`: the length of the validity bitmap of the rows.
#[verifier::external_body]
pub(crate) fn struct_validity_length(s: &StructBuilder) -> (r: Option<usize>)
    ensures
        length(r) == bitmap_for(
            struct_state(*s).rows.contains(false),
            struct_state(*s).rows.len(),
        ),
{
    s.validity_slice().map(|s| s.len())
}

/// `StructBuilder::append`: appends the validity of a row. The builders of the fields stay as they
/// are.
#[verifier::external_body]
pub(crate) fn append_struct_row(s: &mut StructBuilder, valid: bool)
    ensures
        struct_state(*final(s)) == (StructState {
            rows: struct_state(*old(s)).rows.push(valid),
            ..struct_state(*old(s))
        }),
{
    s.append(valid)
}

/// `StructBuilder::finish`: the array of the rows of a struct builder, which is empty afterwards,
/// as are the builders of its fields.
#[verifier::external_body]
pub(crate) fn finish_struct(s: &mut StructBuilder) -> (array: ArrayData)
    requires
        struct_complete(struct_state(*old(s))),
    ensures
        array_contents(array) == (ArrayContents::Struct {
            fields: struct_state(*old(s)).fields,
            columns: struct_state(*old(s)).cells,
            rows: struct_state(*old(s)).rows,
        }),
        struct_state(*final(s)) == (StructState {
            fields: struct_state(*old(s)).fields,
            builders: struct_state(*old(s)).builders,
            cells: struct_state(*old(s)).cells.map_values(
                |c: Seq<Option<Cell>>| Seq::<Option<Cell>>::empty(),
            ),
            rows: Seq::empty(),
        }),
{
    s.finish().into_data()
}

/// A `StructBuilder` as a boxed builder.
#[verifier::external_body]
pub(crate) fn box_struct_builder(s: StructBuilder) -> (b: BoxedBuilder)
    ensures
        builder_shape(b) == BuilderShape::Struct(struct_state(s).builders),
        boxed_struct_state(b) == struct_state(s),
{
    BoxedBuilder { builder: Box::new(s) }
}

/// `ArrayBuilder::into_box_any`: the `StructBuilder` in a boxed builder.
#[verifier::external_body]
pub(crate) fn unbox_struct_builder(b: BoxedBuilder) -> (s: StructBuilder)
    requires
        builder_shape(b) is Struct,
    ensures
        struct_state(s) == boxed_struct_state(b),
{
    *b.builder.into_box_any().downcast::<StructBuilder>().unwrap()
}

/// `ListBuilder::with_capacity`: a list builder without lists over a builder of its elements, which
/// stays as it is.
#[verifier::external_body]
pub(crate) fn list_builder(values: BoxedBuilder, capacity: usize) -> (b: BoxedBuilder)
    requires
        (capacity + 1) * 4 <= isize::MAX,
    ensures
        builder_shape(b) == BuilderShape::List(Box::new(builder_shape(values))),
        list_state(b) == (ListState { values, offsets: seq![0int], rows: Seq::empty() }),
{
    BoxedBuilder { builder: Box::new(ListBuilder::with_capacity(values.builder, capacity)) }
}

/// `ListBuilder::append_null`: appends a null list, which ends where the elements end. The elements
/// stay as they are. Offsets are `i32`, so there must not be more than `i32::MAX` elements.
#[verifier::external_body]
pub(crate) fn append_list_null(b: &mut BoxedBuilder)
    requires
        builder_shape(*old(b)) is List,
        builder_len(list_state(*old(b)).values) <= i32::MAX,
    ensures
        builder_shape(*final(b)) == builder_shape(*old(b)),
        list_state(*final(b)) == (ListState {
            values: list_state(*old(b)).values,
            offsets: list_state(*old(b)).offsets.push(
                builder_len(list_state(*old(b)).values) as int,
            ),
            rows: list_state(*old(b)).rows.push(false),
        }),
{
    let b = b.builder.as_any_mut().downcast_mut::<ListBuilder<Box<dyn ArrayBuilder>>>();
    b.unwrap().append_null()
}

/// `ListArray::new`: the array of the lists that the offsets cut out of the values. Arrow admits
/// offsets that start at zero or above, do not fall and end within the values, and elements that
/// are not nullable only where the values have no nulls.
#[verifier::external_body]
pub(crate) fn list_array(
    values: ArrayData,
    item_nullable: bool,
    offsets: Vec<i32>,
    rows: Vec<bool>,
) -> (array: ArrayData)
    requires
        offsets@.len() == rows@.len() + 1,
        offsets@[0] >= 0,
        forall|i: int, j: int| 0 <= i <= j < offsets@.len() ==> offsets@[i] <= offsets@[j],
        offsets@.last() <= array_contents(values).len(),
        item_nullable || !array_contents(values).has_null(),
    ensures
        array_contents(array) == (ArrayContents::List {
            item_nullable,
            values: Box::new(array_contents(values)),
            offsets: offsets@.map_values(|o: i32| o as int),
            rows: rows@,
        }),
{
    let values = make_array(values);
    let item = Field::new_list_field(values.data_type().clone(), item_nullable);
    let offsets = OffsetBuffer::new(ScalarBuffer::from(offsets));
    ListArray::new(Arc::new(item), offsets, values, Some(NullBuffer::from(rows))).into_data()
}

} // verus!
