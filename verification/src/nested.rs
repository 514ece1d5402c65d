//! Making builders for the elements of lists and the fields of structs, by their Arrow types.
use crate::builders;
use crate::builders::{
    BoxedBuilder, BuilderShape, Cell, ListState, ScalarType, StructField,
};
use crate::error::{Error, Fault, Refusal};
use crate::scalar::{append_scalar_null, new_builder};
use crate::struct_writer;
use crate::struct_writer::append_null_row;
use crate::types;
use crate::types::{ArrowField, ArrowType, TimeUnit};
use arrow_schema::Field;
use vstd::prelude::*;

verus! {

/// The number of bytes that room is made for per text or byte string in a nested builder.
pub const NESTED_AVG_BYTES: usize = 64;

/// Which builder a boxed builder is.
#[derive(Debug)]
pub enum BuilderForm {
    Scalar(ScalarType),
    /// A struct builder, by the builders of its fields.
    Struct(Vec<ScalarType>),
    /// A list builder, by the builder of its elements.
    List(Box<BuilderForm>),
}

impl BuilderForm {
    /// The shape of such a builder.
    pub open spec fn shape(self) -> BuilderShape
        decreases self,
    {
        match self {
            BuilderForm::Scalar(ty) => BuilderShape::Scalar(ty),
            BuilderForm::Struct(types) => BuilderShape::Struct(types@),
            BuilderForm::List(values) => BuilderShape::List(Box::new(values.shape())),
        }
    }
}

/// Whether a null can be appended to a builder: its offsets reach the end of what is in it.
pub open spec fn can_append_null(b: BoxedBuilder) -> bool {
    match builders::builder_shape(b) {
        BuilderShape::Scalar(ty) => ty.fits(builders::builder_cells(b)),
        BuilderShape::Struct(types) => {
            &&& builders::boxed_struct_state(b).builders == types
            &&& builders::boxed_struct_state(b).cells.len() == types.len()
            &&& forall|i: int|
                0 <= i < types.len() ==> (#[trigger] types[i]).fits(
                    builders::boxed_struct_state(b).cells[i],
                )
        },
        BuilderShape::List(_) => builders::builder_len(builders::list_state(b).values)
            <= i32::MAX,
    }
}

/// Whether `after` is `before` with one more entry, which is a null. A null in a struct is a null
/// in each of its fields. A null list ends where the elements end, which stay as they are.
pub open spec fn null_appended(before: BoxedBuilder, after: BoxedBuilder) -> bool {
    &&& builders::builder_shape(after) == builders::builder_shape(before)
    &&& builders::builder_len(after) == builders::builder_len(before) + 1
    &&& match builders::builder_shape(before) {
        BuilderShape::Scalar(_) => builders::appended(before, after, None),
        BuilderShape::Struct(_) => builders::boxed_struct_state(after) == struct_writer::null_row(
            builders::boxed_struct_state(before),
        ),
        BuilderShape::List(_) => {
            let list = builders::list_state(before);
            builders::list_state(after) == (ListState {
                values: list.values,
                offsets: list.offsets.push(builders::builder_len(list.values) as int),
                rows: list.rows.push(false),
            })
        },
    }
}

/// Appends a null to a builder of the given form.
pub fn append_null_to_builder(builder: &mut BoxedBuilder, form: &BuilderForm)
    requires
        builders::builder_shape(*old(builder)) == form.shape(),
        can_append_null(*old(builder)),
    ensures
        null_appended(*old(builder), *final(builder)),
{
    match form {
        BuilderForm::Scalar(ty) => append_scalar_null(builder, *ty),
        BuilderForm::Struct(types) => {
            let mut taken = builders::boolean_builder(0);
            std::mem::swap(builder, &mut taken);
            let mut fields = builders::unbox_struct_builder(taken);
            let mut spare = builders::boolean_builder(0);
            append_null_row(types, &mut fields, &mut spare);
            *builder = builders::box_struct_builder(fields);
        },
        BuilderForm::List(_) => builders::append_list_null(builder),
    }
}

/// The builder for an Arrow type without children. There is none for the large types: they share
/// the builder of the type with 32-bit offsets. The time zone of a timestamp plays no part.
pub open spec fn builder_type(arrow: ArrowType) -> Option<ScalarType> {
    match arrow {
        ArrowType::Boolean => Some(ScalarType::Boolean),
        ArrowType::Int8 => Some(ScalarType::Int8),
        ArrowType::Int16 => Some(ScalarType::Int16),
        ArrowType::Int32 => Some(ScalarType::Int32),
        ArrowType::Int64 => Some(ScalarType::Int64),
        ArrowType::Float32 => Some(ScalarType::Float32),
        ArrowType::Float64 => Some(ScalarType::Float64),
        ArrowType::Utf8 | ArrowType::LargeUtf8 => Some(ScalarType::Utf8),
        ArrowType::Binary | ArrowType::LargeBinary => Some(ScalarType::Binary),
        ArrowType::FixedSizeBinary(width) => Some(ScalarType::FixedSizeBinary { width: width }),
        ArrowType::Decimal128(precision, scale) => Some(
            ScalarType::Decimal128 { precision: precision, scale: scale },
        ),
        ArrowType::Date32 => Some(ScalarType::Date32),
        ArrowType::Time32(TimeUnit::Second) => Some(ScalarType::Time32Second),
        ArrowType::Time32(TimeUnit::Millisecond) => Some(ScalarType::Time32Millisecond),
        ArrowType::Time64(TimeUnit::Microsecond) => Some(ScalarType::Time64Microsecond),
        ArrowType::Time64(TimeUnit::Nanosecond) => Some(ScalarType::Time64Nanosecond),
        ArrowType::Timestamp(TimeUnit::Second, _) => Some(ScalarType::TimestampSecond),
        ArrowType::Timestamp(TimeUnit::Millisecond, _) => Some(ScalarType::TimestampMillisecond),
        ArrowType::Timestamp(TimeUnit::Microsecond, _) => Some(ScalarType::TimestampMicrosecond),
        ArrowType::Timestamp(TimeUnit::Nanosecond, _) => Some(ScalarType::TimestampNanosecond),
        _ => None,
    }
}

/// The builder for an Arrow type without children.
pub fn find_builder_type(arrow: &ArrowType) -> (r: Option<ScalarType>)
    ensures
        r == builder_type(*arrow),
{
    match arrow {
        ArrowType::Boolean => Some(ScalarType::Boolean),
        ArrowType::Int8 => Some(ScalarType::Int8),
        ArrowType::Int16 => Some(ScalarType::Int16),
        ArrowType::Int32 => Some(ScalarType::Int32),
        ArrowType::Int64 => Some(ScalarType::Int64),
        ArrowType::Float32 => Some(ScalarType::Float32),
        ArrowType::Float64 => Some(ScalarType::Float64),
        ArrowType::Utf8 | ArrowType::LargeUtf8 => Some(ScalarType::Utf8),
        ArrowType::Binary | ArrowType::LargeBinary => Some(ScalarType::Binary),
        ArrowType::FixedSizeBinary(width) => Some(ScalarType::FixedSizeBinary { width: *width }),
        ArrowType::Decimal128(precision, scale) => Some(
            ScalarType::Decimal128 { precision: *precision, scale: *scale },
        ),
        ArrowType::Date32 => Some(ScalarType::Date32),
        ArrowType::Time32(TimeUnit::Second) => Some(ScalarType::Time32Second),
        ArrowType::Time32(TimeUnit::Millisecond) => Some(ScalarType::Time32Millisecond),
        ArrowType::Time64(TimeUnit::Microsecond) => Some(ScalarType::Time64Microsecond),
        ArrowType::Time64(TimeUnit::Nanosecond) => Some(ScalarType::Time64Nanosecond),
        ArrowType::Timestamp(TimeUnit::Second, _) => Some(ScalarType::TimestampSecond),
        ArrowType::Timestamp(TimeUnit::Millisecond, _) => Some(ScalarType::TimestampMillisecond),
        ArrowType::Timestamp(TimeUnit::Microsecond, _) => Some(ScalarType::TimestampMicrosecond),
        ArrowType::Timestamp(TimeUnit::Nanosecond, _) => Some(ScalarType::TimestampNanosecond),
        _ => None,
    }
}

/// The builder that a field of a struct has, by its Arrow type.
pub open spec fn boxed_type(arrow: ArrowType) -> Result<ScalarType, Fault> {
    match builder_type(arrow) {
        Some(ty) => ty.admitted(),
        None => Err(
            (match arrow {
                ArrowType::List(_) => Refusal::NestedList,
                ArrowType::Struct(_) => Refusal::NestedStruct,
                _ => Refusal::BoxedBuilderType { found: arrow },
            }).fault(),
        ),
    }
}

/// The builder that a field has in a struct that is an element of a list, by its Arrow type.
pub open spec fn element_field_type(arrow: ArrowType) -> Result<ScalarType, Fault> {
    match arrow {
        ArrowType::Boolean | ArrowType::Int8 | ArrowType::Int16 | ArrowType::Int32
        | ArrowType::Int64 | ArrowType::Float32 | ArrowType::Float64 | ArrowType::Utf8
        | ArrowType::LargeUtf8 | ArrowType::Binary | ArrowType::LargeBinary
        | ArrowType::FixedSizeBinary(_) | ArrowType::Date32 => Ok(builder_type(arrow)->0),
        _ => Err((Refusal::StructFieldType { found: arrow }).fault()),
    }
}

/// The builders that the fields have in a struct that is an element of a list, or the error of the
/// first field that has none.
pub open spec fn element_field_types(fields: Seq<ArrowField>) -> Result<Seq<ScalarType>, Fault>
    decreases fields.len(),
{
    if fields.len() == 0 {
        Ok(Seq::empty())
    } else {
        match element_field_types(fields.drop_last()) {
            Ok(types) => match element_field_type(fields.last().data_type) {
                Ok(ty) => Ok(types.push(ty)),
                Err(e) => Err(e),
            },
            Err(e) => Err(e),
        }
    }
}

/// The builder that the elements of a list have, by their Arrow type.
pub open spec fn element_shape(arrow: ArrowType) -> Result<BuilderShape, Fault>
    decreases arrow,
{
    match arrow {
        ArrowType::List(item) => match element_shape(item.data_type) {
            Ok(shape) => Ok(BuilderShape::List(Box::new(shape))),
            Err(e) => Err(e),
        },
        ArrowType::Struct(fields) => match element_field_types(fields@) {
            Ok(types) => Ok(BuilderShape::Struct(types)),
            Err(e) => Err(e),
        },
        _ => match builder_type(arrow) {
            Some(ty) => match ty.admitted() {
                Ok(ty) => Ok(BuilderShape::Scalar(ty)),
                Err(e) => Err(e),
            },
            None => Err((Refusal::ListElementType { found: arrow }).fault()),
        },
    }
}

/// The fields of a struct builder for the given Arrow fields, whose builders have the given types.
/// A field takes its type from its builder, and the rest from the Arrow field.
pub open spec fn built_fields(fields: Seq<ArrowField>, types: Seq<ScalarType>) -> Seq<StructField> {
    Seq::new(
        types.len(),
        |i: int|
            StructField {
                name: fields[i].name@,
                nullable: fields[i].nullable,
                ty: types[i],
                metadata: types::metadata_pairs(fields[i].metadata@),
            },
    )
}

/// Whether a builder for elements of the given Arrow type was made for the fields of that type: so
/// was the struct builder, where there is one under the lists.
pub open spec fn made_for(b: BoxedBuilder, arrow: ArrowType) -> bool
    decreases arrow,
{
    match arrow {
        ArrowType::List(item) => made_for(builders::list_state(b).values, item.data_type),
        ArrowType::Struct(fields) => builders::boxed_struct_state(b).fields == built_fields(
            fields@,
            builders::boxed_struct_state(b).builders,
        ),
        _ => true,
    }
}

/// Whether a nested builder of the given type and capacity can be asked for.
pub open spec fn can_reserve_nested(ty: ScalarType, capacity: usize) -> bool {
    ty.can_reserve(capacity, capacity * NESTED_AVG_BYTES)
}

/// Whether a list builder for elements of the given Arrow type can be asked for with this capacity:
/// every builder that is made for it can.
pub open spec fn can_reserve_elements(arrow: ArrowType, capacity: usize) -> bool
    decreases arrow,
{
    &&& element_shape(arrow) is Ok ==> (capacity + 1) * 4 <= isize::MAX
    &&& match arrow {
        ArrowType::List(item) => can_reserve_elements(item.data_type, capacity),
        ArrowType::Struct(fields) => forall|i: int|
            0 <= i < fields@.len() && element_field_types(fields@.take(i)) is Ok ==> (
            element_field_type((#[trigger] fields@[i]).data_type) matches Ok(ty)
                ==> can_reserve_nested(ty, capacity) && types::distinct_keys(fields@[i].metadata@)),
        _ => builder_type(arrow) matches Some(ty) ==> can_reserve_nested(ty, capacity),
    }
}

/// An empty nested builder of the given type.
fn new_nested_builder(ty: ScalarType, capacity: usize) -> (r: Result<BoxedBuilder, Error>)
    requires
        can_reserve_nested(ty, capacity),
    ensures
        match r {
            Ok(b) => ty.admitted() == Ok::<ScalarType, Fault>(ty) && builders::is_new(b, ty),
            Err(e) => ty.admitted() == Err::<ScalarType, Fault>(e@),
        },
{
    let bytes: usize = match ty {
        ScalarType::Utf8 | ScalarType::Binary => capacity * NESTED_AVG_BYTES,
        _ => 0,
    };
    new_builder(ty, capacity, bytes)
}

/// An empty builder for a field of a struct, by its Arrow type, and the type of the builder.
pub fn create_boxed_builder(arrow_type: &ArrowType, capacity: usize) -> (r: Result<
    (ScalarType, BoxedBuilder),
    Error,
>)
    requires
        builder_type(*arrow_type) matches Some(ty) ==> can_reserve_nested(ty, capacity),
    ensures
        match r {
            Ok((ty, b)) => boxed_type(*arrow_type) == Ok::<ScalarType, Fault>(ty)
                && builders::is_new(b, ty),
            Err(e) => boxed_type(*arrow_type) == Err::<ScalarType, Fault>(e@),
        },
{
    match find_builder_type(arrow_type) {
        Some(ty) => Ok((ty, new_nested_builder(ty, capacity)?)),
        None => Err(
            match arrow_type {
                ArrowType::List(_) => Error::nested_list(),
                ArrowType::Struct(_) => Error::nested_struct(),
                _ => Error::boxed_builder_type(arrow_type),
            },
        ),
    }
}

/// An empty builder for a field of a struct that is an element of a list, by its Arrow type, and
/// the type of the builder.
pub fn create_builder_for_type(arrow_type: &ArrowType, capacity: usize) -> (r: Result<
    (ScalarType, BoxedBuilder),
    Error,
>)
    requires
        element_field_type(*arrow_type) matches Ok(ty) ==> can_reserve_nested(ty, capacity),
    ensures
        match r {
            Ok((ty, b)) => element_field_type(*arrow_type) == Ok::<ScalarType, Fault>(ty)
                && builders::is_new(b, ty),
            Err(e) => element_field_type(*arrow_type) == Err::<ScalarType, Fault>(e@),
        },
{
    let ty = match arrow_type {
        ArrowType::Boolean => ScalarType::Boolean,
        ArrowType::Int8 => ScalarType::Int8,
        ArrowType::Int16 => ScalarType::Int16,
        ArrowType::Int32 => ScalarType::Int32,
        ArrowType::Int64 => ScalarType::Int64,
        ArrowType::Float32 => ScalarType::Float32,
        ArrowType::Float64 => ScalarType::Float64,
        ArrowType::Utf8 | ArrowType::LargeUtf8 => ScalarType::Utf8,
        ArrowType::Binary | ArrowType::LargeBinary => ScalarType::Binary,
        ArrowType::FixedSizeBinary(width) => ScalarType::FixedSizeBinary { width: *width },
        ArrowType::Date32 => ScalarType::Date32,
        _ => {
            return Err(Error::struct_field_type(arrow_type));
        },
    };
    Ok((ty, new_nested_builder(ty, capacity)?))
}

/// An empty list builder, by the Arrow type of the elements, and the form of the builder of its
/// elements.
pub fn create_list_builder(element_arrow_type: &ArrowType, capacity: usize) -> (r: Result<
    (BuilderForm, BoxedBuilder),
    Error,
>)
    requires
        can_reserve_elements(*element_arrow_type, capacity),
    ensures
        match r {
            Ok((form, b)) => {
                &&& element_shape(*element_arrow_type) == Ok::<BuilderShape, Fault>(form.shape())
                &&& builders::is_empty_builder(b, BuilderShape::List(Box::new(form.shape())))
                &&& made_for(builders::list_state(b).values, *element_arrow_type)
            },
            Err(e) => element_shape(*element_arrow_type) == Err::<BuilderShape, Fault>(e@),
        },
    decreases *element_arrow_type,
{
    let (form, values) = match element_arrow_type {
        ArrowType::List(item) => {
            let (inner, values) = create_list_builder(&item.data_type, capacity)?;
            (BuilderForm::List(Box::new(inner)), values)
        },
        ArrowType::Struct(fields) => {
            let (types, values) = create_element_struct_builder(fields, capacity)?;
            (BuilderForm::Struct(types), values)
        },
        _ => match find_builder_type(element_arrow_type) {
            Some(ty) => (BuilderForm::Scalar(ty), new_nested_builder(ty, capacity)?),
            None => {
                return Err(Error::list_element_type(element_arrow_type));
            },
        },
    };
    assert(builders::is_empty_builder(values, form.shape()));
    assert(made_for(values, *element_arrow_type));
    Ok((form, builders::list_builder(values, capacity)))
}

/// An empty struct builder for elements of a list, by the fields of their Arrow type, and the
/// builders of its fields.
pub fn create_element_struct_builder(arrow_fields: &Vec<ArrowField>, capacity: usize) -> (r: Result<
    (Vec<ScalarType>, BoxedBuilder),
    Error,
>)
    requires
        forall|i: int|
            0 <= i < arrow_fields@.len() && element_field_types(arrow_fields@.take(i)) is Ok ==> (
            element_field_type((#[trigger] arrow_fields@[i]).data_type) matches Ok(ty)
                ==> can_reserve_nested(ty, capacity) && types::distinct_keys(
                arrow_fields@[i].metadata@,
            )),
    ensures
        match r {
            Ok((types, b)) => {
                &&& element_field_types(arrow_fields@) == Ok::<Seq<ScalarType>, Fault>(types@)
                &&& builders::is_empty_builder(b, BuilderShape::Struct(types@))
                &&& builders::boxed_struct_state(b).fields == built_fields(arrow_fields@, types@)
            },
            Err(e) => element_field_types(arrow_fields@) == Err::<Seq<ScalarType>, Fault>(e@),
        },
{
    let mut fields: Vec<Field> = Vec::new();
    let mut types: Vec<ScalarType> = Vec::new();
    let mut field_builders: Vec<BoxedBuilder> = Vec::new();
    let mut i: usize = 0;
    while i < arrow_fields.len()
        invariant
            i <= arrow_fields@.len(),
            fields@.len() == i,
            field_builders@.len() == i,
            types@.len() == i,
            forall|j: int|
                0 <= j < i ==> (#[trigger] builders::field_parts(fields@[j])) == built_fields(
                    arrow_fields@,
                    types@,
                )[j],
            element_field_types(arrow_fields@.take(i as int)) == Ok::<Seq<ScalarType>, Fault>(
                types@,
            ),
            forall|j: int|
                0 <= j < i ==> {
                    &&& (#[trigger] builders::builder_shape(field_builders@[j]))
                        == BuilderShape::Scalar(types@[j])
                    &&& builders::is_new(field_builders@[j], types@[j])
                },
            forall|i: int|
                0 <= i < arrow_fields@.len() && element_field_types(arrow_fields@.take(i)) is Ok
                    ==> (element_field_type((#[trigger] arrow_fields@[i]).data_type) matches Ok(ty)
                    ==> can_reserve_nested(ty, capacity) && types::distinct_keys(
                    arrow_fields@[i].metadata@,
                )),
        decreases arrow_fields@.len() - i,
    {
        let field = &arrow_fields[i];
        proof {
            assert(arrow_fields@.take(i + 1).drop_last() =~= arrow_fields@.take(i as int));
        }
        match create_builder_for_type(&field.data_type, capacity) {
            Ok((ty, b)) => {
                types.push(ty);
                fields.push(builders::field_for(
                        field.name.as_str(),
                        &b,
                        field.nullable,
                        &field.metadata,
                    ));
                field_builders.push(b);
            },
            Err(e) => {
                proof {
                    lemma_first_field_error(arrow_fields@, i as int);
                }
                return Err(e);
            },
        }
        i = i + 1;
    }
    let ghost made = field_builders@;
    let ghost parts = fields@;
    let builder = builders::struct_builder(fields, field_builders);
    proof {
        assert(arrow_fields@.take(i as int) =~= arrow_fields@);
        assert(builders::struct_state(builder).builders =~= types@);
        assert(builders::struct_state(builder).fields =~= built_fields(arrow_fields@, types@)) by {
            assert(forall|j: int|
                0 <= j < parts.len() ==> (#[trigger] builders::field_parts(parts[j]))
                    == built_fields(arrow_fields@, types@)[j]);
        }
        assert forall|j: int| 0 <= j < types@.len() implies builders::builder_cells(made[j])
            == Seq::<Option<Cell>>::empty() by {
            assert(builders::builder_shape(made[j]) is Scalar);
        }
        assert(builders::struct_state(builder).cells =~= types@.map_values(
            |ty: ScalarType| Seq::<Option<Cell>>::empty(),
        ));
    }
    Ok((types, builders::box_struct_builder(builder)))
}

/// The error of a field, where the fields before it have none, is the error of all the fields.
proof fn lemma_first_field_error(fields: Seq<ArrowField>, i: int)
    requires
        0 <= i < fields.len(),
        element_field_types(fields.take(i + 1)) is Err,
    ensures
        element_field_types(fields) == element_field_types(fields.take(i + 1)),
    decreases fields.len(),
{
    if i + 1 == fields.len() {
        assert(fields.take(i + 1) =~= fields);
    } else {
        assert(fields.drop_last().take(i + 1) =~= fields.take(i + 1));
        lemma_first_field_error(fields.drop_last(), i);
    }
}

} // verus!
