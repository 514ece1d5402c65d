//! Writing the fields of a row to the builders of a struct.
use crate::builders;
use crate::builders::{BoxedBuilder, Cell, ScalarType, StructState};
use crate::column;
use crate::column::{FieldReader, StructColumn};
use crate::error;
use crate::error::{Error, Fault};
use crate::growth;
use crate::kind::{append_scalar, read_scalar, ScalarKind, ScalarValue};
use crate::row::{ArrayElementRow, FlussArray, InternalRow};
use crate::scalar;
use crate::types::TypeKind;
use crate::values;
use arrow::array::StructBuilder;
use vstd::prelude::*;

verus! {

/// Whether the builders of a struct are those of the columns.
pub open spec fn struct_wf(columns: Seq<StructColumn>, state: StructState) -> bool {
    &&& state.builders == columns.map_values(|c: StructColumn| c.ty)
    &&& state.cells.len() == columns.len()
}

/// The state after a cell has been appended to the field at `i`.
pub open spec fn with_cell(state: StructState, i: int, cell: Option<Cell>) -> StructState {
    StructState { cells: state.cells.update(i, state.cells[i].push(cell)), ..state }
}

/// The state after a null row has been appended: a null to each field, and a row that is not valid.
pub open spec fn null_row(state: StructState) -> StructState {
    StructState {
        cells: state.cells.map_values(|c: Seq<Option<Cell>>| c.push(None)),
        rows: state.rows.push(false),
        ..state
    }
}

/// How a field of a struct is written: by its logical type, as it prints, and its builder.
#[derive(Debug)]
pub struct FieldWriter {
    pub kind: TypeKind,
    pub ty: ScalarType,
    pub type_text: String,
}

impl View for FieldWriter {
    type V = StructColumn;

    open spec fn view(&self) -> StructColumn {
        StructColumn { kind: self.kind, ty: self.ty, type_text: self.type_text@ }
    }
}

/// How the fields of a struct are written.
pub open spec fn viewed(columns: Seq<FieldWriter>) -> Seq<StructColumn> {
    columns.map_values(|c: FieldWriter| c@)
}

impl FieldWriter {
    /// Whether the builder takes a null of the logical type.
    fn can_take_null(&self) -> (r: bool)
        ensures
            r == self@.takes_null(),
    {
        match (self.kind, self.ty) {
            (TypeKind::Boolean, ScalarType::Boolean) => true,
            (TypeKind::TinyInt, ScalarType::Int8) => true,
            (TypeKind::SmallInt, ScalarType::Int16) => true,
            (TypeKind::Int, ScalarType::Int32) => true,
            (TypeKind::BigInt, ScalarType::Int64) => true,
            (TypeKind::Float, ScalarType::Float32) => true,
            (TypeKind::Double, ScalarType::Float64) => true,
            (TypeKind::String | TypeKind::Char, ScalarType::Utf8) => true,
            (TypeKind::Bytes | TypeKind::Binary, ScalarType::Binary) => true,
            (TypeKind::Date, ScalarType::Date32) => true,
            (TypeKind::Decimal { .. }, ScalarType::Decimal128 { .. }) => true,
            (TypeKind::Time, ScalarType::Int32) => true,
            (TypeKind::Timestamp, ScalarType::TimestampMillisecond) => true,
            (TypeKind::TimestampLTz, ScalarType::TimestampMillisecond) => true,
            _ => false,
        }
    }

    /// Why the field at `idx` takes no null.
    fn null_refusal(&self, idx: usize) -> (e: Error)
        requires
            !self@.takes_null(),
        ensures
            self@.null_cell(idx) == Err::<Option<Cell>, Fault>(e@),
    {
        match self.kind {
            TypeKind::MapType => Error::map_field_null(),
            _ => Error::field_null(idx, self.type_text.as_str()),
        }
    }

    /// How a value of the field at `idx` is read.
    fn find_reader(&self, idx: usize) -> (r: Result<FieldReader, Error>)
        ensures
            error::told(r) == self@.reader(idx),
            r matches Ok(FieldReader::Kind(kind)) ==> kind.wf() && kind.spec_ty() == self.ty,
            r matches Ok(FieldReader::Decimal { .. }) ==> self.ty is Decimal128,
    {
        let kind = match self.ty {
            ScalarType::Boolean => ScalarKind::Bool,
            ScalarType::Int8 => ScalarKind::Int8,
            ScalarType::Int16 => ScalarKind::Int16,
            ScalarType::Int32 => ScalarKind::Int32,
            ScalarType::Int64 => ScalarKind::Int64,
            ScalarType::Float32 => ScalarKind::Float32,
            ScalarType::Float64 => ScalarKind::Float64,
            ScalarType::Utf8 => ScalarKind::String,
            ScalarType::Binary => ScalarKind::Bytes,
            ScalarType::Date32 => ScalarKind::Date32,
            ScalarType::Decimal128 { .. } => {
                return match self.kind {
                    TypeKind::Decimal { precision, scale } => Ok(
                        FieldReader::Decimal { precision, scale },
                    ),
                    _ => Err(Error::field_not_decimal()),
                };
            },
            ScalarType::TimestampMillisecond => match self.kind {
                TypeKind::TimestampLTz => ScalarKind::TimestampLtzMillisecond { precision: 3 },
                _ => ScalarKind::TimestampNtzMillisecond { precision: 3 },
            },
            ScalarType::TimestampMicrosecond => match self.kind {
                TypeKind::TimestampLTz => ScalarKind::TimestampLtzMicrosecond { precision: 6 },
                _ => ScalarKind::TimestampNtzMicrosecond { precision: 6 },
            },
            _ => {
                return Err(
                    match self.kind {
                        TypeKind::Array => Error::array_field(),
                        TypeKind::Row => Error::row_field(),
                        TypeKind::MapType => Error::map_field(),
                        _ => Error::no_matching_builder(idx, self.type_text.as_str()),
                    },
                );
            },
        };
        Ok(FieldReader::Kind(kind))
    }
}

/// Appends a null to the field at `idx`, whose builder must be the one for its logical type.
pub fn append_null_to_struct_field(
    struct_builder: &mut StructBuilder,
    idx: usize,
    column: &FieldWriter,
    spare: &mut BoxedBuilder,
) -> (r: Result<(), Error>)
    requires
        builders::builder_shape(*old(spare)) is Scalar,
        idx < builders::struct_state(*old(struct_builder)).builders.len(),
        idx < builders::struct_state(*old(struct_builder)).cells.len(),
        builders::struct_state(*old(struct_builder)).builders[idx as int] == column.ty,
        column.ty.fits(builders::struct_state(*old(struct_builder)).cells[idx as int]),
    ensures
        builders::builder_shape(*final(spare)) is Scalar,
        match column@.null_cell(idx) {
            Ok(cell) => error::told(r) == Ok::<(), Fault>(())
                && builders::struct_state(*final(struct_builder)) == with_cell(
                builders::struct_state(*old(struct_builder)),
                idx as int,
                cell,
            ),
            Err(e) => error::told(r) == Err::<(), Fault>(e)
                && builders::struct_state(*final(struct_builder)) == builders::struct_state(
                *old(struct_builder),
            ),
        },
{
    if column.can_take_null() {
        builders::swap_field_builder(struct_builder, idx, spare);
        scalar::append_scalar_null(spare, column.ty);
        builders::swap_field_builder(struct_builder, idx, spare);
        assert(builders::struct_state(*struct_builder) =~= with_cell(
            builders::struct_state(*old(struct_builder)),
            idx as int,
            None,
        ));
        return Ok(());
    }
    Err(column.null_refusal(idx))
}

/// Reads the value of a field, an element of the array that a row is held as, as the field stores
/// it.
fn read_field<'a>(column: &FieldWriter, element: &'a ArrayElementRow<'_>, idx: usize) -> (r: Result<
    ScalarValue<'a>,
    Error,
>)
    requires
        element.index() == idx,
    ensures
        match r {
            Ok(v) => column@.value_cell(element.array(), idx) == Ok::<Cell, Fault>(v.cell())
                && v.suits(column.ty),
            Err(e) => column@.value_cell(element.array(), idx) == Err::<Cell, Fault>(e@),
        },
{
    match column.find_reader(idx)? {
        FieldReader::Kind(kind) => read_scalar(kind, element, 0),
        FieldReader::Decimal { precision, scale } => {
            let decimal = element.get_decimal(0, precision as usize, scale as usize)?;
            Ok(
                ScalarValue::Int128(
                    values::decimal_to_unscaled(&decimal, precision, scale as i64)?,
                ),
            )
        },
    }
}

/// Whether what a row has in the field at `idx` can be written, or why not.
fn check_field(row_array: &FlussArray, idx: usize, column: &FieldWriter) -> (r: Result<(), Error>)
    ensures
        match r {
            Ok(()) => column@.cell(*row_array, idx) is Ok,
            Err(e) => column@.cell(*row_array, idx) == Err::<Option<Cell>, Fault>(e@),
        },
{
    if row_array.is_null_at(idx) {
        if column.can_take_null() {
            Ok(())
        } else {
            Err(column.null_refusal(idx))
        }
    } else {
        match read_field(column, &ArrayElementRow::new(row_array, idx), idx) {
            Ok(_) => Ok(()),
            Err(e) => Err(e),
        }
    }
}

/// Whether the fields of a row can be written, or the error of the first that cannot.
pub fn check_struct_fields(row_array: &FlussArray, columns: &Vec<FieldWriter>) -> (r: Result<
    (),
    Error,
>)
    ensures
        error::told(r) == column::check_fields(viewed(columns@), *row_array, columns@.len()),
{
    let mut idx: usize = 0;
    while idx < columns.len()
        invariant
            idx <= columns@.len(),
            column::check_fields(viewed(columns@), *row_array, idx as nat) == Ok::<(), Fault>(()),
        decreases columns@.len() - idx,
    {
        match check_field(row_array, idx, &columns[idx]) {
            Ok(()) => {},
            Err(e) => {
                proof {
                    growth::lemma_check_fields_before(
                        viewed(columns@),
                        *row_array,
                        (idx + 1) as nat,
                        columns@.len(),
                    );
                }
                return Err(e);
            },
        }
        idx = idx + 1;
    }
    Ok(())
}

/// Appends the value of the field at `idx`. Where it fails, the struct builder stays as it was.
pub fn write_field_to_struct_builder(
    row_array: &FlussArray,
    idx: usize,
    column: &FieldWriter,
    struct_builder: &mut StructBuilder,
    spare: &mut BoxedBuilder,
) -> (r: Result<(), Error>)
    requires
        builders::builder_shape(*old(spare)) is Scalar,
        idx < builders::struct_state(*old(struct_builder)).builders.len(),
        idx < builders::struct_state(*old(struct_builder)).cells.len(),
        builders::struct_state(*old(struct_builder)).builders[idx as int] == column.ty,
        column@.value_cell(*row_array, idx) matches Ok(cell) ==> column.ty.fits(
            builders::struct_state(*old(struct_builder)).cells[idx as int].push(Some(cell)),
        ),
    ensures
        builders::builder_shape(*final(spare)) is Scalar,
        match column@.value_cell(*row_array, idx) {
            Ok(cell) => error::told(r) == Ok::<(), Fault>(())
                && builders::struct_state(*final(struct_builder)) == with_cell(
                builders::struct_state(*old(struct_builder)),
                idx as int,
                Some(cell),
            ),
            Err(e) => error::told(r) == Err::<(), Fault>(e)
                && builders::struct_state(*final(struct_builder)) == builders::struct_state(
                *old(struct_builder),
            ),
        },
{
    let element = ArrayElementRow::new(row_array, idx);
    let value = read_field(column, &element, idx)?;
    builders::swap_field_builder(struct_builder, idx, spare);
    append_scalar(column.ty, spare, value);
    builders::swap_field_builder(struct_builder, idx, spare);
    assert(builders::struct_state(*struct_builder) =~= with_cell(
        builders::struct_state(*old(struct_builder)),
        idx as int,
        Some(value.cell()),
    ));
    Ok(())
}

/// Appends what the row has in the field at `idx`. Where it fails, the struct builder stays as it
/// was.
fn write_struct_field(
    row_array: &FlussArray,
    idx: usize,
    column: &FieldWriter,
    struct_builder: &mut StructBuilder,
    spare: &mut BoxedBuilder,
) -> (r: Result<(), Error>)
    requires
        builders::builder_shape(*old(spare)) is Scalar,
        idx < builders::struct_state(*old(struct_builder)).builders.len(),
        idx < builders::struct_state(*old(struct_builder)).cells.len(),
        builders::struct_state(*old(struct_builder)).builders[idx as int] == column.ty,
        column.ty.fits(builders::struct_state(*old(struct_builder)).cells[idx as int]),
        column@.cell(*row_array, idx) matches Ok(cell) ==> column.ty.fits(
            builders::struct_state(*old(struct_builder)).cells[idx as int].push(cell),
        ),
    ensures
        builders::builder_shape(*final(spare)) is Scalar,
        match column@.cell(*row_array, idx) {
            Ok(cell) => error::told(r) == Ok::<(), Fault>(())
                && builders::struct_state(*final(struct_builder)) == with_cell(
                builders::struct_state(*old(struct_builder)),
                idx as int,
                cell,
            ),
            Err(e) => error::told(r) == Err::<(), Fault>(e)
                && builders::struct_state(*final(struct_builder)) == builders::struct_state(
                *old(struct_builder),
            ),
        },
{
    if row_array.is_null_at(idx) {
        append_null_to_struct_field(struct_builder, idx, column, spare)
    } else {
        write_field_to_struct_builder(row_array, idx, column, struct_builder, spare)
    }
}

/// The cells of which the first `n` columns have one more than before.
spec fn partly_appended(
    columns: Seq<Seq<Option<Cell>>>,
    new: Seq<Option<Cell>>,
    n: int,
) -> Seq<Seq<Option<Cell>>> {
    Seq::new(
        columns.len(),
        |i: int|
            if i < n {
                columns[i].push(new[i])
            } else {
                columns[i]
            },
    )
}

/// Appends the row that an array stands for: a cell to each field, in order, then a valid row.
/// Where a field cannot be written, nothing is.
pub fn write_fluss_array_to_struct_builder(
    row_array: &FlussArray,
    columns: &Vec<FieldWriter>,
    struct_builder: &mut StructBuilder,
    spare: &mut BoxedBuilder,
) -> (r: Result<(), Error>)
    requires
        builders::builder_shape(*old(spare)) is Scalar,
        struct_wf(viewed(columns@), builders::struct_state(*old(struct_builder))),
        column::check_fields(viewed(columns@), *row_array, columns@.len()) is Ok ==> forall|i: int|
            0 <= i < columns@.len() ==> (#[trigger] columns@[i]).ty.wf() && columns@[i].ty.fits(
                column::append_fields(
                    viewed(columns@),
                    builders::struct_state(*old(struct_builder)).cells,
                    *row_array,
                )[i],
            ),
    ensures
        builders::builder_shape(*final(spare)) is Scalar,
        error::told(r) == column::check_fields(viewed(columns@), *row_array, columns@.len()),
        builders::struct_state(*final(struct_builder)) == if r is Ok {
            StructState {
                cells: column::append_fields(
                    viewed(columns@),
                    builders::struct_state(*old(struct_builder)).cells,
                    *row_array,
                ),
                rows: builders::struct_state(*old(struct_builder)).rows.push(true),
                ..builders::struct_state(*old(struct_builder))
            }
        } else {
            builders::struct_state(*old(struct_builder))
        },
{
    check_struct_fields(row_array, columns)?;
    let ghost state = builders::struct_state(*struct_builder);
    let ghost new = Seq::new(
        columns@.len(),
        |i: int| columns@[i]@.cell(*row_array, i as usize)->Ok_0,
    );
    let mut idx: usize = 0;
    proof {
        assert(partly_appended(state.cells, new, 0) =~= state.cells);
    }
    while idx < columns.len()
        invariant
            idx <= columns@.len(),
            state == builders::struct_state(*old(struct_builder)),
            builders::builder_shape(*spare) is Scalar,
            struct_wf(viewed(columns@), state),
            new == Seq::new(
                columns@.len(),
                |i: int| columns@[i]@.cell(*row_array, i as usize)->Ok_0,
            ),
            column::check_fields(viewed(columns@), *row_array, columns@.len()) is Ok,
            forall|i: int|
                0 <= i < columns@.len() ==> (#[trigger] columns@[i]).ty.wf() && columns@[i].ty.fits(
                    column::append_fields(viewed(columns@), state.cells, *row_array)[i],
                ),
            builders::struct_state(*struct_builder) == (StructState {
                cells: partly_appended(state.cells, new, idx as int),
                ..state
            }),
        decreases columns@.len() - idx,
    {
        proof {
            let i = idx as int;
            growth::lemma_check_fields_before(
                viewed(columns@),
                *row_array,
                (idx + 1) as nat,
                columns@.len(),
            );
            growth::lemma_check_fields_before(
                viewed(columns@),
                *row_array,
                idx as nat,
                columns@.len(),
            );
            assert(columns@[i]@.cell(*row_array, idx) is Ok);
            assert(columns@[i].ty.fits(state.cells[i].push(new[i])));
            growth::lemma_cells_fit_before(
                columns@[i].ty,
                state.cells[i],
                state.cells[i].push(new[i]),
            );
        }
        write_struct_field(row_array, idx, &columns[idx], struct_builder, spare)?;
        proof {
            assert(partly_appended(state.cells, new, idx + 1) =~= partly_appended(
                state.cells,
                new,
                idx as int,
            ).update(idx as int, state.cells[idx as int].push(new[idx as int])));
        }
        idx = idx + 1;
    }
    proof {
        assert(partly_appended(state.cells, new, idx as int) =~= column::append_fields(
            viewed(columns@),
            state.cells,
            *row_array,
        ));
    }
    builders::append_struct_row(struct_builder, true);
    Ok(())
}

/// Appends a null row: a null to each field, then a row that is not valid.
pub fn append_null_row(
    types: &Vec<ScalarType>,
    struct_builder: &mut StructBuilder,
    spare: &mut BoxedBuilder,
)
    requires
        builders::builder_shape(*old(spare)) is Scalar,
        builders::struct_state(*old(struct_builder)).builders == types@,
        builders::struct_state(*old(struct_builder)).cells.len() == types@.len(),
        forall|i: int|
            0 <= i < types@.len() ==> (#[trigger] types@[i]).fits(
                builders::struct_state(*old(struct_builder)).cells[i],
            ),
    ensures
        builders::builder_shape(*final(spare)) is Scalar,
        builders::struct_state(*final(struct_builder)) == null_row(
            builders::struct_state(*old(struct_builder)),
        ),
{
    let ghost state = builders::struct_state(*struct_builder);
    let ghost new: Seq<Option<Cell>> = Seq::new(types@.len(), |i: int| None);
    let mut idx: usize = 0;
    proof {
        assert(partly_appended(state.cells, new, 0) =~= state.cells);
    }
    while idx < types.len()
        invariant
            idx <= types@.len(),
            state == builders::struct_state(*old(struct_builder)),
            builders::builder_shape(*spare) is Scalar,
            state.builders == types@,
            state.cells.len() == types@.len(),
            new == Seq::new(types@.len(), |i: int| None::<Cell>),
            forall|i: int|
                0 <= i < types@.len() ==> (#[trigger] types@[i]).fits(state.cells[i]),
            builders::struct_state(*struct_builder) == (StructState {
                cells: partly_appended(state.cells, new, idx as int),
                ..state
            }),
        decreases types@.len() - idx,
    {
        builders::swap_field_builder(struct_builder, idx, spare);
        scalar::append_scalar_null(spare, types[idx]);
        builders::swap_field_builder(struct_builder, idx, spare);
        proof {
            assert(builders::struct_state(*struct_builder).builders =~= state.builders);
            assert(builders::struct_state(*struct_builder).cells =~= partly_appended(
                state.cells,
                new,
                idx + 1,
            ));
        }
        idx = idx + 1;
    }
    proof {
        assert(partly_appended(state.cells, new, idx as int) =~= state.cells.map_values(
            |c: Seq<Option<Cell>>| c.push(None),
        ));
    }
    builders::append_struct_row(struct_builder, false);
}

/// The number of bytes of the buffers of a struct: the validity of its rows, then its fields.
pub fn struct_buffer_size(columns: &Vec<FieldWriter>, struct_builder: &StructBuilder) -> (r: usize)
    requires
        struct_wf(viewed(columns@), builders::struct_state(*struct_builder)),
        scalar::padded(
            scalar::bitmap_size(
                builders::struct_state(*struct_builder).rows.contains(false),
                builders::struct_state(*struct_builder).rows.len(),
            ),
        ) + column::fields_bytes(
            viewed(columns@),
            builders::struct_state(*struct_builder).cells,
            columns@.len(),
        ) <= usize::MAX,
    ensures
        r == scalar::padded(
            scalar::bitmap_size(
                builders::struct_state(*struct_builder).rows.contains(false),
                builders::struct_state(*struct_builder).rows.len(),
            ),
        ) + column::fields_bytes(
            viewed(columns@),
            builders::struct_state(*struct_builder).cells,
            columns@.len(),
        ),
{
    let ghost state = builders::struct_state(*struct_builder);
    let ghost rows = scalar::padded(
        scalar::bitmap_size(state.rows.contains(false), state.rows.len()),
    );
    let mut size: usize = scalar::validity_size(builders::struct_validity_length(struct_builder));
    let mut idx: usize = 0;
    while idx < columns.len()
        invariant
            idx <= columns@.len(),
            state == builders::struct_state(*struct_builder),
            struct_wf(viewed(columns@), state),
            rows + column::fields_bytes(viewed(columns@), state.cells, columns@.len())
                <= usize::MAX,
            size == rows + column::fields_bytes(viewed(columns@), state.cells, idx as nat),
        decreases columns@.len() - idx,
    {
        proof {
            growth::lemma_fields_bytes_grow(
                viewed(columns@),
                state.cells,
                (idx + 1) as nat,
                columns@.len(),
            );
        }
        let field = builders::view_field_builder(struct_builder, idx);
        size = size + scalar::scalar_buffer_size(&field, columns[idx].ty);
        idx = idx + 1;
    }
    size
}

} // verus!
