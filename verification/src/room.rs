//! How much room columns take up: the laws of the size of their buffers.
use crate::builders;
use crate::builders::{ArrayContents, Cell, ScalarType};
use crate::column;
use crate::column::{Data, FieldShape, Shape};
use crate::scalar;
use vstd::prelude::*;

verus! {

/// The bytes of texts and byte strings add up one by one. A null has none, and neither has a value
/// of another type.
pub proof fn law_bytes_add_up(cells: Seq<Option<Cell>>)
    ensures
        builders::byte_total(cells) == cells.fold_left(
            0nat,
            |sum: nat, cell: Option<Cell>|
                sum + match cell {
                    Some(Cell::Str(text)) => vstd::utf8::encode_utf8(text).len(),
                    Some(Cell::Bytes(bytes)) => bytes.len(),
                    _ => 0,
                },
        ),
    decreases cells.len(),
{
    if cells.len() > 0 {
        law_bytes_add_up(cells.drop_last());
    }
}

/// A scalar column takes up room for the validity of its rows, once there is a null: a bit for
/// each. Then it takes up room for its values: a bit for a boolean, a fixed number of bytes for a
/// number or a byte string of a fixed width. Texts and byte strings take up their bytes, and four
/// for every offset, of which there is one more than there are rows. Each part is rounded up to a
/// multiple of 8.
#[verifier::spinoff_prover]
pub proof fn law_scalar_columns_take_up_room(ty: ScalarType, cells: Seq<Option<Cell>>)
    requires
        ty matches ScalarType::FixedSizeBinary { width } ==> width >= 0,
    ensures
        ({
            let n = cells.len() as int;
            let up = |bytes: int| (bytes + 7) / 8 * 8;
            let validity = if exists|i: int| 0 <= i < n && (#[trigger] cells[i]) is None {
                up((n + 7) / 8)
            } else {
                0
            };
            ty.buffer_bytes(cells) == validity + match ty {
                ScalarType::Boolean => up((n + 7) / 8),
                ScalarType::Int8 => up(n),
                ScalarType::Int16 => up(2 * n),
                ScalarType::Int32 => up(4 * n),
                ScalarType::Int64 => up(8 * n),
                ScalarType::Float32 => up(4 * n),
                ScalarType::Float64 => up(8 * n),
                ScalarType::Utf8 => up(4 * (n + 1)) + up(builders::byte_total(cells) as int),
                ScalarType::Binary => up(4 * (n + 1)) + up(builders::byte_total(cells) as int),
                ScalarType::FixedSizeBinary { width } => up(n * width),
                ScalarType::Decimal128 { .. } => up(16 * n),
                ScalarType::Date32 => up(4 * n),
                ScalarType::Time32Second => up(4 * n),
                ScalarType::Time32Millisecond => up(4 * n),
                ScalarType::Time64Microsecond => up(8 * n),
                ScalarType::Time64Nanosecond => up(8 * n),
                ScalarType::TimestampSecond => up(8 * n),
                ScalarType::TimestampMillisecond => up(8 * n),
                ScalarType::TimestampMicrosecond => up(8 * n),
                ScalarType::TimestampNanosecond => up(8 * n),
            }
        }),
        ty is Utf8 || ty is Binary ==> ty.buffer_bytes(cells) >= builders::byte_total(cells),
{
    let n = cells.len();
    if cells.contains(None) {
        let i = choose|i: int| 0 <= i < n && cells[i] is None;
        assert(cells[i] is None);
    }
    if exists|i: int| 0 <= i < n && (#[trigger] cells[i]) is None {
        let i = choose|i: int| 0 <= i < n && (#[trigger] cells[i]) is None;
        assert(cells[i] == None::<Cell>);
        assert(cells.contains(None));
    }
    if let ScalarType::FixedSizeBinary { width } = ty {
        assert(width >= 0 ==> n * width >= 0) by (nonlinear_arith);
    }
}

/// A column takes up the room of its parts. A list column has a bit of validity for every row, four
/// bytes for every offset, and its elements. A struct column has a bit of validity for every row
/// once one is null, and its fields.
#[verifier::spinoff_prover]
pub proof fn law_columns_take_up_the_room_of_their_parts(shape: Shape, data: Data)
    requires
        shape.holds(data),
    ensures
        ({
            let up = |bytes: nat| (bytes + 7) / 8 * 8;
            match shape.array(data) {
                ArrayContents::Scalar { ty, cells } => shape.buffer_bytes(data)
                    == ty.buffer_bytes(cells),
                ArrayContents::List { offsets, rows, .. } => {
                    &&& shape is List
                    &&& shape.buffer_bytes(data) == up((rows.len() + 7) / 8) + up(
                        4 * offsets.len(),
                    ) + shape->item.buffer_bytes(*data->values)
                },
                ArrayContents::Struct { fields, columns, rows } => {
                    let validity = if exists|i: int|
                        0 <= i < rows.len() && !(#[trigger] rows[i]) {
                        up((rows.len() + 7) / 8)
                    } else {
                        0nat
                    };
                    shape.buffer_bytes(data) == validity + Seq::new(
                        fields.len(),
                        |i: int| fields[i].ty.buffer_bytes(columns[i]),
                    ).fold_left(0nat, |sum: nat, bytes: nat| sum + bytes)
                },
            }
        }),
{
    match shape.array(data) {
        ArrayContents::Scalar { .. } => {},
        ArrayContents::List { .. } => {},
        ArrayContents::Struct { .. } => {
            lemma_struct_room(shape, data);
        },
    }
}

#[verifier::spinoff_prover]
proof fn lemma_struct_room(shape: Shape, data: Data)
    requires
        shape.holds(data),
        shape is Struct,
    ensures
        ({
            let fields = shape.array(data)->Struct_fields;
            let columns = shape.array(data)->columns;
            let rows = shape.array(data)->Struct_rows;
            shape.buffer_bytes(data) == (if exists|i: int|
                0 <= i < rows.len() && !(#[trigger] rows[i]) {
                ((rows.len() + 7) / 8 + 7) / 8 * 8
            } else {
                0nat
            }) + Seq::new(
                fields.len(),
                |i: int| fields[i].ty.buffer_bytes(columns[i]),
            ).fold_left(0nat, |sum: nat, bytes: nat| sum + bytes)
        }),
{
    let shapes = shape->Struct_fields;
    let fields = shape.array(data)->Struct_fields;
    let columns = shape.array(data)->columns;
    let rows = shape.array(data)->Struct_rows;
    let parts = Seq::new(fields.len(), |i: int| fields[i].ty.buffer_bytes(columns[i]));
    let sum = parts.fold_left(0nat, |sum: nat, bytes: nat| sum + bytes);
    assert(rows == data->Struct_rows);
    assert(columns == data->columns);
    lemma_fields_add_up(shapes, columns, shapes.len());
    assert(parts =~= Seq::new(
        shapes.len(),
        |i: int| shapes[i].column.ty.buffer_bytes(columns[i]),
    ));
    assert(column::fields_bytes(Shape::struct_columns(shapes), columns, shapes.len()) == sum);
    assert(rows.contains(false) <==> exists|i: int| 0 <= i < rows.len() && !(#[trigger] rows[i]))
        by {
        if rows.contains(false) {
            let i = choose|i: int| 0 <= i < rows.len() && rows[i] == false;
            assert(!rows[i]);
        }
        if exists|i: int| 0 <= i < rows.len() && !(#[trigger] rows[i]) {
            let i = choose|i: int| 0 <= i < rows.len() && !(#[trigger] rows[i]);
            assert(rows[i] == false);
        }
    }
    let validity = if rows.contains(false) {
        ((rows.len() + 7) / 8 + 7) / 8 * 8
    } else {
        0nat
    };
    assert(scalar::padded(scalar::bitmap_size(rows.contains(false), rows.len())) == validity);
    assert(shape.buffer_bytes(data) == validity + sum);
}

proof fn lemma_fields_add_up(
    fields: Seq<FieldShape>,
    columns: Seq<Seq<Option<Cell>>>,
    n: nat,
)
    requires
        n <= fields.len(),
    ensures
        column::fields_bytes(Shape::struct_columns(fields), columns, n) == Seq::new(
            n,
            |i: int| fields[i].column.ty.buffer_bytes(columns[i]),
        ).fold_left(0nat, |sum: nat, bytes: nat| sum + bytes),
    decreases n,
{
    if n > 0 {
        let k = (n - 1) as nat;
        lemma_fields_add_up(fields, columns, k);
        let parts = Seq::new(n, |i: int| fields[i].column.ty.buffer_bytes(columns[i]));
        assert(parts.drop_last() =~= Seq::new(
            k,
            |i: int| fields[i].column.ty.buffer_bytes(columns[i]),
        ));
    }
}

} // verus!
