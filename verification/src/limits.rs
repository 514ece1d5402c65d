//! The laws of what a caller has to see to: that it is no more than it must be.
use crate::builders;
use crate::builders::{BoxedBuilder, Cell, ScalarType};
use crate::column::{Data, Shape};
use crate::nested;
use crate::types;
use crate::types::{ArrowType, DataType, TypeRoot};
use vstd::prelude::*;

verus! {

/// What a column holds fits its builders, unless it has more bytes of text or of byte strings, or
/// more elements of lists, than 32-bit offsets reach.
pub proof fn law_only_offsets_limit_writes(shape: Shape, data: Data)
    requires
        shape.holds(data),
    ensures
        shape.fits(data) <==> match (shape, data) {
            (Shape::Scalar { kind, .. }, Data::Scalar(cells)) => {
                kind.spec_ty() is Utf8 || kind.spec_ty() is Binary ==> builders::byte_total(cells)
                    <= 0x7fff_ffff
            },
            (Shape::List { item, .. }, Data::List { values, .. }) => {
                item.fits(*values) && values.len() <= 0x7fff_ffff
            },
            (Shape::Struct { fields, .. }, Data::Struct { columns, .. }) => forall|i: int|
                0 <= i < fields.len() && ((#[trigger] fields[i]).column.ty is Utf8
                    || fields[i].column.ty is Binary) ==> builders::byte_total(columns[i])
                    <= 0x7fff_ffff,
            _ => false,
        },
{
}

/// What a column holds can be finished, unless a part of it has more bytes than 32-bit positions
/// reach, a null stands where the array must have none, or a builder of a struct is not of the
/// Arrow type that was asked for.
pub proof fn law_only_what_arrow_refuses_cannot_be_finished(shape: Shape, data: Data)
    requires
        shape.holds(data),
        shape.fits(data),
    ensures
        shape.can_finish(data) <==> match (shape, data) {
            (Shape::Scalar { kind, .. }, Data::Scalar(cells)) => {
                kind.spec_ty() matches ScalarType::FixedSizeBinary { width } ==> cells.len() * width
                    <= 0x7fff_ffff
            },
            (Shape::List { item, .. }, Data::List { values, .. }) => {
                item.can_finish(*values) && (item.nullable() || !values.has_null())
            },
            (Shape::Struct { fields, complete, .. }, Data::Struct { columns, rows }) => {
                &&& complete
                &&& forall|i: int| 0 <= i < fields.len() ==> (#[trigger] fields[i]).exact
                &&& forall|i: int|
                    0 <= i < fields.len() ==> ((#[trigger] fields[i]).column.ty
                        matches ScalarType::FixedSizeBinary { width } ==> columns[i].len() * width
                        <= 0x7fff_ffff)
                &&& forall|i: int, j: int|
                    0 <= i < fields.len() && 0 <= j < rows.len() && !fields[i].nullable && rows[j]
                        ==> (#[trigger] columns[i][j]) is Some
            },
            _ => false,
        },
        data.has_null() <==> match data {
            Data::Scalar(cells) => exists|i: int|
                0 <= i < cells.len() && (#[trigger] cells[i]) is None,
            Data::List { rows, .. } => exists|i: int| 0 <= i < rows.len() && !(#[trigger] rows[i]),
            Data::Struct { rows, .. } => exists|i: int|
                0 <= i < rows.len() && !(#[trigger] rows[i]),
        },
{
    match data {
        Data::Scalar(cells) => {
            if exists|i: int| 0 <= i < cells.len() && (#[trigger] cells[i]) is None {
                let i = choose|i: int| 0 <= i < cells.len() && (#[trigger] cells[i]) is None;
                assert(cells[i] == None::<Cell>);
                assert(cells.contains(None));
            }
        },
        Data::List { rows, .. } => {
            lemma_contains_false(rows);
        },
        Data::Struct { rows, .. } => {
            lemma_contains_false(rows);
        },
    }
    if let (Shape::Struct { fields, .. }, Data::Struct { columns, .. }) = (shape, data) {
        assert(shape.within_reach(data) <==> forall|i: int|
            0 <= i < fields.len() ==> ((#[trigger] fields[i]).column.ty
                matches ScalarType::FixedSizeBinary { width } ==> columns[i].len() * width
                <= 0x7fff_ffff));
    }
}

proof fn lemma_contains_false(rows: Seq<bool>)
    ensures
        rows.contains(false) <==> exists|i: int| 0 <= i < rows.len() && !(#[trigger] rows[i]),
{
    if exists|i: int| 0 <= i < rows.len() && !(#[trigger] rows[i]) {
        let i = choose|i: int| 0 <= i < rows.len() && !(#[trigger] rows[i]);
        assert(rows[i] == false);
    }
}

/// A scalar column can be asked for with any capacity for which there is room, at 64 bytes per row
/// or at the width of the values.
pub proof fn law_scalar_columns_can_be_created(
    fluss: DataType,
    arrow: ArrowType,
    capacity: usize,
)
    requires
        fluss.root !is Array,
        fluss.root !is Row,
        (capacity + 1) * 64 <= isize::MAX,
        fluss.root matches TypeRoot::Binary { width } ==> capacity * width <= isize::MAX,
    ensures
        Shape::can_create(fluss, arrow, capacity),
{
}

/// A list column of elements without children can be asked for wherever a column of the elements
/// can, with any capacity for which there is room, at 64 bytes per row or at the width of the
/// values.
pub proof fn law_list_columns_can_be_created(
    fluss: DataType,
    arrow: ArrowType,
    capacity: usize,
)
    requires
        fluss.root is Array,
        arrow is List,
        arrow->List_0.data_type !is Struct,
        arrow->List_0.data_type !is List,
        (capacity + 1) * 64 <= isize::MAX,
        arrow->List_0.data_type matches ArrowType::FixedSizeBinary(width) ==> 0 <= width
            && capacity * width <= isize::MAX,
        Shape::can_create(*fluss.root->element, arrow->List_0.data_type, capacity),
    ensures
        Shape::can_create(fluss, arrow, capacity),
{
}

/// A struct column can be asked for with any capacity for which there is room, at 64 bytes per row
/// or at the width of the values, where the Arrow type has a field for each of the row type and no
/// key twice in the metadata of one.
pub proof fn law_struct_columns_can_be_created(
    fluss: DataType,
    arrow: ArrowType,
    capacity: usize,
)
    requires
        fluss.root is Row,
        (capacity + 1) * 64 <= isize::MAX,
        arrow matches ArrowType::Struct(fields) ==> {
            &&& fluss.root->Row_fields@.len() <= fields@.len()
            &&& forall|i: int|
                0 <= i < fields@.len() ==> {
                    &&& (#[trigger] fields@[i]).data_type matches ArrowType::FixedSizeBinary(width)
                        ==> 0 <= width && capacity * width <= isize::MAX
                    &&& forall|j: int, k: int|
                        0 <= j < k < fields@[i].metadata@.len() ==> (
                        #[trigger] fields@[i].metadata@[j]).0@ != (
                        #[trigger] fields@[i].metadata@[k]).0@
                }
        },
    ensures
        Shape::can_create(fluss, arrow, capacity),
{
    if let ArrowType::Struct(arrow_fields) = arrow {
        let n = fluss.root->Row_fields@.len();
        assert forall|i: int| 0 <= i < n implies (nested::builder_type(
            (#[trigger] arrow_fields@[i]).data_type,
        ) matches Some(ty) ==> nested::can_reserve_nested(ty, capacity)
            && types::distinct_keys(arrow_fields@[i].metadata@)) by {
            let field = arrow_fields@[i];
            let metadata = field.metadata@;
            assert(types::distinct_keys(metadata)) by {
                assert forall|j: int, k: int| 0 <= j < k < metadata.len() implies (
                #[trigger] metadata[j]).0@ != (#[trigger] metadata[k]).0@ by {
                    assert(arrow_fields@[i].metadata@[j] == metadata[j]);
                    assert(arrow_fields@[i].metadata@[k] == metadata[k]);
                }
            }
            if let Some(ty) = nested::builder_type(field.data_type) {
                lemma_room_for_nested(field.data_type, ty, capacity);
            }
        }
    }
}

proof fn lemma_room_for_nested(arrow: ArrowType, ty: ScalarType, capacity: usize)
    requires
        nested::builder_type(arrow) == Some(ty),
        (capacity + 1) * 64 <= isize::MAX,
        arrow matches ArrowType::FixedSizeBinary(width) ==> 0 <= width && capacity * width
            <= isize::MAX,
    ensures
        nested::can_reserve_nested(ty, capacity),
{
}

/// The metadata of a field is all its pairs of a key and a value, and nothing else.
pub proof fn law_metadata_is_kept(
    metadata: Seq<(String, String)>,
    key: Seq<char>,
    value: Seq<char>,
)
    ensures
        types::metadata_pairs(metadata).contains((key, value)) <==> exists|i: int|
            0 <= i < metadata.len() && (#[trigger] metadata[i]).0@ == key && metadata[i].1@
                == value,
{
    let pairs = metadata.map_values(|pair: (String, String)| (pair.0@, pair.1@));
    if types::metadata_pairs(metadata).contains((key, value)) {
        let i = choose|i: int| 0 <= i < pairs.len() && pairs[i] == (key, value);
        assert(metadata[i].0@ == key && metadata[i].1@ == value);
    }
    if exists|i: int|
        0 <= i < metadata.len() && (#[trigger] metadata[i]).0@ == key && metadata[i].1@ == value {
        let i = choose|i: int|
            0 <= i < metadata.len() && (#[trigger] metadata[i]).0@ == key && metadata[i].1@
                == value;
        assert(pairs[i] == (key, value));
        assert(pairs.contains((key, value)));
    }
}

/// A cell that is appended to a builder comes behind what is there, and the builder stays one of
/// its type. A builder that stays as it was holds the same.
pub proof fn law_cells_are_appended(
    before: BoxedBuilder,
    after: BoxedBuilder,
    cell: Option<Cell>,
)
    ensures
        builders::appended(before, after, cell) ==> builders::builder_shape(after)
            == builders::builder_shape(before) && builders::builder_cells(after)
            == builders::builder_cells(before).push(cell),
        builders::unchanged(before, after) ==> builders::builder_shape(after)
            == builders::builder_shape(before) && builders::builder_cells(after)
            == builders::builder_cells(before),
{
}

} // verus!
