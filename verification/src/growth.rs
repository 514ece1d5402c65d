//! How the data of a column grows: what a write keeps, and what it adds.
use crate::builders;
use crate::builders::{Cell, ScalarType};
use crate::column;
use crate::column::{Data, Shape, StructColumn};
use crate::error::Fault;
use crate::row::{FlussArray, Request, Value};
use vstd::prelude::*;

verus! {

/// Whether an answer is an error or an array, where an array was asked for.
pub open spec fn answers(request: Request, answer: Result<Value, Fault>) -> bool {
    request is Array ==> (answer matches Ok(value) ==> value is Array)
}

/// What an array answers is of the type that was asked for.
pub proof fn lemma_array_answers(array: FlussArray, i: usize, request: Request)
    ensures
        answers(request, array.value_at(i, request)),
{
}

/// Data is a prefix of itself.
pub proof fn lemma_prefix_reflexive(data: Data)
    ensures
        data.is_prefix_of(data),
    decreases data,
{
    if let Data::List { values, .. } = data {
        lemma_prefix_reflexive(*values);
    }
}

/// A prefix of a prefix is a prefix.
pub proof fn lemma_prefix_transitive(a: Data, b: Data, c: Data)
    requires
        a.is_prefix_of(b),
        b.is_prefix_of(c),
    ensures
        a.is_prefix_of(c),
    decreases a,
{
    match (a, b, c) {
        (
            Data::List { values: u, .. },
            Data::List { values: v, .. },
            Data::List { values: w, .. },
        ) => {
            lemma_prefix_transitive(*u, *v, *w);
        },
        (
            Data::Struct { columns: u, .. },
            Data::Struct { columns: v, .. },
            Data::Struct { columns: w, .. },
        ) => {
            assert forall|i: int| 0 <= i < u.len() implies (#[trigger] u[i]).is_prefix_of(w[i]) by {
                assert(u[i].is_prefix_of(v[i]));
                assert(v[i].is_prefix_of(w[i]));
            }
        },
        _ => {},
    }
}

/// Appending a null keeps what is there and adds a row.
pub proof fn lemma_append_null(shape: Shape, data: Data)
    requires
        shape.holds(data),
    ensures
        shape.holds(shape.append_null(data)),
        data.is_prefix_of(shape.append_null(data)),
        shape.append_null(data).len() == data.len() + 1,
        shape.append_null(data).has_null(),
{
    lemma_prefix_reflexive(data);
    match data {
        Data::Scalar(cells) => {
            assert(cells.push(None).last() is None);
        },
        Data::List { values, offsets, rows } => {
            lemma_prefix_reflexive(*values);
            assert(!rows.push(false).last());
        },
        Data::Struct { columns, rows } => {
            assert(!rows.push(false).last());
            let after = columns.map_values(|c: Seq<Option<Cell>>| c.push(None));
            assert forall|i: int|
                0 <= i < columns.len() implies (#[trigger] columns[i]).is_prefix_of(
                after[i],
            ) && after[i].len() == rows.len() + 1 by {}
        },
    }
}

/// Appending a value keeps what is there and adds a row.
pub proof fn lemma_append_value(shape: Shape, data: Data, value: Value)
    requires
        shape.holds(data),
        answers(shape.request(), Ok(value)),
        shape.check(Ok(value)) is Ok,
    ensures
        shape.holds(shape.append_value(data, value)),
        data.is_prefix_of(shape.append_value(data, value)),
        shape.append_value(data, value).len() == data.len() + 1,
    decreases shape, 0nat,
{
    lemma_prefix_reflexive(data);
    match (shape, data, value) {
        (
            Shape::List { item, .. },
            Data::List { values, offsets, rows },
            Value::Array(array),
        ) => {
            lemma_append_elements(*item, *values, array, array.elements@.len());
        },
        (
            Shape::Struct { fields, .. },
            Data::Struct { columns, rows },
            Value::Array(array),
        ) => {
            let written = column::append_fields(Shape::struct_columns(fields), columns, array);
            assert forall|i: int|
                0 <= i < columns.len() implies (#[trigger] columns[i]).is_prefix_of(
                written[i],
            ) && written[i].len() == rows.len() + 1 by {}
        },
        _ => {},
    }
}

/// Appending elements keeps what is there and adds a row per element.
pub proof fn lemma_append_elements(shape: Shape, data: Data, array: FlussArray, n: nat)
    requires
        shape.holds(data),
        shape.check_elements(array, n) is Ok,
    ensures
        shape.holds(shape.append_elements(data, array, n)),
        data.is_prefix_of(shape.append_elements(data, array, n)),
        shape.append_elements(data, array, n).len() == data.len() + n,
    decreases shape, n + 1,
{
    lemma_prefix_reflexive(data);
    if n > 0 {
        lemma_append_elements(shape, data, array, (n - 1) as nat);
        lemma_append_element(shape, data, array, n);
        lemma_prefix_transitive(
            data,
            shape.append_elements(data, array, (n - 1) as nat),
            shape.append_elements(data, array, n),
        );
    }
}

/// Appending the last of `n` elements keeps what the others gave and adds a row.
proof fn lemma_append_element(shape: Shape, data: Data, array: FlussArray, n: nat)
    requires
        n > 0,
        shape.holds(shape.append_elements(data, array, (n - 1) as nat)),
        shape.check_elements(array, n) is Ok,
    ensures
        ({
            let before = shape.append_elements(data, array, (n - 1) as nat);
            let after = shape.append_elements(data, array, n);
            &&& shape.holds(after)
            &&& before.is_prefix_of(after)
            &&& after.len() == before.len() + 1
        }),
    decreases shape, 1nat,
{
    let i = (n - 1) as nat;
    let before = shape.append_elements(data, array, i);
    if array.null_at(i as usize) {
        lemma_append_null(shape, before);
    } else {
        let answer = array.value_at(i as usize, shape.request());
        lemma_array_answers(array, i as usize, shape.request());
        assert(shape.check(answer) is Ok);
        assert(answer is Ok);
        lemma_append_value(shape, before, answer->Ok_0);
    }
}

/// Elements that can be written can be written up to any of them.
pub proof fn lemma_check_elements_before(shape: Shape, array: FlussArray, m: nat, n: nat)
    requires
        m <= n,
    ensures
        shape.check_elements(array, m) is Err ==> shape.check_elements(array, n)
            == shape.check_elements(array, m),
    decreases n - m,
{
    if m < n {
        lemma_check_elements_before(shape, array, m, (n - 1) as nat);
    }
}

/// Fields that can be written can be written up to any of them.
pub proof fn lemma_check_fields_before(
    fields: Seq<StructColumn>,
    array: FlussArray,
    m: nat,
    n: nat,
)
    requires
        m <= n,
    ensures
        column::check_fields(fields, array, m) is Err ==> column::check_fields(fields, array, n)
            == column::check_fields(fields, array, m),
    decreases n - m,
{
    if m < n {
        lemma_check_fields_before(fields, array, m, (n - 1) as nat);
    }
}

/// What is there after some elements have been appended is kept when more of them are.
pub proof fn lemma_append_elements_grows(
    shape: Shape,
    data: Data,
    array: FlussArray,
    m: nat,
    n: nat,
)
    requires
        shape.holds(data),
        m <= n,
        shape.check_elements(array, n) is Ok,
    ensures
        shape.append_elements(data, array, m).is_prefix_of(shape.append_elements(data, array, n)),
    decreases n - m,
{
    if m == n {
        lemma_prefix_reflexive(shape.append_elements(data, array, m));
    } else {
        let i = (n - 1) as nat;
        lemma_append_elements_grows(shape, data, array, m, i);
        lemma_append_elements(shape, data, array, i);
        lemma_append_element(shape, data, array, n);
        lemma_prefix_transitive(
            shape.append_elements(data, array, m),
            shape.append_elements(data, array, i),
            shape.append_elements(data, array, n),
        );
    }
}

/// Writing keeps what is there. It adds a row where it succeeds, and nothing where it fails.
pub proof fn lemma_write(
    shape: Shape,
    data: Data,
    null: Result<bool, Fault>,
    answer: Result<Value, Fault>,
)
    requires
        shape.holds(data),
        answers(shape.request(), answer),
    ensures
        ({
            let (written, result) = shape.write(data, null, answer);
            &&& shape.holds(written)
            &&& data.is_prefix_of(written)
            &&& result is Ok ==> written.len() == data.len() + 1
            &&& result is Err ==> written == data
        }),
{
    lemma_prefix_reflexive(data);
    lemma_append_null(shape, data);
    if shape.check(answer) is Ok {
        assert(answer is Ok);
        lemma_append_value(shape, data, answer->Ok_0);
    }
}

/// More fields have no fewer bytes.
pub proof fn lemma_fields_bytes_grow(
    fields: Seq<StructColumn>,
    columns: Seq<Seq<Option<Cell>>>,
    m: nat,
    n: nat,
)
    requires
        m <= n,
    ensures
        column::fields_bytes(fields, columns, m) <= column::fields_bytes(fields, columns, n),
    decreases n - m,
{
    if m < n {
        lemma_fields_bytes_grow(fields, columns, m, (n - 1) as nat);
    }
}

/// A new writer holds what its shape admits.
pub proof fn lemma_empty_holds(shape: Shape)
    requires
        shape.wf(),
    ensures
        shape.holds(shape.empty()),
        shape.fits(shape.empty()),
        shape.empty().len() == 0,
    decreases shape,
{
    if let Shape::List { item, .. } = shape {
        lemma_empty_holds(*item);
    }
}

/// A shape that holds data is well-formed.
pub proof fn lemma_holds_wf(shape: Shape, data: Data)
    requires
        shape.holds(data),
    ensures
        shape.wf(),
    decreases shape,
{
    if let (Shape::List { item, .. }, Data::List { values, .. }) = (shape, data) {
        lemma_holds_wf(*item, *values);
    }
}

/// The bytes of a prefix are no more than the bytes of the whole.
pub proof fn lemma_byte_total_prefix(a: Seq<Option<Cell>>, b: Seq<Option<Cell>>)
    requires
        a.is_prefix_of(b),
    ensures
        builders::byte_total(a) <= builders::byte_total(b),
    decreases b.len(),
{
    if a.len() == b.len() {
        assert(a =~= b);
    } else {
        assert(a.is_prefix_of(b.drop_last()));
        lemma_byte_total_prefix(a, b.drop_last());
    }
}

/// A prefix of cells that fit a column fits it too.
pub proof fn lemma_cells_fit_before(ty: ScalarType, a: Seq<Option<Cell>>, b: Seq<Option<Cell>>)
    requires
        a.is_prefix_of(b),
        ty.fits(b),
    ensures
        ty.fits(a),
{
    lemma_byte_total_prefix(a, b);
}

/// What is within the reach of 32-bit offsets was so before it grew.
pub proof fn lemma_fits_before(shape: Shape, data: Data, later: Data)
    requires
        shape.holds(data),
        shape.holds(later),
        data.is_prefix_of(later),
        shape.fits(later),
    ensures
        shape.fits(data),
    decreases shape,
{
    match (shape, data, later) {
        (Shape::Scalar { kind, .. }, Data::Scalar(a), Data::Scalar(b)) => {
            lemma_cells_fit_before(kind.spec_ty(), a, b);
        },
        (
            Shape::List { item, .. },
            Data::List { values, offsets, .. },
            Data::List { values: later_values, offsets: later_offsets, .. },
        ) => {
            lemma_fits_before(*item, *values, *later_values);
            assert(offsets.last() == later_offsets[offsets.len() - 1]);
            assert(later_offsets[offsets.len() - 1] <= later_offsets[later_offsets.len() - 1]);
        },
        (
            Shape::Struct { fields, .. },
            Data::Struct { columns, .. },
            Data::Struct { columns: later_columns, .. },
        ) => {
            assert forall|i: int|
                0 <= i < fields.len() implies (#[trigger] fields[i]).column.ty.fits(
                columns[i],
            ) by {
                assert(columns[i].is_prefix_of(later_columns[i]));
                lemma_cells_fit_before(fields[i].column.ty, columns[i], later_columns[i]);
            }
        },
        _ => {},
    }
}

} // verus!
