//! The laws of column writers.
//!
//! They are stated over what a writer was made for and what it holds, which is what the contracts
//! of its methods speak of.
use crate::builders;
use crate::builders::{ArrayContents, Cell, ScalarType};
use crate::column;
use crate::column::{Data, Shape, StructColumn};
use crate::column_writer::ColumnWriter;
use crate::entries::{Entry, Reading};
use crate::error;
use crate::error::{Error, Fault, Refusal};
use crate::growth;
use crate::kind::ScalarKind;
use crate::row::{FlussArray, InternalRow, Value};
use crate::scalar;
use crate::types::{ArrowType, DataType, TypeRoot};
use vstd::prelude::*;

verus! {

/// Whether a write succeeds, and the error where it does not, does not depend on what the writer
/// holds.
pub proof fn law_outcome_ignores_data(
    shape: Shape,
    a: Data,
    b: Data,
    null: Result<bool, Fault>,
    answer: Result<Value, Fault>,
)
    ensures
        shape.write(a, null, answer).1 == shape.write(b, null, answer).1,
{
}

/// The rows that are there stay as they are while the data grows.
pub proof fn law_rows_stay(shape: Shape, data: Data, later: Data)
    requires
        shape.holds(data),
        shape.holds(later),
        data.is_prefix_of(later),
    ensures
        shape.rows(data).is_prefix_of(shape.rows(later)),
        shape.rows(data).len() == data.len(),
    decreases shape,
{
    match (shape, data, later) {
        (Shape::Scalar { .. }, Data::Scalar(a), Data::Scalar(b)) => {
            assert(shape.rows(data).is_prefix_of(shape.rows(later)));
        },
        (
            Shape::List { item, .. },
            Data::List { values, offsets, rows },
            Data::List { values: later_values, offsets: later_offsets, rows: later_rows },
        ) => {
            law_rows_stay(*item, *values, *later_values);
            let a = shape.rows(data);
            let b = shape.rows(later);
            let inner = item.rows(*values);
            let later_inner = item.rows(*later_values);
            assert forall|i: int| 0 <= i < a.len() implies a[i] == b[i] by {
                assert(offsets[i] == later_offsets[i]);
                assert(offsets[i + 1] == later_offsets[i + 1]);
                assert(offsets[0] <= offsets[i] <= offsets[i + 1] <= offsets[offsets.len() - 1]);
                assert(inner.subrange(offsets[i], offsets[i + 1]) =~= later_inner.subrange(
                    offsets[i],
                    offsets[i + 1],
                ));
            }
        },
        (
            Shape::Struct { .. },
            Data::Struct { columns, rows },
            Data::Struct { columns: later_columns, rows: later_rows },
        ) => {
            let a = shape.rows(data);
            let b = shape.rows(later);
            assert forall|i: int| 0 <= i < a.len() implies a[i] == b[i] by {
                assert forall|f: int| 0 <= f < columns.len() implies columns[f][i]
                    == later_columns[f][i] by {
                    assert(columns[f].is_prefix_of(later_columns[f]));
                    assert(columns[f].len() == rows.len());
                }
                assert(columns.map_values(|c: Seq<Option<Cell>>| c[i]) =~= later_columns.map_values(
                    |c: Seq<Option<Cell>>| c[i],
                ));
            }
        },
        _ => {},
    }
}

/// Appending a value adds the row of that value, and no other.
#[verifier::spinoff_prover]
pub proof fn law_write_reads_back(shape: Shape, data: Data, value: Value)
    requires
        shape.holds(data),
        growth::answers(shape.request(), Ok(value)),
        shape.write_value(data, Ok(value)).1 is Ok,
    ensures
        shape.rows(shape.write_value(data, Ok(value)).0) == shape.rows(data).push(
            shape.entry(value),
        ),
        !(shape.entry(value) is Null),
    decreases shape, 0nat,
{
    match (shape, data, value) {
        (Shape::Scalar { .. }, Data::Scalar(_), _) => {
            assert(shape.rows(shape.append_value(data, value)) =~= shape.rows(data).push(
                shape.entry(value),
            ));
        },
        (Shape::List { item, .. }, Data::List { values, .. }, Value::Array(array)) => {
            lemma_elements_read_back(*item, *values, array, array.elements@.len());
            lemma_list_read_back(shape, data, array);
        },
        (Shape::Struct { .. }, Data::Struct { .. }, Value::Array(array)) => {
            lemma_struct_read_back(shape, data, array);
        },
        _ => {},
    }
}

/// A row of a list column is the elements that were written for it.
#[verifier::spinoff_prover]
proof fn lemma_list_read_back(shape: Shape, data: Data, array: FlussArray)
    requires
        shape.holds(data),
        shape is List,
        shape.check(Ok(Value::Array(array))) is Ok,
        ({
            let item = *shape->item;
            let values = *data->values;
            let n = array.elements@.len();
            item.rows(item.append_elements(values, array, n)) == item.rows(values) + Seq::new(
                n,
                |i: int| item.element_entry(array, i),
            )
        }),
    ensures
        shape.rows(shape.append_value(data, Value::Array(array))) == shape.rows(data).push(
            shape.entry(Value::Array(array)),
        ),
{
    let value = Value::Array(array);
    let written = shape.append_value(data, value);
    let item = *shape->item;
    let values = *data->values;
    let n = array.elements@.len();
    let new = item.append_elements(values, array, n);
    let elements = Seq::new(n, |i: int| item.element_entry(array, i));
    growth::lemma_append_value(shape, data, value);
    growth::lemma_append_elements(item, values, array, n);
    growth::lemma_prefix_reflexive(values);
    law_rows_stay(shape, data, written);
    law_rows_stay(item, values, values);
    assert(item.rows(new).subrange(values.len() as int, (values.len() + n) as int) =~= elements);
    assert(shape.entry(value)->List_0 =~= elements);
    let last = data.len() as int;
    assert(written->offsets[last] == values.len());
    assert(written->offsets[last + 1] == values.len() + n);
    assert(shape.rows(written)[last]->List_0 =~= elements);
    assert(shape.rows(written) =~= shape.rows(data).push(shape.entry(value)));
}

/// A row of a struct column is the cells that were written for it.
#[verifier::spinoff_prover]
proof fn lemma_struct_read_back(shape: Shape, data: Data, array: FlussArray)
    requires
        shape.holds(data),
        shape is Struct,
        shape.check(Ok(Value::Array(array))) is Ok,
    ensures
        shape.rows(shape.append_value(data, Value::Array(array))) == shape.rows(data).push(
            shape.entry(Value::Array(array)),
        ),
{
    let value = Value::Array(array);
    let written = shape.append_value(data, value);
    let fields = shape->fields;
    let columns = data->columns;
    growth::lemma_append_value(shape, data, value);
    law_rows_stay(shape, data, written);
    let cells = column::append_fields(Shape::struct_columns(fields), columns, array);
    let j = data.len() as int;
    assert(cells.map_values(|c: Seq<Option<Cell>>| c[j]) =~= Seq::new(
        fields.len(),
        |i: int| fields[i].column.cell(array, i as usize)->Ok_0,
    )) by {
        assert forall|i: int| 0 <= i < fields.len() implies cells[i][j]
            == fields[i].column.cell(array, i as usize)->Ok_0 by {
            assert(columns[i].len() == data.len());
        }
    }
    assert(shape.rows(written).last() == shape.entry(value));
    assert(shape.rows(written) =~= shape.rows(data).push(shape.entry(value)));
}

/// Elements that are written are the rows that they become, in order.
pub proof fn lemma_elements_read_back(shape: Shape, data: Data, array: FlussArray, n: nat)
    requires
        shape.holds(data),
        shape.check_elements(array, n) is Ok,
    ensures
        shape.rows(shape.append_elements(data, array, n)) == shape.rows(data) + Seq::new(
            n,
            |i: int| shape.element_entry(array, i),
        ),
    decreases shape, n,
{
    let entries = Seq::new(n, |i: int| shape.element_entry(array, i));
    if n == 0 {
        assert(shape.rows(data) + entries =~= shape.rows(data));
    } else {
        let i = (n - 1) as nat;
        lemma_elements_read_back(shape, data, array, i);
        growth::lemma_append_elements(shape, data, array, i);
        let before = shape.append_elements(data, array, i);
        if array.null_at(i as usize) {
            law_null_reads_back(shape, before);
        } else {
            let answer = array.value_at(i as usize, shape.request());
            growth::lemma_array_answers(array, i as usize, shape.request());
            assert(shape.check(answer) is Ok);
            assert(answer is Ok);
            law_write_reads_back(shape, before, answer->Ok_0);
        }
        let earlier = Seq::new(i, |i: int| shape.element_entry(array, i));
        assert(entries =~= earlier.push(shape.element_entry(array, i as int)));
        assert(shape.rows(data) + entries =~= (shape.rows(data) + earlier).push(
            shape.element_entry(array, i as int),
        ));
    }
}

/// A null that is appended adds a null row, and no other.
pub proof fn law_null_reads_back(shape: Shape, data: Data)
    requires
        shape.holds(data),
    ensures
        shape.rows(shape.append_null(data)) == shape.rows(data).push(Entry::Null),
{
    growth::lemma_append_null(shape, data);
    law_rows_stay(shape, data, shape.append_null(data));
    assert(shape.rows(shape.append_null(data)) =~= shape.rows(data).push(Entry::Null));
}

/// A write keeps every row that is there. It adds one row where it succeeds and none where it
/// fails.
pub proof fn law_write_keeps_rows(
    shape: Shape,
    data: Data,
    null: Result<bool, Fault>,
    answer: Result<Value, Fault>,
)
    requires
        shape.holds(data),
        growth::answers(shape.request(), answer),
    ensures
        ({
            let (written, result) = shape.write(data, null, answer);
            &&& shape.rows(data).is_prefix_of(shape.rows(written))
            &&& shape.rows(written).len() == shape.rows(data).len() + if result is Ok {
                1nat
            } else {
                0nat
            }
        }),
{
    growth::lemma_write(shape, data, null, answer);
    growth::lemma_prefix_reflexive(shape.write(data, null, answer).0);
    law_rows_stay(shape, data, shape.write(data, null, answer).0);
    law_rows_stay(shape, shape.write(data, null, answer).0, shape.write(data, null, answer).0);
}

/// A write that fails leaves the data as it was.
pub proof fn law_failed_write_changes_nothing(
    shape: Shape,
    data: Data,
    null: Result<bool, Fault>,
    answer: Result<Value, Fault>,
)
    requires
        shape.write(data, null, answer).1 is Err,
    ensures
        shape.write(data, null, answer).0 == data,
{
}

/// Where a row fails, by whatever fault, the write fails by the same fault and changes nothing. So
/// it is when a column that admits nulls asks whether there is one, and when the value is asked
/// for.
pub proof fn law_row_fault_is_passed_on(shape: Shape, data: Data, fault: Fault)
    requires
        shape.holds(data),
    ensures
        forall|answer: Result<Value, Fault>|
            shape.nullable() ==> #[trigger] shape.write(data, Err(fault), answer) == (
                data,
                Err::<(), Fault>(fault),
            ),
        forall|null: Result<bool, Fault>|
            !shape.nullable() || null == Ok::<bool, Fault>(false) ==> #[trigger] shape.write(
                data,
                null,
                Err(fault),
            ) == (data, Err::<(), Fault>(fault)),
{
}

/// A null that a row has in a column that admits nulls is written as a null, whatever else the row
/// answers.
pub proof fn law_null_is_written(shape: Shape, data: Data, answer: Result<Value, Fault>)
    requires
        shape.holds(data),
        shape.nullable(),
    ensures
        shape.write(data, Ok(true), answer) == (shape.append_null(data), Ok::<(), Fault>(())),
        shape.append_null(data).has_null(),
        shape.append_null(data).len() == data.len() + 1,
{
    growth::lemma_append_null(shape, data);
}

/// A column that admits no nulls does not ask for one, and a write to it adds no null row.
pub proof fn law_no_null_is_gained(
    shape: Shape,
    data: Data,
    null: Result<bool, Fault>,
    answer: Result<Value, Fault>,
)
    requires
        shape.holds(data),
        growth::answers(shape.request(), answer),
        !shape.nullable(),
    ensures
        shape.write(data, null, answer) == shape.write_value(data, answer),
        shape.write(data, null, answer).0.has_null() ==> data.has_null(),
{
    let written = shape.write(data, null, answer).0;
    if shape.check(answer) is Ok && written.has_null() {
        match (data, written) {
            (Data::Scalar(before), Data::Scalar(after)) => {
                let i = choose|i: int| 0 <= i < after.len() && after[i] is None;
                assert(before[i] is None);
            },
            (Data::List { rows: before, .. }, Data::List { rows: after, .. }) => {
                let i = choose|i: int| 0 <= i < after.len() && !after[i];
                assert(!before[i]);
            },
            (Data::Struct { rows: before, .. }, Data::Struct { rows: after, .. }) => {
                let i = choose|i: int| 0 <= i < after.len() && !after[i];
                assert(!before[i]);
            },
            _ => {},
        }
    }
}

/// Writing readings one after the other to a new writer, where each succeeds, gives an array with a
/// row per reading, in order, that holds what was read. A row is null just where the column admits
/// nulls and a null was read.
pub proof fn law_readings_read_back(shape: Shape, readings: Seq<Reading>)
    requires
        shape.wf(),
        forall|i: int|
            0 <= i < readings.len() ==> shape.takes(#[trigger] readings[i]) && growth::answers(
                shape.request(),
                readings[i].answer,
            ),
    ensures
        shape.holds(shape.write_all(shape.empty(), readings)),
        shape.rows(shape.write_all(shape.empty(), readings)) == readings.map_values(
            |r: Reading| shape.reading_entry(r),
        ),
        forall|i: int|
            0 <= i < readings.len() ==> ((#[trigger] shape.rows(
                shape.write_all(shape.empty(), readings),
            )[i]) is Null <==> shape.nullable() && readings[i].null == Ok::<bool, Fault>(true)),
    decreases readings.len(),
{
    growth::lemma_empty_holds(shape);
    if readings.len() == 0 {
        growth::lemma_prefix_reflexive(shape.empty());
        law_rows_stay(shape, shape.empty(), shape.empty());
        assert(shape.rows(shape.empty()) =~= Seq::<Entry>::empty());
        assert(readings.map_values(|r: Reading| shape.reading_entry(r)) =~= Seq::<Entry>::empty());
    } else {
        let earlier = readings.drop_last();
        let last = readings.last();
        assert forall|i: int| 0 <= i < earlier.len() implies shape.takes(#[trigger] earlier[i])
            && growth::answers(shape.request(), earlier[i].answer) by {
            assert(earlier[i] == readings[i]);
        }
        law_readings_read_back(shape, earlier);
        let before = shape.write_all(shape.empty(), earlier);
        let after = shape.write_all(shape.empty(), readings);
        assert(last == readings[readings.len() - 1]);
        law_outcome_ignores_data(shape, shape.empty(), before, last.null, last.answer);
        growth::lemma_write(shape, before, last.null, last.answer);
        if shape.nullable() && last.null == Ok::<bool, Fault>(true) {
            law_null_reads_back(shape, before);
        } else {
            assert(shape.check(last.answer) is Ok);
            assert(last.answer is Ok);
            law_write_reads_back(shape, before, last.answer->Ok_0);
        }
        assert(readings.map_values(|r: Reading| shape.reading_entry(r)) =~= earlier.map_values(
            |r: Reading| shape.reading_entry(r),
        ).push(shape.reading_entry(last)));
        assert(shape.rows(after) == shape.rows(before).push(shape.reading_entry(last)));
        assert forall|i: int| 0 <= i < readings.len() implies ((#[trigger] shape.rows(after)[i])
            is Null <==> shape.nullable() && readings[i].null == Ok::<bool, Fault>(true)) by {
            if i < earlier.len() {
                assert(shape.rows(after)[i] == shape.rows(before)[i]);
                assert(earlier[i] == readings[i]);
            }
        }
    }
}

/// Rounding up gives the least multiple of 8 that is not below the number.
pub proof fn law_padded_is_least(n: nat, m: nat)
    ensures
        scalar::padded(n) % 8 == 0,
        n <= scalar::padded(n) < n + 8,
        m % 8 == 0 && n <= m ==> scalar::padded(n) <= m,
{
}

/// The size of the buffers is a multiple of 8.
#[verifier::spinoff_prover]
pub proof fn law_buffer_bytes_aligned(shape: Shape, data: Data)
    requires
        shape.holds(data),
    ensures
        shape.buffer_bytes(data) % 8 == 0,
    decreases shape,
{
    match (shape, data) {
        (Shape::List { item, .. }, Data::List { values, offsets, rows }) => {
            law_buffer_bytes_aligned(*item, *values);
            lemma_sum_aligned(
                builders::bitmap_bytes(rows.len()),
                offsets.len() * 4,
                item.buffer_bytes(*values),
            );
        },
        (Shape::Struct { fields, .. }, Data::Struct { columns, rows }) => {
            let columns_bytes = column::fields_bytes(
                Shape::struct_columns(fields),
                columns,
                fields.len(),
            );
            lemma_fields_bytes_aligned(Shape::struct_columns(fields), columns, fields.len());
            lemma_sum_aligned(
                scalar::bitmap_size(rows.contains(false), rows.len()),
                0,
                columns_bytes,
            );
        },
        (Shape::Scalar { kind, .. }, Data::Scalar(cells)) => {
            lemma_scalar_bytes_aligned(kind.spec_ty(), cells);
        },
        _ => {},
    }
}

proof fn lemma_sum_aligned(m: nat, n: nat, rest: nat)
    requires
        rest % 8 == 0,
    ensures
        (scalar::padded(m) + scalar::padded(n) + rest) % 8 == 0,
{
}

#[verifier::spinoff_prover]
proof fn lemma_scalar_bytes_aligned(ty: ScalarType, cells: Seq<Option<Cell>>)
    ensures
        ty.buffer_bytes(cells) % 8 == 0,
{
    let n = cells.len();
    let validity = scalar::bitmap_size(cells.contains(None), n);
    match ty {
        ScalarType::Boolean => {
            lemma_sum_aligned(validity, builders::bitmap_bytes(n), 0);
        },
        ScalarType::Utf8 | ScalarType::Binary => {
            lemma_sum_aligned(0, builders::byte_total(cells), 0);
            lemma_sum_aligned(
                validity,
                (n + 1) * 4,
                scalar::padded(builders::byte_total(cells)),
            );
        },
        ScalarType::FixedSizeBinary { width } => {
            lemma_sum_aligned(validity, (n * width) as nat, 0);
        },
        _ => {
            lemma_sum_aligned(validity, n * ty.value_bytes(), 0);
        },
    }
}

#[verifier::spinoff_prover]
proof fn lemma_fields_bytes_aligned(
    fields: Seq<StructColumn>,
    columns: Seq<Seq<Option<Cell>>>,
    n: nat,
)
    ensures
        column::fields_bytes(fields, columns, n) % 8 == 0,
    decreases n,
{
    if n > 0 {
        lemma_fields_bytes_aligned(fields, columns, (n - 1) as nat);
        lemma_scalar_bytes_aligned(fields[n - 1].ty, columns[n - 1]);
        lemma_add_aligned(
            column::fields_bytes(fields, columns, (n - 1) as nat),
            fields[n - 1].ty.buffer_bytes(columns[n - 1]),
        );
    }
}

proof fn lemma_add_aligned(a: nat, b: nat)
    requires
        a % 8 == 0,
        b % 8 == 0,
    ensures
        (a + b) % 8 == 0,
{
}

/// The size of the buffers does not fall while the data grows.
#[verifier::spinoff_prover]
pub proof fn law_buffer_bytes_grow(shape: Shape, data: Data, later: Data)
    requires
        shape.holds(data),
        shape.holds(later),
        data.is_prefix_of(later),
    ensures
        shape.buffer_bytes(data) <= shape.buffer_bytes(later),
    decreases shape,
{
    match (shape, data, later) {
        (Shape::Scalar { kind, .. }, Data::Scalar(a), Data::Scalar(b)) => {
            lemma_scalar_bytes_grow(kind.spec_ty(), a, b);
        },
        (
            Shape::List { item, .. },
            Data::List { values, offsets, rows },
            Data::List { values: later_values, offsets: later_offsets, rows: later_rows },
        ) => {
            law_buffer_bytes_grow(*item, *values, *later_values);
            lemma_padded_grows(
                builders::bitmap_bytes(rows.len()),
                builders::bitmap_bytes(later_rows.len()),
            );
            lemma_padded_grows(offsets.len() * 4, later_offsets.len() * 4);
        },
        (
            Shape::Struct { fields, .. },
            Data::Struct { columns, rows },
            Data::Struct { columns: later_columns, rows: later_rows },
        ) => {
            lemma_contains_prefix(rows, later_rows, false);
            lemma_padded_grows(
                scalar::bitmap_size(rows.contains(false), rows.len()),
                scalar::bitmap_size(later_rows.contains(false), later_rows.len()),
            );
            lemma_struct_bytes_grow(
                Shape::struct_columns(fields),
                columns,
                later_columns,
                fields.len(),
            );
        },
        _ => {},
    }
}

proof fn lemma_padded_grows(m: nat, n: nat)
    requires
        m <= n,
    ensures
        scalar::padded(m) <= scalar::padded(n),
{
}

proof fn lemma_struct_bytes_grow(
    fields: Seq<StructColumn>,
    a: Seq<Seq<Option<Cell>>>,
    b: Seq<Seq<Option<Cell>>>,
    n: nat,
)
    requires
        n <= fields.len(),
        a.len() == fields.len(),
        b.len() == fields.len(),
        forall|i: int| 0 <= i < a.len() ==> (#[trigger] a[i]).is_prefix_of(b[i]),
        forall|i: int| 0 <= i < fields.len() ==> (#[trigger] fields[i]).ty.wf(),
    ensures
        column::fields_bytes(fields, a, n) <= column::fields_bytes(fields, b, n),
    decreases n,
{
    if n > 0 {
        lemma_struct_bytes_grow(fields, a, b, (n - 1) as nat);
        assert(a[n - 1].is_prefix_of(b[n - 1]));
        assert(fields[n - 1].ty.wf());
        lemma_scalar_bytes_grow(fields[n - 1].ty, a[n - 1], b[n - 1]);
    }
}

proof fn lemma_contains_prefix<A>(a: Seq<A>, b: Seq<A>, x: A)
    requires
        a.is_prefix_of(b),
    ensures
        a.contains(x) ==> b.contains(x),
{
    if a.contains(x) {
        let i = choose|i: int| 0 <= i < a.len() && a[i] == x;
        assert(b[i] == x);
    }
}

#[verifier::spinoff_prover]
proof fn lemma_scalar_bytes_grow(ty: ScalarType, a: Seq<Option<Cell>>, b: Seq<Option<Cell>>)
    requires
        a.is_prefix_of(b),
        ty.wf(),
    ensures
        ty.buffer_bytes(a) <= ty.buffer_bytes(b),
{
    lemma_contains_prefix(a, b, None);
    lemma_padded_grows(
        scalar::bitmap_size(a.contains(None), a.len()),
        scalar::bitmap_size(b.contains(None), b.len()),
    );
    growth::lemma_byte_total_prefix(a, b);
    lemma_padded_grows(builders::byte_total(a), builders::byte_total(b));
    let m = a.len();
    let n = b.len();
    let w = ty.value_bytes();
    assert(m * w <= n * w) by (nonlinear_arith)
        requires
            m <= n,
            0 <= w,
    ;
    if let ScalarType::FixedSizeBinary { width } = ty {
        assert(0 <= m * width <= n * width) by (nonlinear_arith)
            requires
                0 <= m <= n,
                0 <= width,
        ;
    }
}

/// A write does not make the buffers smaller.
pub proof fn law_write_grows_buffers(
    shape: Shape,
    data: Data,
    null: Result<bool, Fault>,
    answer: Result<Value, Fault>,
)
    requires
        shape.holds(data),
        growth::answers(shape.request(), answer),
    ensures
        shape.buffer_bytes(data) <= shape.buffer_bytes(shape.write(data, null, answer).0),
{
    growth::lemma_write(shape, data, null, answer);
    law_buffer_bytes_grow(shape, data, shape.write(data, null, answer).0);
}

/// A scalar column with a row has a buffer that is not empty, unless its values have no bytes.
#[verifier::spinoff_prover]
pub proof fn law_rows_take_room(shape: Shape, data: Data)
    requires
        shape is Scalar,
        shape.holds(data),
        data.len() > 0,
        shape->kind != (ScalarKind::Binary { width: 0 }),
    ensures
        shape.buffer_bytes(data) >= 8,
{
    let ty = shape->kind.spec_ty();
    let n = data.len();
    let w = ty.value_bytes();
    assert(n * w >= 1) by (nonlinear_arith)
        requires
            n >= 1,
            w >= 1,
    ;
    if let ScalarType::FixedSizeBinary { width } = ty {
        assert(n * width >= 1) by (nonlinear_arith)
            requires
                n >= 1,
                width >= 1,
        ;
    }
}

/// A scalar column has a validity bitmap just where it has a null.
pub proof fn law_validity_comes_with_nulls(shape: Shape, data: Data)
    requires
        shape is Scalar,
        shape.holds(data),
    ensures
        shape.buffer_bytes(data) == shape->kind.spec_ty().value_buffer_bytes(data->Scalar_0)
            + if data.has_null() {
            scalar::padded(builders::bitmap_bytes(data.len()))
        } else {
            0
        },
{
}

/// There is no writer for a map, whatever the Arrow type.
pub proof fn law_map_is_refused(nullable: bool, key: DataType, value: DataType, arrow: ArrowType)
    ensures
        ({
            let fluss = DataType {
                nullable,
                root: TypeRoot::MapType { key: Box::new(key), value: Box::new(value) },
            };
            Shape::plan(fluss, arrow) == Err::<Shape, Fault>(
                (Refusal::UnsupportedColumn { fluss }).fault(),
            )
        }),
{
}

/// A writer is for values that are nullable just as those of its logical type are.
pub proof fn law_nullability_is_kept(fluss: DataType, arrow: ArrowType)
    ensures
        Shape::plan(fluss, arrow) matches Ok(shape) ==> shape.nullable() == fluss.nullable,
{
}

/// The elements of the array of a list column are nullable just as those of the logical type are.
pub proof fn law_item_nullability_is_kept(
    nullable: bool,
    element: DataType,
    arrow: ArrowType,
    data: Data,
)
    requires
        Shape::plan(
            DataType { nullable, root: TypeRoot::Array { element: Box::new(element) } },
            arrow,
        ) matches Ok(shape) && shape.holds(data),
    ensures
        Shape::plan(
            DataType { nullable, root: TypeRoot::Array { element: Box::new(element) } },
            arrow,
        )->Ok_0.array(data)->item_nullable == element.nullable,
{
    let fluss = DataType { nullable, root: TypeRoot::Array { element: Box::new(element) } };
    assert(arrow is List);
    law_nullability_is_kept(element, arrow->List_0.data_type);
}

/// Where nulls are admitted throughout, what a writer holds can be made an array, as long as it is
/// within the reach of arrays.
pub proof fn law_lenient_columns_finish(shape: Shape, data: Data)
    requires
        shape.lenient(),
        shape.holds(data),
        shape.within_reach(data),
    ensures
        shape.can_finish(data),
    decreases shape,
{
    if let (Shape::List { item, .. }, Data::List { values, .. }) = (shape, data) {
        law_lenient_columns_finish(*item, *values);
    }
}

/// A null row can be made an array: where a writer can be finished, it still can after a null has
/// been appended, as long as that is within the reach of arrays.
pub proof fn law_null_rows_finish(shape: Shape, data: Data)
    requires
        shape.holds(data),
        shape.can_finish(data),
        shape.within_reach(shape.append_null(data)),
    ensures
        shape.can_finish(shape.append_null(data)),
{
    if let (
        Shape::Struct { fields, .. },
        Data::Struct { columns, rows },
    ) = (shape, data) {
        let after = shape.append_null(data)->columns;
        assert forall|i: int, j: int|
            0 <= i < fields.len() && 0 <= j < rows.len() + 1 && !fields[i].nullable && rows.push(
                false,
            )[j] implies (#[trigger] after[i][j]) is Some by {
            assert(columns[i].len() == rows.len());
            assert(after[i][j] == columns[i][j]);
        }
    }
}

/// A writer that has been finished can be finished again at once, and gives an array of the same
/// type without rows.
pub proof fn law_finished_writer_finishes(shape: Shape, data: Data)
    requires
        shape.holds(data),
        shape.can_finish(data),
    ensures
        shape.can_finish(shape.empty()),
        shape.rows(shape.empty()) == Seq::<Entry>::empty(),
        shape.array(shape.empty()).array_type() == shape.array(data).array_type(),
{
    growth::lemma_holds_wf(shape, data);
    growth::lemma_empty_holds(shape);
    growth::lemma_prefix_reflexive(shape.empty());
    law_rows_stay(shape, shape.empty(), shape.empty());
    lemma_empty_can_finish(shape, data);
    lemma_type_ignores_data(shape, shape.empty(), data);
}

proof fn lemma_empty_can_finish(shape: Shape, data: Data)
    requires
        shape.holds(data),
        shape.can_finish(data),
    ensures
        shape.can_finish(shape.empty()),
    decreases shape,
{
    if let (Shape::List { item, .. }, Data::List { values, .. }) = (shape, data) {
        lemma_empty_can_finish(*item, *values);
        growth::lemma_holds_wf(*item, *values);
        growth::lemma_empty_holds(*item);
    }
}

/// The type of the array of a writer does not depend on what it holds.
pub proof fn lemma_type_ignores_data(shape: Shape, a: Data, b: Data)
    requires
        shape.holds(a),
        shape.holds(b),
    ensures
        shape.array(a).array_type() == shape.array(b).array_type(),
    decreases shape,
{
    if let (
        Shape::List { item, .. },
        Data::List { values: v, .. },
        Data::List { values: w, .. },
    ) = (shape, a, b) {
        lemma_type_ignores_data(*item, *v, *w);
    }
}

/// Writing a field is writing it at the writer's own position: both have the same result, and leave
/// the writer in the same state.
pub proof fn law_write_field_is_write_field_at<R: InternalRow + ?Sized>(
    writer: ColumnWriter,
    row: &R,
    by_field: ColumnWriter,
    by_position: ColumnWriter,
    field_result: Result<(), Error>,
    position_result: Result<(), Error>,
)
    requires
        writer.writes(row, writer.pos(), by_field, field_result),
        writer.writes(row, writer.pos(), by_position, position_result),
    ensures
        error::told(field_result) == error::told(position_result),
        by_field.pos() == by_position.pos(),
        by_field.shape() == by_position.shape(),
        by_field.data() == by_position.data(),
{
}

/// A writer that has been finished is as good as a new one of the same shape: both hold the same,
/// take up the same room, and go on in the same way.
pub proof fn law_finished_writer_is_as_new<R: InternalRow + ?Sized>(
    writer: ColumnWriter,
    finished: ColumnWriter,
    contents: ArrayContents,
    fresh: ColumnWriter,
    row: &R,
    pos: usize,
)
    requires
        writer.finishes(finished, contents),
        fresh.shape() == writer.shape(),
        fresh.data() == fresh.shape().empty(),
    ensures
        finished.shape() == fresh.shape(),
        finished.data() == fresh.data(),
        finished.shape().buffer_bytes(finished.data()) == fresh.shape().buffer_bytes(fresh.data()),
        finished.written(row, pos) == fresh.written(row, pos),
{
}

/// The position, the shape and with it the nullability of a writer never change, wherever rows are
/// read and however often it is finished.
pub proof fn law_position_and_shape_stay<R: InternalRow + ?Sized>(
    writer: ColumnWriter,
    row: &R,
    pos: usize,
    written: ColumnWriter,
    result: Result<(), Error>,
    finished: ColumnWriter,
    contents: ArrayContents,
)
    requires
        writer.writes(row, pos, written, result),
        written.finishes(finished, contents),
    ensures
        written.pos() == writer.pos(),
        written.shape() == writer.shape(),
        finished.pos() == writer.pos(),
        finished.shape() == writer.shape(),
{
}

} // verus!
