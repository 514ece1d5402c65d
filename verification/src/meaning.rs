//! What writing is for: which values columns take, and what they store of each.
//!
//! The laws of this module are stated of a row of values and the array that the writer would hand
//! out, from one end to the other.
use crate::builders;
use crate::builders::{
    ArrayContents, BoxedBuilder, BuilderShape, Cell, ScalarType, StructState,
};
use crate::column;
use crate::column::{Data, FieldShape, Shape, StructColumn};
use crate::column_writer::ColumnWriter;
use crate::entries::Entry;
use crate::error::{Error, Fault};
use crate::growth;
use crate::kind::ScalarKind;
use crate::laws;
use crate::nested;
use crate::row::{Datum, FlussArray, GenericRow, InternalRow, Request, Value};
use crate::struct_writer;
use crate::text;
use crate::types;
use crate::types::{
    ArrowField, ArrowType, DataType, RowField, TimeUnit, TypeKind, TypeRoot,
};
use crate::values;
use crate::values::Decimal;
use vstd::arithmetic::power::*;
use vstd::prelude::*;

verus! {

/// A column of booleans, numbers, texts, byte strings or dates stores the very value that the row
/// holds, behind the rows that are there.
#[verifier::spinoff_prover]
pub proof fn law_plain_values_are_stored(
    fluss: DataType,
    arrow: ArrowType,
    writer: ColumnWriter,
    row: GenericRow,
    pos: usize,
    after: ColumnWriter,
    r: Result<(), Error>,
)
    requires
        writer.wf(),
        Shape::plan(fluss, arrow) == Ok::<Shape, Fault>(writer.shape()),
        writer.writes(&row, pos, after, r),
        pos < row.fields().elements@.len(),
    ensures
        ({
            let before = writer.shape().array(writer.data());
            let later = after.shape().array(after.data());
            let stores = |ty: ScalarType, cell: Cell|
                r is Ok && before->Scalar_ty == ty && later == (ArrayContents::Scalar {
                    ty,
                    cells: before->cells.push(Some(cell)),
                });
            match (fluss.root, row.fields().elements@[pos as int]) {
                (TypeRoot::Boolean, Datum::Bool(v)) => stores(ScalarType::Boolean, Cell::Bool(v)),
                (TypeRoot::TinyInt, Datum::Int8(v)) => {
                    stores(ScalarType::Int8, Cell::Int(v as int))
                },
                (TypeRoot::SmallInt, Datum::Int16(v)) => {
                    stores(ScalarType::Int16, Cell::Int(v as int))
                },
                (TypeRoot::Int, Datum::Int32(v)) => stores(ScalarType::Int32, Cell::Int(v as int)),
                (TypeRoot::BigInt, Datum::Int64(v)) => {
                    stores(ScalarType::Int64, Cell::Int(v as int))
                },
                (TypeRoot::Float, Datum::Float32(v)) => {
                    stores(ScalarType::Float32, Cell::Float32(v))
                },
                (TypeRoot::Double, Datum::Float64(v)) => {
                    stores(ScalarType::Float64, Cell::Float64(v))
                },
                (TypeRoot::Char { .. }, Datum::String(v)) => {
                    stores(ScalarType::Utf8, Cell::Str(v@))
                },
                (TypeRoot::String, Datum::String(v)) => stores(ScalarType::Utf8, Cell::Str(v@)),
                (TypeRoot::Bytes, Datum::Blob(v)) => stores(ScalarType::Binary, Cell::Bytes(v@)),
                (TypeRoot::Binary { width }, Datum::Blob(v)) => v@.len() == width ==> stores(
                    ScalarType::FixedSizeBinary { width: width as i32 },
                    Cell::Bytes(v@),
                ),
                (TypeRoot::Date, Datum::Date(v)) => {
                    stores(ScalarType::Date32, Cell::Int(v.days as int))
                },
                _ => true,
            }
        }),
{
    writer.law_shape_holds_data();
}

/// A column of times stores the time of day in its unit. Where the unit is the second, a time that
/// is not a whole number of seconds is refused.
#[verifier::spinoff_prover]
pub proof fn law_times_are_stored_in_the_unit(
    fluss: DataType,
    arrow: ArrowType,
    writer: ColumnWriter,
    row: GenericRow,
    pos: usize,
    after: ColumnWriter,
    r: Result<(), Error>,
)
    requires
        writer.wf(),
        Shape::plan(fluss, arrow) == Ok::<Shape, Fault>(writer.shape()),
        writer.writes(&row, pos, after, r),
        pos < row.fields().elements@.len(),
    ensures
        ({
            let before = writer.shape().array(writer.data());
            let later = after.shape().array(after.data());
            let stores = |ty: ScalarType, x: int|
                r is Ok && before->Scalar_ty == ty && later == (ArrayContents::Scalar {
                    ty,
                    cells: before->cells.push(Some(Cell::Int(x))),
                });
            let fails = r is Err && later == before;
            match (fluss.root, row.fields().elements@[pos as int]) {
                (TypeRoot::Time { .. }, Datum::Time(v)) => match arrow {
                    ArrowType::Time32(TimeUnit::Second) => if v.millis as int % 1000 == 0 {
                        stores(ScalarType::Time32Second, v.millis as int / 1000)
                    } else {
                        fails
                    },
                    ArrowType::Time32(TimeUnit::Millisecond) => {
                        stores(ScalarType::Time32Millisecond, v.millis as int)
                    },
                    ArrowType::Time64(TimeUnit::Microsecond) => {
                        stores(ScalarType::Time64Microsecond, v.millis * 1000)
                    },
                    ArrowType::Time64(TimeUnit::Nanosecond) => {
                        stores(ScalarType::Time64Nanosecond, v.millis * 1000000)
                    },
                    _ => false,
                },
                _ => true,
            }
        }),
{
    writer.law_shape_holds_data();
}

/// A column of timestamps stores the time since the epoch in its unit, where that is an `i64`. What
/// is finer than the unit is cut off towards zero: the milliseconds by a column of seconds, the
/// nanoseconds of the millisecond by a column of microseconds or of a coarser unit.
#[verifier::spinoff_prover]
pub proof fn law_timestamps_are_stored_in_the_unit(
    fluss: DataType,
    arrow: ArrowType,
    writer: ColumnWriter,
    row: GenericRow,
    pos: usize,
    after: ColumnWriter,
    r: Result<(), Error>,
)
    requires
        writer.wf(),
        Shape::plan(fluss, arrow) == Ok::<Shape, Fault>(writer.shape()),
        writer.writes(&row, pos, after, r),
        pos < row.fields().elements@.len(),
    ensures
        ({
            let before = writer.shape().array(writer.data());
            let later = after.shape().array(after.data());
            let stores = |ty: ScalarType, x: int|
                r is Ok && before->Scalar_ty == ty && later == (ArrayContents::Scalar {
                    ty,
                    cells: before->cells.push(Some(Cell::Int(x))),
                });
            let fails = r is Err && later == before;
            match (fluss.root, row.fields().elements@[pos as int]) {
                (TypeRoot::Timestamp { .. }, Datum::TimestampNtz(v)) => {
                    let m = v.millisecond as int;
                    let n = v.nano_of_millisecond as int;
                    let seconds = if m < 0 {
                        -((-m) / 1000)
                    } else {
                        m / 1000
                    };
                    let micros = if n < 0 {
                        -((-n) / 1000)
                    } else {
                        n / 1000
                    };
                    match arrow {
                        ArrowType::Timestamp(TimeUnit::Second, _) => {
                            stores(ScalarType::TimestampSecond, seconds)
                        },
                        ArrowType::Timestamp(TimeUnit::Millisecond, _) => {
                            stores(ScalarType::TimestampMillisecond, m)
                        },
                        ArrowType::Timestamp(TimeUnit::Microsecond, _) => {
                            if i64::MIN <= m * 1000 <= i64::MAX && i64::MIN <= m * 1000 + micros
                                <= i64::MAX {
                                stores(ScalarType::TimestampMicrosecond, m * 1000 + micros)
                            } else {
                                fails
                            }
                        },
                        ArrowType::Timestamp(TimeUnit::Nanosecond, _) => {
                            if i64::MIN <= m * 1000000 <= i64::MAX && i64::MIN <= m * 1000000 + n
                                <= i64::MAX {
                                stores(ScalarType::TimestampNanosecond, m * 1000000 + n)
                            } else {
                                fails
                            }
                        },
                        _ => false,
                    }
                },
                (TypeRoot::TimestampLTz { .. }, Datum::TimestampLtz(v)) => {
                    let m = v.epoch_millisecond as int;
                    let n = v.nano_of_millisecond as int;
                    let seconds = if m < 0 {
                        -((-m) / 1000)
                    } else {
                        m / 1000
                    };
                    let micros = if n < 0 {
                        -((-n) / 1000)
                    } else {
                        n / 1000
                    };
                    match arrow {
                        ArrowType::Timestamp(TimeUnit::Second, _) => {
                            stores(ScalarType::TimestampSecond, seconds)
                        },
                        ArrowType::Timestamp(TimeUnit::Millisecond, _) => {
                            stores(ScalarType::TimestampMillisecond, m)
                        },
                        ArrowType::Timestamp(TimeUnit::Microsecond, _) => {
                            if i64::MIN <= m * 1000 <= i64::MAX && i64::MIN <= m * 1000 + micros
                                <= i64::MAX {
                                stores(ScalarType::TimestampMicrosecond, m * 1000 + micros)
                            } else {
                                fails
                            }
                        },
                        ArrowType::Timestamp(TimeUnit::Nanosecond, _) => {
                            if i64::MIN <= m * 1000000 <= i64::MAX && i64::MIN <= m * 1000000 + n
                                <= i64::MAX {
                                stores(ScalarType::TimestampNanosecond, m * 1000000 + n)
                            } else {
                                fails
                            }
                        },
                        _ => false,
                    }
                },
                _ => true,
            }
        }),
{
    writer.law_shape_holds_data();
}

/// A column takes a null just where its logical type admits nulls, and stores it as a null behind
/// the rows that are there. The elements of a list column stay as they are. A struct column has a
/// null in each of its fields.
#[verifier::spinoff_prover]
pub proof fn law_nulls_are_stored_where_they_are_admitted(
    fluss: DataType,
    arrow: ArrowType,
    writer: ColumnWriter,
    row: GenericRow,
    pos: usize,
    after: ColumnWriter,
    r: Result<(), Error>,
)
    requires
        writer.wf(),
        Shape::plan(fluss, arrow) == Ok::<Shape, Fault>(writer.shape()),
        writer.writes(&row, pos, after, r),
        pos < row.fields().elements@.len(),
    ensures
        row.fields().elements@[pos as int] is Null ==> ({
            let before = writer.shape().array(writer.data());
            let later = after.shape().array(after.data());
            if fluss.nullable {
                &&& r is Ok
                &&& match before {
                    ArrayContents::Scalar { ty, cells } => later == (ArrayContents::Scalar {
                        ty,
                        cells: cells.push(None),
                    }),
                    ArrayContents::List { item_nullable, values, offsets, rows } => later == (
                    ArrayContents::List {
                        item_nullable,
                        values,
                        offsets: offsets.push(offsets[offsets.len() - 1]),
                        rows: rows.push(false),
                    }),
                    ArrayContents::Struct { fields, columns, rows } => {
                        &&& later->Struct_fields == fields
                        &&& later->Struct_rows == rows.push(false)
                        &&& later->columns.len() == columns.len()
                        &&& forall|i: int|
                            0 <= i < columns.len() ==> (#[trigger] later->columns[i])
                                == columns[i].push(None)
                    },
                }
            } else {
                r is Err && later == before
            }
        }),
{
    writer.law_shape_holds_data();
}

/// A column takes the values of its type, nulls where it admits them, and nothing else. A write
/// that it refuses leaves what it holds as it was.
#[verifier::spinoff_prover]
pub proof fn law_columns_take_their_type(
    fluss: DataType,
    arrow: ArrowType,
    writer: ColumnWriter,
    row: GenericRow,
    pos: usize,
    after: ColumnWriter,
    r: Result<(), Error>,
)
    requires
        writer.wf(),
        Shape::plan(fluss, arrow) == Ok::<Shape, Fault>(writer.shape()),
        writer.writes(&row, pos, after, r),
        pos < row.fields().elements@.len(),
    ensures
        r is Err ==> after.data() == writer.data(),
        match (fluss.root, row.fields().elements@[pos as int]) {
            (_, Datum::Null) => r is Ok <==> fluss.nullable,
            (TypeRoot::Array { .. }, Datum::Array(_)) => true,
            (TypeRoot::Row { .. }, Datum::Array(_)) => true,
            (TypeRoot::Boolean, Datum::Bool(_)) => r is Ok,
            (TypeRoot::TinyInt, Datum::Int8(_)) => r is Ok,
            (TypeRoot::SmallInt, Datum::Int16(_)) => r is Ok,
            (TypeRoot::Int, Datum::Int32(_)) => r is Ok,
            (TypeRoot::BigInt, Datum::Int64(_)) => r is Ok,
            (TypeRoot::Float, Datum::Float32(_)) => r is Ok,
            (TypeRoot::Double, Datum::Float64(_)) => r is Ok,
            (TypeRoot::Char { .. }, Datum::String(_)) => r is Ok,
            (TypeRoot::String, Datum::String(_)) => r is Ok,
            (TypeRoot::Bytes, Datum::Blob(_)) => r is Ok,
            (TypeRoot::Binary { width }, Datum::Blob(v)) => r is Ok <==> v@.len() == width,
            (TypeRoot::Date, Datum::Date(_)) => r is Ok,
            (TypeRoot::Decimal { .. }, Datum::Decimal(_)) => true,
            (TypeRoot::Time { .. }, Datum::Time(v)) => r is Ok <==> (arrow == ArrowType::Time32(
                TimeUnit::Second,
            ) ==> v.millis as int % 1000 == 0),
            (TypeRoot::Timestamp { .. }, Datum::TimestampNtz(_)) => true,
            (TypeRoot::TimestampLTz { .. }, Datum::TimestampLtz(_)) => true,
            _ => r is Err,
        },
{
    writer.law_shape_holds_data();
}

/// A row without a value at the position is refused, and leaves the writer as it was.
pub proof fn law_positions_beyond_the_row_are_refused(
    writer: ColumnWriter,
    row: GenericRow,
    pos: usize,
    after: ColumnWriter,
    r: Result<(), Error>,
)
    requires
        writer.wf(),
        writer.writes(&row, pos, after, r),
        pos >= row.fields().elements@.len(),
    ensures
        r is Err,
        after.data() == writer.data(),
{
}

/// What is stored for a decimal is the number itself, to the nearest unit of the column's scale: no
/// other unit is nearer, and halfway between two it is the one further from zero. Where the column
/// has no fewer digits after the point than the value, nothing is lost. What is stored has no more
/// digits than the precision.
pub proof fn law_decimals_are_stored_to_the_nearest_unit(
    d: Decimal,
    target_precision: u32,
    target_scale: i64,
)
    requires
        target_scale >= 0,
    ensures
        values::spec_decimal_to_unscaled(d, target_precision, target_scale) matches Ok(x) ==> {
            let unit = pow(10, d.scale as nat);
            let number = d.unscaled * pow(10, target_scale as nat);
            &&& -unit <= 2 * (x * unit - number) <= unit
            &&& 2 * (x * unit - number) == unit ==> number >= 0
            &&& 2 * (x * unit - number) == -unit ==> number <= 0
            &&& target_scale >= d.scale ==> x * unit == number
            &&& target_scale >= d.scale ==> x == d.unscaled * pow(
                10,
                (target_scale - d.scale) as nat,
            )
            &&& -pow(10, target_precision as nat) < x < pow(10, target_precision as nat)
            &&& i128::MIN <= x <= i128::MAX
        },
{
    lemma_rescaled_is_nearest(d.unscaled as int, d.scale as int, target_scale as int);
}

/// Where the nearest unit has no more digits than the precision, and is an `i128`, it is stored. So
/// a decimal is refused only where it does not fit.
pub proof fn law_decimals_that_fit_are_stored(
    d: Decimal,
    target_precision: u32,
    target_scale: i64,
    x: int,
)
    requires
        target_scale >= 0,
        ({
            let unit = pow(10, d.scale as nat);
            let number = d.unscaled * pow(10, target_scale as nat);
            &&& -unit <= 2 * (x * unit - number) <= unit
            &&& 2 * (x * unit - number) == unit ==> number >= 0
            &&& 2 * (x * unit - number) == -unit ==> number <= 0
        }),
    ensures
        values::spec_decimal_to_unscaled(d, target_precision, target_scale) is Ok <==> -pow(
            10,
            target_precision as nat,
        ) < x < pow(10, target_precision as nat) && i128::MIN <= x <= i128::MAX,
        values::spec_decimal_to_unscaled(d, target_precision, target_scale) matches Ok(y) ==> x
            == y,
{
    let unit = pow(10, d.scale as nat);
    let number = d.unscaled * pow(10, target_scale as nat);
    let y = values::rescaled(d.unscaled as int, d.scale as int, target_scale as int);
    lemma_rescaled_is_nearest(d.unscaled as int, d.scale as int, target_scale as int);
    lemma_pow_positive(10, d.scale as nat);
    lemma_nearest_is_unique(x, y, unit, number);
    lemma_nearest_is_unique(y, x, unit, number);
}

proof fn lemma_nearest_is_unique(v: int, w: int, unit: int, number: int)
    requires
        unit > 0,
        -unit <= 2 * (v * unit - number) <= unit,
        2 * (v * unit - number) == unit ==> number >= 0,
        2 * (v * unit - number) == -unit ==> number <= 0,
        -unit <= 2 * (w * unit - number) <= unit,
        2 * (w * unit - number) == unit ==> number >= 0,
        2 * (w * unit - number) == -unit ==> number <= 0,
    ensures
        v >= w,
{
    if v < w {
        let a = v * unit;
        let c = w * unit;
        assert(c - a >= unit) by (nonlinear_arith)
            requires
                a == v * unit,
                c == w * unit,
                v + 1 <= w,
                unit > 0,
        ;
        assert(2 * a == -unit);
        assert(2 * v == -1) by (nonlinear_arith)
            requires
                a == v * unit,
                2 * a == -unit,
                unit > 0,
        ;
    }
}

proof fn lemma_rescaled_is_nearest(unscaled: int, scale: int, target: int)
    requires
        0 <= scale,
        0 <= target,
    ensures
        ({
            let x = values::rescaled(unscaled, scale, target);
            let unit = pow(10, scale as nat);
            let number = unscaled * pow(10, target as nat);
            &&& unit > 0
            &&& -unit <= 2 * (x * unit - number) <= unit
            &&& 2 * (x * unit - number) == unit ==> number >= 0
            &&& 2 * (x * unit - number) == -unit ==> number <= 0
            &&& target >= scale ==> x * unit == number
        }),
{
    let x = values::rescaled(unscaled, scale, target);
    let unit = pow(10, scale as nat);
    let number = unscaled * pow(10, target as nat);
    lemma_pow_positive(10, scale as nat);
    if target >= scale {
        let p = pow(10, (target - scale) as nat);
        lemma_pow_adds(10, (target - scale) as nat, scale as nat);
        assert(x * unit == number) by (nonlinear_arith)
            requires
                x == unscaled * p,
                number == unscaled * (p * unit),
        ;
    } else {
        let p = pow(10, (scale - target) as nat);
        let t = pow(10, target as nat);
        lemma_pow_positive(10, (scale - target) as nat);
        lemma_pow_positive(10, target as nat);
        lemma_pow_adds(10, (scale - target) as nat, target as nat);
        let rest = x * p - unscaled;
        lemma_nearest_quotient_is_nearest(unscaled, p);
        assert(x * unit - number == rest * t) by (nonlinear_arith)
            requires
                rest == x * p - unscaled,
                unit == p * t,
                number == unscaled * t,
        ;
        assert(-unit <= 2 * (rest * t) <= unit) by (nonlinear_arith)
            requires
                unit == p * t,
                -p <= 2 * rest <= p,
                t > 0,
        ;
        assert(2 * (rest * t) == unit ==> 2 * rest == p) by (nonlinear_arith)
            requires
                unit == p * t,
                t > 0,
        ;
        assert(2 * (rest * t) == -unit ==> 2 * rest == -p) by (nonlinear_arith)
            requires
                unit == p * t,
                t > 0,
        ;
        assert((number >= 0 <==> unscaled >= 0) && (number <= 0 <==> unscaled <= 0))
            by (nonlinear_arith)
            requires
                number == unscaled * t,
                t > 0,
        ;
    }
}

proof fn lemma_nearest_quotient_is_nearest(x: int, d: int)
    requires
        d > 0,
    ensures
        ({
            let rest = values::nearest_quotient(x, d) * d - x;
            &&& -d <= 2 * rest <= d
            &&& 2 * rest == d ==> x >= 0
            &&& 2 * rest == -d ==> x <= 0
        }),
{
    let size = if x < 0 {
        -x
    } else {
        x
    };
    let q = (2 * size + d) / (2 * d);
    assert(2 * size - d < q * (2 * d) <= 2 * size + d) by (nonlinear_arith)
        requires
            d > 0,
            q == (2 * size + d) / (2 * d),
    ;
    assert(q * (2 * d) == 2 * (q * d)) by (nonlinear_arith);
    assert((-q) * d == -(q * d)) by (nonlinear_arith);
}

/// A decimal column stores the number that the row holds, at the precision and the scale of the
/// Arrow type, and refuses it just where it does not fit them. The number at the scale of the
/// column is `x` units, to the nearest.
#[verifier::spinoff_prover]
pub proof fn law_decimal_columns_store_the_number(
    fluss: DataType,
    precision: u8,
    scale: i8,
    writer: ColumnWriter,
    row: GenericRow,
    pos: usize,
    after: ColumnWriter,
    r: Result<(), Error>,
    x: int,
)
    requires
        writer.wf(),
        fluss.root is Decimal,
        Shape::plan(fluss, ArrowType::Decimal128(precision, scale)) == Ok::<Shape, Fault>(
            writer.shape(),
        ),
        writer.writes(&row, pos, after, r),
        pos < row.fields().elements@.len(),
        row.fields().elements@[pos as int] is Decimal,
        ({
            let d = row.fields().elements@[pos as int]->Decimal_0;
            let unit = pow(10, d.scale as nat);
            let number = d.unscaled * pow(10, scale as nat);
            &&& -unit <= 2 * (x * unit - number) <= unit
            &&& 2 * (x * unit - number) == unit ==> number >= 0
            &&& 2 * (x * unit - number) == -unit ==> number <= 0
        }),
    ensures
        ({
            let before = writer.shape().array(writer.data());
            let later = after.shape().array(after.data());
            let ty = ScalarType::Decimal128 { precision, scale };
            &&& before->Scalar_ty == ty
            &&& if -pow(10, precision as nat) < x < pow(10, precision as nat) {
                r is Ok && later == (ArrayContents::Scalar {
                    ty,
                    cells: before->cells.push(Some(Cell::Int(x))),
                })
            } else {
                r is Err && later == before
            }
        }),
{
    writer.law_shape_holds_data();
    let d = row.fields().elements@[pos as int]->Decimal_0;
    law_decimals_that_fit_are_stored(d, precision as u32, scale as i64, x);
    assert(1 <= precision <= 38);
    lemma_admitted_precision(precision as nat);
}

proof fn lemma_admitted_precision(precision: nat)
    requires
        precision <= 38,
    ensures
        pow(10, precision) <= i128::MAX,
{
    lemma_pow_increases(10, precision, 38);
    values::lemma_largest_power_of_ten();
}

/// Which logical types have a scalar column in which Arrow types. Most do not look at the Arrow
/// type. The column admits nulls just where the logical type does, and starts without rows.
pub proof fn law_scalar_columns_that_there_are(fluss: DataType, arrow: ArrowType)
    ensures
        Shape::plan(fluss, arrow) matches Ok(shape) ==> shape.nullable() == fluss.nullable,
        fluss.root !is Array && fluss.root !is Row ==> (Shape::plan(fluss, arrow) is Ok
            <==> match fluss.root {
            TypeRoot::Binary { width } => width <= 0x7fff_ffff,
            TypeRoot::Decimal { .. } => arrow matches ArrowType::Decimal128(precision, scale)
                && 1 <= precision <= 38 && 0 <= scale <= 38 && scale <= precision,
            TypeRoot::Time { .. } => match arrow {
                ArrowType::Time32(unit) => unit is Second || unit is Millisecond,
                ArrowType::Time64(unit) => unit is Microsecond || unit is Nanosecond,
                _ => false,
            },
            TypeRoot::Timestamp { .. } => arrow is Timestamp,
            TypeRoot::TimestampLTz { .. } => arrow is Timestamp,
            TypeRoot::MapType { .. } => false,
            _ => true,
        }),
        fluss.root !is Array && fluss.root !is Row ==> (Shape::plan(fluss, arrow) matches Ok(shape)
            ==> shape.array(shape.empty()) matches ArrayContents::Scalar { cells, .. }
            && cells.len() == 0),
{
}

/// Why there is no column. A list column is refused for its elements, where they have no column of
/// their own, and otherwise where they have no builder. A struct column is refused for the first
/// field that has no builder.
pub proof fn law_columns_that_there_are_not(fluss: DataType, arrow: ArrowType)
    ensures
        Shape::plan(fluss, arrow) matches Err(fault) ==> match fluss.root {
            TypeRoot::Binary { width } => fault == Fault::IllegalArgument(
                "Binary length "@ + text::number(width as int)
                    + " exceeds Arrow's maximum (i32::MAX)"@,
            ),
            TypeRoot::Decimal { .. } => match arrow {
                ArrowType::Decimal128(precision, scale) => if scale < 0 {
                    fault == Fault::IllegalArgument(
                        "Negative decimal scale "@ + text::number(scale as int)
                            + " is not supported"@,
                    )
                } else {
                    fault == Fault::IllegalArgument(
                        "Invalid decimal precision "@ + text::number(precision as int)
                            + " or scale "@ + text::number(scale as int) + ": "@
                            + builders::decimal_error(precision, scale),
                    )
                },
                _ => fault == Fault::IllegalArgument(
                    "Expected Decimal128 Arrow type for Decimal, got: "@ + arrow.text(),
                ),
            },
            TypeRoot::Time { .. } => fault == Fault::IllegalArgument(
                "Unsupported Arrow type for Time: "@ + arrow.text(),
            ),
            TypeRoot::Timestamp { .. } => fault == Fault::IllegalArgument(
                "Unsupported Arrow type for Timestamp: "@ + arrow.text(),
            ),
            TypeRoot::TimestampLTz { .. } => fault == Fault::IllegalArgument(
                "Unsupported Arrow type for TimestampLTz: "@ + arrow.text(),
            ),
            TypeRoot::MapType { .. } => fault == Fault::IllegalArgument(
                "Unsupported Fluss DataType (not yet implemented): "@ + fluss.text(),
            ),
            TypeRoot::Array { element } => match arrow {
                ArrowType::List(item) => match Shape::plan(*element, item.data_type) {
                    Ok(_) => nested::element_shape(item.data_type) == Err::<BuilderShape, Fault>(
                        fault,
                    ),
                    Err(e) => fault == e,
                },
                _ => fault == Fault::IllegalArgument(
                    "Expected List Arrow type for Array, got: "@ + arrow.text(),
                ),
            },
            TypeRoot::Row { fields } => match arrow {
                ArrowType::Struct(arrow_fields) => fields@.len() <= arrow_fields@.len()
                    ==> exists|i: int|
                    0 <= i < fields@.len() && nested::boxed_type(
                        (#[trigger] arrow_fields@[i]).data_type,
                    ) == Err::<ScalarType, Fault>(fault) && forall|j: int|
                        0 <= j < i ==> nested::boxed_type(
                            (#[trigger] arrow_fields@[j]).data_type,
                        ) is Ok,
                _ => fault == Fault::IllegalArgument(
                    "Expected Struct Arrow type for Row, got: "@ + arrow.text(),
                ),
            },
            _ => false,
        },
{
    if let (TypeRoot::Row { fields }, ArrowType::Struct(arrow_fields)) = (fluss.root, arrow) {
        if fields@.len() <= arrow_fields@.len() {
            lemma_row_fields(fields@, arrow_fields@);
        }
    }
}

/// A column asks a row for a value of its logical type, with the length, the precision and the
/// scale of that type. Arrays and nested rows are asked for as arrays.
pub proof fn law_columns_ask_for_their_type(fluss: DataType, arrow: ArrowType)
    ensures
        Shape::plan(fluss, arrow) matches Ok(shape) ==> shape.request() == match fluss.root {
            TypeRoot::Boolean => Request::Boolean,
            TypeRoot::TinyInt => Request::Byte,
            TypeRoot::SmallInt => Request::Short,
            TypeRoot::Int => Request::Int,
            TypeRoot::BigInt => Request::Long,
            TypeRoot::Float => Request::Float,
            TypeRoot::Double => Request::Double,
            TypeRoot::Char { length } => Request::Char { length: length as usize },
            TypeRoot::String => Request::Str,
            TypeRoot::Bytes => Request::Bytes,
            TypeRoot::Binary { width } => Request::Binary { width },
            TypeRoot::Decimal { precision, scale } => Request::Decimal {
                precision: precision as usize,
                scale: scale as usize,
            },
            TypeRoot::Date => Request::Date,
            TypeRoot::Time { .. } => Request::Time,
            TypeRoot::Timestamp { precision } => Request::TimestampNtz { fraction: precision },
            TypeRoot::TimestampLTz { precision } => Request::TimestampLtz { fraction: precision },
            TypeRoot::Array { .. } | TypeRoot::Row { .. } | TypeRoot::MapType { .. } => {
                Request::Array
            },
        },
{
}

/// A list column is for elements that have a column of their own and a builder in Arrow. Its
/// elements are those of that column, whose nullability it tells.
pub proof fn law_list_columns_that_there_are(fluss: DataType, arrow: ArrowType)
    requires
        fluss.root is Array,
    ensures
        ({
            let element = *fluss.root->element;
            let item = arrow->List_0.data_type;
            &&& Shape::plan(fluss, arrow) is Ok <==> arrow is List && Shape::plan(element, item)
                is Ok && nested::element_shape(item) is Ok
            &&& Shape::plan(fluss, arrow) matches Ok(shape) ==> {
                let array = shape.array(shape.empty());
                &&& shape == (Shape::List {
                    nullable: fluss.nullable,
                    item: Box::new(Shape::plan(element, item)->Ok_0),
                })
                &&& array->item_nullable == element.nullable
                &&& array->offsets == seq![0int]
                &&& array->List_rows.len() == 0
                &&& *array->values == shape->item.array(shape->item.empty())
            }
        }),
{
    let shape = Shape::plan(fluss, arrow)->Ok_0;
    if Shape::plan(fluss, arrow) is Ok {
        law_scalar_columns_that_there_are(*fluss.root->element, arrow->List_0.data_type);
    }
}

/// Which builders there are for the elements of a list, by their Arrow type.
pub proof fn law_list_elements_that_there_are(arrow: ArrowType)
    ensures
        nested::element_shape(arrow) is Ok <==> match arrow {
            ArrowType::Decimal128(precision, scale) => 1 <= precision <= 38 && scale <= 38
                && (scale > 0 ==> scale <= precision),
            ArrowType::Time32(unit) => unit is Second || unit is Millisecond,
            ArrowType::Time64(unit) => unit is Microsecond || unit is Nanosecond,
            ArrowType::List(item) => nested::element_shape(item.data_type) is Ok,
            ArrowType::Struct(fields) => forall|i: int|
                0 <= i < fields@.len() ==> match (#[trigger] fields@[i]).data_type {
                    ArrowType::Boolean | ArrowType::Int8 | ArrowType::Int16 | ArrowType::Int32
                    | ArrowType::Int64 | ArrowType::Float32 | ArrowType::Float64
                    | ArrowType::Utf8 | ArrowType::LargeUtf8 | ArrowType::Binary
                    | ArrowType::LargeBinary | ArrowType::FixedSizeBinary(_)
                    | ArrowType::Date32 => true,
                    _ => false,
                },
            ArrowType::MapType(_, _) | ArrowType::Other(_) => false,
            _ => true,
        },
{
    if let ArrowType::Struct(fields) = arrow {
        law_element_fields_have_builders(fields@);
    }
}

/// A struct that is an element of a list has a builder for each of its fields, in order, or is
/// refused for the first that has none.
pub proof fn law_element_fields_have_builders(fields: Seq<ArrowField>)
    ensures
        nested::element_field_types(fields) is Ok <==> forall|i: int|
            0 <= i < fields.len() ==> nested::element_field_type(
                (#[trigger] fields[i]).data_type,
            ) is Ok,
        nested::element_field_types(fields) matches Ok(types) ==> types.len() == fields.len()
            && forall|i: int|
            0 <= i < fields.len() ==> nested::element_field_type(
                (#[trigger] fields[i]).data_type,
            ) == Ok::<ScalarType, Fault>(types[i]),
        nested::element_field_types(fields) matches Err(fault) ==> exists|i: int|
            0 <= i < fields.len() && nested::element_field_type((#[trigger] fields[i]).data_type)
                == Err::<ScalarType, Fault>(fault) && forall|j: int|
                0 <= j < i ==> nested::element_field_type((#[trigger] fields[j]).data_type) is Ok,
    decreases fields.len(),
{
    if fields.len() > 0 {
        let earlier = fields.drop_last();
        law_element_fields_have_builders(earlier);
        if let Err(fault) = nested::element_field_types(earlier) {
            let i = choose|i: int|
                0 <= i < earlier.len() && nested::element_field_type(
                    (#[trigger] earlier[i]).data_type,
                ) == Err::<ScalarType, Fault>(fault) && forall|j: int|
                    0 <= j < i ==> nested::element_field_type(
                        (#[trigger] earlier[j]).data_type,
                    ) is Ok;
            assert(fields[i] == earlier[i]);
            assert forall|j: int| 0 <= j < i implies nested::element_field_type(
                (#[trigger] fields[j]).data_type,
            ) is Ok by {
                assert(earlier[j] == fields[j]);
            }
        }
        assert(forall|i: int| 0 <= i < earlier.len() ==> earlier[i] == fields[i]);
        assert(fields.last() == fields[fields.len() - 1]);
    }
}

/// Which builder there is for an Arrow type without children: that of the type itself, except that
/// the large types share the builder of the type with 32-bit offsets, and that a time zone plays no
/// part.
pub proof fn law_builders_that_there_are(arrow: ArrowType)
    ensures
        nested::builder_type(arrow) == match arrow {
            ArrowType::Boolean => Some(ScalarType::Boolean),
            ArrowType::Int8 => Some(ScalarType::Int8),
            ArrowType::Int16 => Some(ScalarType::Int16),
            ArrowType::Int32 => Some(ScalarType::Int32),
            ArrowType::Int64 => Some(ScalarType::Int64),
            ArrowType::Float32 => Some(ScalarType::Float32),
            ArrowType::Float64 => Some(ScalarType::Float64),
            ArrowType::Utf8 => Some(ScalarType::Utf8),
            ArrowType::LargeUtf8 => Some(ScalarType::Utf8),
            ArrowType::Binary => Some(ScalarType::Binary),
            ArrowType::LargeBinary => Some(ScalarType::Binary),
            ArrowType::FixedSizeBinary(width) => Some(ScalarType::FixedSizeBinary { width }),
            ArrowType::Decimal128(precision, scale) => {
                Some(ScalarType::Decimal128 { precision, scale })
            },
            ArrowType::Date32 => Some(ScalarType::Date32),
            ArrowType::Time32(unit) => match unit {
                TimeUnit::Second => Some(ScalarType::Time32Second),
                TimeUnit::Millisecond => Some(ScalarType::Time32Millisecond),
                _ => None,
            },
            ArrowType::Time64(unit) => match unit {
                TimeUnit::Microsecond => Some(ScalarType::Time64Microsecond),
                TimeUnit::Nanosecond => Some(ScalarType::Time64Nanosecond),
                _ => None,
            },
            ArrowType::Timestamp(unit, _) => match unit {
                TimeUnit::Second => Some(ScalarType::TimestampSecond),
                TimeUnit::Millisecond => Some(ScalarType::TimestampMillisecond),
                TimeUnit::Microsecond => Some(ScalarType::TimestampMicrosecond),
                TimeUnit::Nanosecond => Some(ScalarType::TimestampNanosecond),
            },
            _ => None,
        },
        nested::boxed_type(arrow) matches Ok(ty) ==> nested::builder_type(arrow) == Some(ty),
        nested::boxed_type(arrow) is Ok <==> nested::builder_type(arrow) is Some && (
        arrow matches ArrowType::Decimal128(precision, scale) ==> 1 <= precision <= 38 && scale
            <= 38 && (scale > 0 ==> scale <= precision)),
        nested::element_field_type(arrow) matches Ok(ty) ==> nested::builder_type(arrow)
            == Some(ty),
        arrow !is List && arrow !is Struct ==> (nested::element_shape(arrow) matches Ok(shape)
            ==> shape matches BuilderShape::Scalar(ty) && nested::builder_type(arrow) == Some(ty)),
{
}

/// A field of a struct takes a null just where its builder is the one that its logical type is
/// ordinarily stored in, and stores it as a null. Times are expected among 32-bit integers, and
/// timestamps in milliseconds.
pub proof fn law_fields_take_nulls(column: StructColumn, array: FlussArray, i: usize)
    requires
        i < array.elements@.len(),
        array.elements@[i as int] is Null,
    ensures
        column.cell(array, i) is Ok <==> match (column.kind, column.ty) {
            (TypeKind::Boolean, ScalarType::Boolean) => true,
            (TypeKind::TinyInt, ScalarType::Int8) => true,
            (TypeKind::SmallInt, ScalarType::Int16) => true,
            (TypeKind::Int, ScalarType::Int32) => true,
            (TypeKind::BigInt, ScalarType::Int64) => true,
            (TypeKind::Float, ScalarType::Float32) => true,
            (TypeKind::Double, ScalarType::Float64) => true,
            (TypeKind::String, ScalarType::Utf8) => true,
            (TypeKind::Char, ScalarType::Utf8) => true,
            (TypeKind::Bytes, ScalarType::Binary) => true,
            (TypeKind::Binary, ScalarType::Binary) => true,
            (TypeKind::Date, ScalarType::Date32) => true,
            (TypeKind::Decimal { .. }, ScalarType::Decimal128 { .. }) => true,
            (TypeKind::Time, ScalarType::Int32) => true,
            (TypeKind::Timestamp, ScalarType::TimestampMillisecond) => true,
            (TypeKind::TimestampLTz, ScalarType::TimestampMillisecond) => true,
            _ => false,
        },
        column.cell(array, i) matches Ok(cell) ==> cell is None,
        column.cell(array, i) matches Err(fault) ==> fault == Fault::IllegalArgument(
            if column.kind is MapType {
                "Map type in struct not supported"@
            } else {
                "Failed to append null to field "@ + text::number(i as int) + " with type "@
                    + column.type_text
            },
        ),
{
}

/// A field of a struct stores the very value that stands at its place in the row, where that is of
/// the type that its builder holds. Dates and times are kept among 32-bit integers, and the two
/// kinds of timestamps alike.
#[verifier::spinoff_prover]
pub proof fn law_fields_store_values(column: StructColumn, array: FlussArray, i: usize)
    requires
        i < array.elements@.len(),
        array.elements@[i as int] !is Null,
    ensures
        ({
            let stores = |cell: Cell|
                column.cell(array, i) == Ok::<Option<Cell>, Fault>(Some(cell));
            let instant = |m: int, n: int|
                {
                    let micros = m * 1000 + if n < 0 {
                        -((-n) / 1000)
                    } else {
                        n / 1000
                    };
                    if column.ty is TimestampMillisecond {
                        stores(Cell::Int(m))
                    } else if i64::MIN <= m * 1000 <= i64::MAX && i64::MIN <= micros <= i64::MAX {
                        stores(Cell::Int(micros))
                    } else {
                        column.cell(array, i) is Err
                    }
                };
            match (column.ty, array.elements@[i as int]) {
                (ScalarType::Boolean, Datum::Bool(v)) => stores(Cell::Bool(v)),
                (ScalarType::Int8, Datum::Int8(v)) => stores(Cell::Int(v as int)),
                (ScalarType::Int16, Datum::Int16(v)) => stores(Cell::Int(v as int)),
                (ScalarType::Int32, Datum::Int32(v)) => stores(Cell::Int(v as int)),
                (ScalarType::Int32, Datum::Date(v)) => stores(Cell::Int(v.days as int)),
                (ScalarType::Int32, Datum::Time(v)) => stores(Cell::Int(v.millis as int)),
                (ScalarType::Int64, Datum::Int64(v)) => stores(Cell::Int(v as int)),
                (ScalarType::Float32, Datum::Float32(v)) => stores(Cell::Float32(v)),
                (ScalarType::Float64, Datum::Float64(v)) => stores(Cell::Float64(v)),
                (ScalarType::Utf8, Datum::String(v)) => stores(Cell::Str(v@)),
                (ScalarType::Binary, Datum::Blob(v)) => stores(Cell::Bytes(v@)),
                (ScalarType::Date32, Datum::Date(v)) => stores(Cell::Int(v.days as int)),
                (ScalarType::Date32, Datum::Int32(v)) => stores(Cell::Int(v as int)),
                (ScalarType::Date32, Datum::Time(v)) => stores(Cell::Int(v.millis as int)),
                (ScalarType::TimestampMillisecond, Datum::TimestampNtz(v)) => {
                    instant(v.millisecond as int, v.nano_of_millisecond as int)
                },
                (ScalarType::TimestampMillisecond, Datum::TimestampLtz(v)) => {
                    instant(v.epoch_millisecond as int, v.nano_of_millisecond as int)
                },
                (ScalarType::TimestampMicrosecond, Datum::TimestampNtz(v)) => {
                    instant(v.millisecond as int, v.nano_of_millisecond as int)
                },
                (ScalarType::TimestampMicrosecond, Datum::TimestampLtz(v)) => {
                    instant(v.epoch_millisecond as int, v.nano_of_millisecond as int)
                },
                (ScalarType::Decimal128 { .. }, Datum::Decimal(_)) => {
                    column.kind !is Decimal ==> column.cell(array, i) is Err
                },
                _ => column.cell(array, i) is Err,
            }
        }),
{
}

/// A decimal field stores the number that stands at its place in the row, at the precision and the
/// scale of its logical type, and refuses it just where it does not fit them. The number at that
/// scale is `x` units, to the nearest.
pub proof fn law_decimal_fields_store_the_number(
    column: StructColumn,
    array: FlussArray,
    i: usize,
    x: int,
)
    requires
        i < array.elements@.len(),
        array.elements@[i as int] is Decimal,
        column.kind is Decimal,
        column.ty is Decimal128,
        ({
            let d = array.elements@[i as int]->Decimal_0;
            let unit = pow(10, d.scale as nat);
            let number = d.unscaled * pow(10, column.kind->Decimal_scale as nat);
            &&& -unit <= 2 * (x * unit - number) <= unit
            &&& 2 * (x * unit - number) == unit ==> number >= 0
            &&& 2 * (x * unit - number) == -unit ==> number <= 0
        }),
    ensures
        ({
            let limit = pow(10, column.kind->Decimal_precision as nat);
            if -limit < x < limit && i128::MIN <= x <= i128::MAX {
                column.cell(array, i) == Ok::<Option<Cell>, Fault>(Some(Cell::Int(x)))
            } else {
                column.cell(array, i) is Err
            }
        }),
{
    law_decimals_that_fit_are_stored(
        array.elements@[i as int]->Decimal_0,
        column.kind->Decimal_precision,
        column.kind->Decimal_scale as i64,
        x,
    );
}

/// A row that is too short for a field is refused.
pub proof fn law_fields_beyond_the_row_are_refused(
    column: StructColumn,
    array: FlussArray,
    i: usize,
)
    requires
        i >= array.elements@.len(),
    ensures
        column.cell(array, i) is Err,
{
}

/// The fields of a struct column are those of the row type, in order, each with the name, the
/// nullability and the metadata of the Arrow field at its place, and the builder of its Arrow type.
/// There is such a column just where every field has a builder.
pub proof fn law_struct_columns_that_there_are(fluss: DataType, arrow: ArrowType)
    requires
        fluss.root is Row,
        arrow is Struct ==> fluss.root->Row_fields@.len() <= arrow->Struct_0@.len(),
    ensures
        ({
            let fields = fluss.root->Row_fields@;
            let arrow_fields = arrow->Struct_0@;
            &&& Shape::plan(fluss, arrow) is Ok <==> arrow is Struct && forall|i: int|
                0 <= i < fields.len() ==> nested::boxed_type(
                    (#[trigger] arrow_fields[i]).data_type,
                ) is Ok
            &&& Shape::plan(fluss, arrow) matches Ok(shape) ==> {
                let array = shape.array(shape.empty());
                &&& shape is Struct
                &&& shape.nullable() == fluss.nullable
                &&& shape->Struct_fields.len() == fields.len()
                &&& shape->complete == (arrow_fields.len() == fields.len())
                &&& array->Struct_fields.len() == fields.len()
                &&& array->columns.len() == fields.len()
                &&& array->Struct_rows.len() == 0
                &&& forall|i: int|
                    0 <= i < fields.len() ==> {
                        let field = #[trigger] array->Struct_fields[i];
                        let column = shape->Struct_fields[i].column;
                        &&& array->columns[i].len() == 0
                        &&& field.name == arrow_fields[i].name@
                        &&& field.nullable == arrow_fields[i].nullable
                        &&& field.metadata == types::metadata_pairs(arrow_fields[i].metadata@)
                        &&& nested::boxed_type(arrow_fields[i].data_type) == Ok::<
                            ScalarType,
                            Fault,
                        >(field.ty)
                        &&& column.ty == field.ty
                        &&& shape->Struct_fields[i].exact <==> match arrow_fields[i].data_type {
                            ArrowType::LargeUtf8 | ArrowType::LargeBinary => false,
                            ArrowType::Timestamp(_, zone) => zone is None,
                            _ => true,
                        }
                        &&& column.type_text == fields[i].data_type.text()
                        &&& match (fields[i].data_type.root, column.kind) {
                            (TypeRoot::Boolean, TypeKind::Boolean) => true,
                            (TypeRoot::TinyInt, TypeKind::TinyInt) => true,
                            (TypeRoot::SmallInt, TypeKind::SmallInt) => true,
                            (TypeRoot::Int, TypeKind::Int) => true,
                            (TypeRoot::BigInt, TypeKind::BigInt) => true,
                            (TypeRoot::Float, TypeKind::Float) => true,
                            (TypeRoot::Double, TypeKind::Double) => true,
                            (TypeRoot::Char { .. }, TypeKind::Char) => true,
                            (TypeRoot::String, TypeKind::String) => true,
                            (TypeRoot::Bytes, TypeKind::Bytes) => true,
                            (TypeRoot::Binary { .. }, TypeKind::Binary) => true,
                            (
                                TypeRoot::Decimal { precision, scale },
                                TypeKind::Decimal { precision: p, scale: s },
                            ) => p == precision && s == scale,
                            (TypeRoot::Date, TypeKind::Date) => true,
                            (TypeRoot::Time { .. }, TypeKind::Time) => true,
                            (TypeRoot::Timestamp { .. }, TypeKind::Timestamp) => true,
                            (TypeRoot::TimestampLTz { .. }, TypeKind::TimestampLTz) => true,
                            (TypeRoot::Array { .. }, TypeKind::Array) => true,
                            (TypeRoot::Row { .. }, TypeKind::Row) => true,
                            (TypeRoot::MapType { .. }, TypeKind::MapType) => true,
                            _ => false,
                        }
                    }
            }
        }),
{
    if arrow is Struct {
        lemma_row_fields(fluss.root->Row_fields@, arrow->Struct_0@);
    }
}

proof fn lemma_row_fields(fields: Seq<RowField>, arrow: Seq<ArrowField>)
    requires
        fields.len() <= arrow.len(),
    ensures
        column::row_fields(fields, arrow) is Ok <==> forall|i: int|
            0 <= i < fields.len() ==> nested::boxed_type((#[trigger] arrow[i]).data_type) is Ok,
        column::row_fields(fields, arrow) matches Ok(shapes) ==> {
            &&& shapes.len() == fields.len()
            &&& forall|i: int|
                0 <= i < fields.len() ==> {
                    let shape = #[trigger] shapes[i];
                    &&& shape.name == arrow[i].name@
                    &&& shape.nullable == arrow[i].nullable
                    &&& shape.metadata == types::metadata_pairs(arrow[i].metadata@)
                    &&& nested::boxed_type(arrow[i].data_type) == Ok::<ScalarType, Fault>(
                        shape.column.ty,
                    )
                    &&& shape.column.type_text == fields[i].data_type.text()
                    &&& shape.column.kind == fields[i].data_type.root.spec_kind()
                    &&& shape.exact == column::builder_is_exact(arrow[i].data_type)
                }
        },
        column::row_fields(fields, arrow) matches Err(fault) ==> exists|i: int|
            0 <= i < fields.len() && nested::boxed_type((#[trigger] arrow[i]).data_type) == Err::<
                ScalarType,
                Fault,
            >(fault) && forall|j: int|
                0 <= j < i ==> nested::boxed_type((#[trigger] arrow[j]).data_type) is Ok,
    decreases fields.len(),
{
    if fields.len() > 0 {
        let earlier = fields.drop_last();
        lemma_row_fields(earlier, arrow);
        assert(forall|i: int| 0 <= i < earlier.len() ==> earlier[i] == fields[i]);
        assert(fields.last() == fields[fields.len() - 1]);
        assert(nested::boxed_type(arrow[fields.len() - 1].data_type) is Ok || nested::boxed_type(
            arrow[fields.len() - 1].data_type,
        ) is Err);
    }
}

/// The value of a struct column is a row of its own. It is written just where every field takes
/// what stands at its place: each field then gains that cell, and the column a valid row.
/// Otherwise nothing is written, and the first field that does not take its value says why.
#[verifier::spinoff_prover]
pub proof fn law_struct_rows_are_written_field_by_field(
    writer: ColumnWriter,
    row: GenericRow,
    pos: usize,
    after: ColumnWriter,
    r: Result<(), Error>,
)
    requires
        writer.wf(),
        writer.shape() is Struct,
        writer.writes(&row, pos, after, r),
        pos < row.fields().elements@.len(),
        row.fields().elements@[pos as int] is Array,
    ensures
        ({
            let fields = writer.shape()->Struct_fields;
            let array = row.fields().elements@[pos as int]->Array_0;
            let before = writer.shape().array(writer.data());
            let later = after.shape().array(after.data());
            &&& r is Ok <==> forall|i: int|
                0 <= i < fields.len() ==> (#[trigger] fields[i]).column.cell(array, i as usize)
                    is Ok
            &&& r is Ok ==> {
                &&& later->Struct_fields == before->Struct_fields
                &&& later->Struct_rows == before->Struct_rows.push(true)
                &&& before->columns.len() == fields.len()
                &&& later->columns.len() == fields.len()
                &&& forall|i: int|
                    0 <= i < fields.len() ==> fields[i].column.cell(array, i as usize) is Ok
                        && (#[trigger] later->columns[i]) == before->columns[i].push(
                        fields[i].column.cell(array, i as usize)->Ok_0,
                    )
            }
            &&& r is Err ==> after.data() == writer.data() && exists|i: int|
                0 <= i < fields.len() && (#[trigger] fields[i]).column.cell(array, i as usize)
                    == Err::<Option<Cell>, Fault>(r->Err_0@) && forall|j: int|
                    0 <= j < i ==> (#[trigger] fields[j]).column.cell(array, j as usize) is Ok
        }),
{
    writer.law_shape_holds_data();
    let fields = writer.shape()->Struct_fields;
    let array = row.fields().elements@[pos as int]->Array_0;
    lemma_check_row(fields, array);
    lemma_row_written(writer.shape(), writer.data(), array);
}

proof fn lemma_check_row(fields: Seq<FieldShape>, array: FlussArray)
    requires
        fields.len() <= usize::MAX,
    ensures
        match column::check_fields(Shape::struct_columns(fields), array, fields.len()) {
            Ok(_) => forall|i: int|
                0 <= i < fields.len() ==> (#[trigger] fields[i]).column.cell(array, i as usize)
                    is Ok,
            Err(fault) => exists|i: int|
                0 <= i < fields.len() && (#[trigger] fields[i]).column.cell(array, i as usize)
                    == Err::<Option<Cell>, Fault>(fault) && forall|j: int|
                    0 <= j < i ==> (#[trigger] fields[j]).column.cell(array, j as usize) is Ok,
        },
{
    let columns = Shape::struct_columns(fields);
    lemma_check_fields(columns, array, fields.len());
    assert(forall|i: int| 0 <= i < fields.len() ==> (#[trigger] fields[i]).column == columns[i]);
    if let Err(fault) = column::check_fields(columns, array, fields.len()) {
        let i = choose|i: int|
            0 <= i < fields.len() && (#[trigger] columns[i]).cell(array, i as usize) == Err::<
                Option<Cell>,
                Fault,
            >(fault) && forall|j: int|
                0 <= j < i ==> (#[trigger] columns[j]).cell(array, j as usize) is Ok;
        assert(fields[i].column == columns[i]);
        assert forall|j: int| 0 <= j < i implies (#[trigger] fields[j]).column.cell(
            array,
            j as usize,
        ) is Ok by {
            assert(columns[j].cell(array, j as usize) is Ok);
        }
    }
}

proof fn lemma_row_written(shape: Shape, data: Data, array: FlussArray)
    requires
        shape.holds(data),
        shape is Struct,
    ensures
        ({
            let fields = shape->Struct_fields;
            let before = shape.array(data);
            let later = shape.array(shape.append_value(data, Value::Array(array)));
            &&& later->Struct_fields == before->Struct_fields
            &&& later->Struct_rows == before->Struct_rows.push(true)
            &&& before->columns.len() == fields.len()
            &&& later->columns.len() == fields.len()
            &&& forall|i: int|
                0 <= i < fields.len() ==> (#[trigger] later->columns[i])
                    == before->columns[i].push(
                    fields[i].column.cell(array, i as usize)->Ok_0,
                )
        }),
{
}

proof fn lemma_check_fields(columns: Seq<StructColumn>, array: FlussArray, n: nat)
    requires
        n <= columns.len(),
        n <= usize::MAX,
    ensures
        match column::check_fields(columns, array, n) {
            Ok(_) => forall|i: int|
                0 <= i < n ==> (#[trigger] columns[i]).cell(array, i as usize) is Ok,
            Err(fault) => exists|i: int|
                0 <= i < n && (#[trigger] columns[i]).cell(array, i as usize) == Err::<
                    Option<Cell>,
                    Fault,
                >(fault) && forall|j: int|
                    0 <= j < i ==> (#[trigger] columns[j]).cell(array, j as usize) is Ok,
        },
    decreases n,
{
    if n > 0 {
        lemma_check_fields(columns, array, (n - 1) as nat);
        assert(columns[n - 1].cell(array, (n - 1) as usize) is Ok || columns[n - 1].cell(
            array,
            (n - 1) as usize,
        ) is Err);
    }
}

/// The value of a list column is an array. It is written just where each of its elements is a null,
/// which always is, or one that the column of the elements takes by itself. Otherwise nothing is
/// written, and the first element that is not taken says why.
#[verifier::spinoff_prover]
pub proof fn law_arrays_are_taken_by_their_elements(
    writer: ColumnWriter,
    row: GenericRow,
    pos: usize,
    after: ColumnWriter,
    r: Result<(), Error>,
)
    requires
        writer.wf(),
        writer.shape() is List,
        writer.writes(&row, pos, after, r),
        pos < row.fields().elements@.len(),
        row.fields().elements@[pos as int] is Array,
    ensures
        ({
            let item = *writer.shape()->item;
            let array = row.fields().elements@[pos as int]->Array_0;
            let outcome = |i: int|
                item.write_value(
                    item.empty(),
                    array.value_at(i as usize, item.request()),
                ).1;
            &&& r is Ok <==> forall|i: int|
                0 <= i < array.elements@.len() ==> (#[trigger] array.elements@[i]) is Null
                    || outcome(i) is Ok
            &&& r is Err ==> after.data() == writer.data() && exists|i: int|
                0 <= i < array.elements@.len() && (#[trigger] array.elements@[i]) !is Null
                    && outcome(i) == Err::<(), Fault>(r->Err_0@) && forall|j: int|
                    0 <= j < i ==> (#[trigger] array.elements@[j]) is Null || outcome(j) is Ok
        }),
{
    writer.law_shape_holds_data();
    let item = *writer.shape()->item;
    let array = row.fields().elements@[pos as int]->Array_0;
    law_elements_are_taken_one_by_one(item, array, array.elements@.len());
}

/// Elements are taken just where each is a null or one that the column takes by itself. The first
/// that is not says why.
pub proof fn law_elements_are_taken_one_by_one(item: Shape, array: FlussArray, n: nat)
    requires
        n <= array.elements@.len(),
    ensures
        match item.check_elements(array, n) {
            Ok(_) => forall|i: int|
                0 <= i < n ==> (#[trigger] array.elements@[i]) is Null || item.check(
                    array.value_at(i as usize, item.request()),
                ) is Ok,
            Err(fault) => exists|i: int|
                0 <= i < n && (#[trigger] array.elements@[i]) !is Null && item.check(
                    array.value_at(i as usize, item.request()),
                ) == Err::<(), Fault>(fault) && forall|j: int|
                    0 <= j < i ==> (#[trigger] array.elements@[j]) is Null || item.check(
                        array.value_at(j as usize, item.request()),
                    ) is Ok,
        },
    decreases n,
{
    if n > 0 {
        assert(array.elements.len() == array.elements@.len());
        law_elements_are_taken_one_by_one(item, array, (n - 1) as nat);
        let element = array.elements@[n - 1];
        assert(element is Null || element !is Null);
    }
}

/// An array that is written adds one list to the column, which starts where the one before it ends
/// and has as many elements as the array. The elements that are there stay, and behind them come
/// those of the array, in order: a null for a null, and otherwise the row that the column of the
/// elements makes of the element by itself.
#[verifier::spinoff_prover]
pub proof fn law_arrays_are_stored_element_by_element(
    writer: ColumnWriter,
    row: GenericRow,
    pos: usize,
    after: ColumnWriter,
    r: Result<(), Error>,
)
    requires
        writer.wf(),
        writer.shape() is List,
        writer.writes(&row, pos, after, r),
        pos < row.fields().elements@.len(),
        row.fields().elements@[pos as int] is Array,
        r is Ok,
    ensures
        ({
            let item = *writer.shape()->item;
            let array = row.fields().elements@[pos as int]->Array_0;
            let n = array.elements@.len();
            let before = writer.shape().array(writer.data());
            let later = after.shape().array(after.data());
            let old_elements = before->values.entries();
            let elements = later->values.entries();
            let start = before->offsets[before->offsets.len() - 1];
            &&& later->item_nullable == before->item_nullable
            &&& later->values.array_type() == before->values.array_type()
            &&& later->offsets == before->offsets.push(start + n)
            &&& later->List_rows == before->List_rows.push(true)
            &&& old_elements.len() == start
            &&& elements.len() == start + n
            &&& elements.subrange(0, start) == old_elements
            &&& forall|i: int|
                #![trigger array.elements@[i]]
                0 <= i < n ==> elements[start + i] == if array.elements@[i] is Null {
                    Entry::Null
                } else {
                    item.rows(
                        item.write_value(
                            item.empty(),
                            array.value_at(i as usize, item.request()),
                        ).0,
                    )[0]
                }
        }),
{
    writer.law_shape_holds_data();
    let shape = writer.shape();
    let data = writer.data();
    let item = *shape->item;
    let values = *data->values;
    let array = row.fields().elements@[pos as int]->Array_0;
    let n = array.elements@.len();
    let new = item.append_elements(values, array, n);
    laws::lemma_elements_read_back(item, values, array, n);
    growth::lemma_append_elements(item, values, array, n);
    laws::lemma_type_ignores_data(item, values, new);
    growth::lemma_prefix_reflexive(values);
    laws::law_rows_stay(item, values, values);
    let elements = item.rows(new);
    assert(elements.subrange(0, values.len() as int) =~= item.rows(values));
    growth::lemma_holds_wf(item, values);
    growth::lemma_empty_holds(item);
    growth::lemma_prefix_reflexive(item.empty());
    laws::law_rows_stay(item, item.empty(), item.empty());
    law_elements_are_taken_one_by_one(item, array, n);
    assert forall|i: int|
        #![trigger array.elements@[i]]
        0 <= i < n implies elements[values.len() + i] == if array.elements@[i] is Null {
        Entry::Null
    } else {
        item.rows(
            item.write_value(item.empty(), array.value_at(i as usize, item.request())).0,
        )[0]
    } by {
        assert(array.elements.len() == array.elements@.len());
        assert(elements[values.len() + i] == item.element_entry(array, i));
        if array.elements@[i] !is Null {
            let answer = array.value_at(i as usize, item.request());
            assert(item.check(answer) is Ok);
            growth::lemma_array_answers(array, i as usize, item.request());
            laws::law_write_reads_back(item, item.empty(), answer->Ok_0);
        }
    }
}

/// A row each of whose fields is null or of its declared type, where each field is stored in the
/// ordinary Arrow type, is written: every field gains the very value, or a null for a null.
#[verifier::spinoff_prover]
pub proof fn law_rows_of_their_types_are_written(
    fluss: DataType,
    arrow: ArrowType,
    writer: ColumnWriter,
    row: GenericRow,
    pos: usize,
    after: ColumnWriter,
    r: Result<(), Error>,
)
    requires
        writer.wf(),
        fluss.root is Row,
        arrow is Struct,
        fluss.root->Row_fields@.len() <= arrow->Struct_0@.len(),
        Shape::plan(fluss, arrow) == Ok::<Shape, Fault>(writer.shape()),
        writer.writes(&row, pos, after, r),
        pos < row.fields().elements@.len(),
        row.fields().elements@[pos as int] is Array,
        ({
            let fields = fluss.root->Row_fields@;
            let arrow_fields = arrow->Struct_0@;
            let values = row.fields().elements@[pos as int]->Array_0.elements@;
            &&& fields.len() <= values.len()
            &&& forall|i: int|
                0 <= i < fields.len() ==> match (
                    (#[trigger] fields[i]).data_type.root,
                    arrow_fields[i].data_type,
                ) {
                    (TypeRoot::Boolean, ArrowType::Boolean) => true,
                    (TypeRoot::TinyInt, ArrowType::Int8) => true,
                    (TypeRoot::SmallInt, ArrowType::Int16) => true,
                    (TypeRoot::Int, ArrowType::Int32) => true,
                    (TypeRoot::BigInt, ArrowType::Int64) => true,
                    (TypeRoot::Float, ArrowType::Float32) => true,
                    (TypeRoot::Double, ArrowType::Float64) => true,
                    (TypeRoot::Char { .. }, ArrowType::Utf8) => true,
                    (TypeRoot::String, ArrowType::Utf8) => true,
                    (TypeRoot::Bytes, ArrowType::Binary) => true,
                    (TypeRoot::Binary { .. }, ArrowType::Binary) => true,
                    (TypeRoot::Date, ArrowType::Date32) => true,
                    (
                        TypeRoot::Timestamp { .. },
                        ArrowType::Timestamp(TimeUnit::Millisecond, _),
                    ) => true,
                    (
                        TypeRoot::TimestampLTz { .. },
                        ArrowType::Timestamp(TimeUnit::Millisecond, _),
                    ) => true,
                    _ => false,
                }
            &&& forall|i: int|
                0 <= i < fields.len() ==> match (
                    (#[trigger] fields[i]).data_type.root,
                    values[i],
                ) {
                    (_, Datum::Null) => true,
                    (TypeRoot::Boolean, Datum::Bool(_)) => true,
                    (TypeRoot::TinyInt, Datum::Int8(_)) => true,
                    (TypeRoot::SmallInt, Datum::Int16(_)) => true,
                    (TypeRoot::Int, Datum::Int32(_)) => true,
                    (TypeRoot::BigInt, Datum::Int64(_)) => true,
                    (TypeRoot::Float, Datum::Float32(_)) => true,
                    (TypeRoot::Double, Datum::Float64(_)) => true,
                    (TypeRoot::Char { .. }, Datum::String(_)) => true,
                    (TypeRoot::String, Datum::String(_)) => true,
                    (TypeRoot::Bytes, Datum::Blob(_)) => true,
                    (TypeRoot::Binary { .. }, Datum::Blob(_)) => true,
                    (TypeRoot::Date, Datum::Date(_)) => true,
                    (TypeRoot::Timestamp { .. }, Datum::TimestampNtz(_)) => true,
                    (TypeRoot::TimestampLTz { .. }, Datum::TimestampLtz(_)) => true,
                    _ => false,
                }
        }),
    ensures
        ({
            let fields = fluss.root->Row_fields@;
            let values = row.fields().elements@[pos as int]->Array_0.elements@;
            let before = writer.shape().array(writer.data());
            let later = after.shape().array(after.data());
            &&& r is Ok
            &&& later->Struct_rows == before->Struct_rows.push(true)
            &&& later->Struct_fields == before->Struct_fields
            &&& later->columns.len() == fields.len()
            &&& forall|i: int|
                0 <= i < fields.len() ==> (#[trigger] later->columns[i])
                    == before->columns[i].push(
                    match values[i] {
                        Datum::Bool(v) => Some(Cell::Bool(v)),
                        Datum::Int8(v) => Some(Cell::Int(v as int)),
                        Datum::Int16(v) => Some(Cell::Int(v as int)),
                        Datum::Int32(v) => Some(Cell::Int(v as int)),
                        Datum::Int64(v) => Some(Cell::Int(v as int)),
                        Datum::Float32(v) => Some(Cell::Float32(v)),
                        Datum::Float64(v) => Some(Cell::Float64(v)),
                        Datum::String(v) => Some(Cell::Str(v@)),
                        Datum::Blob(v) => Some(Cell::Bytes(v@)),
                        Datum::Date(v) => Some(Cell::Int(v.days as int)),
                        Datum::TimestampNtz(v) => Some(Cell::Int(v.millisecond as int)),
                        Datum::TimestampLtz(v) => Some(Cell::Int(v.epoch_millisecond as int)),
                        _ => None,
                    },
                )
        }),
{
    writer.law_shape_holds_data();
    law_struct_columns_that_there_are(fluss, arrow);
    law_struct_rows_are_written_field_by_field(writer, row, pos, after, r);
    let fields = fluss.root->Row_fields@;
    let arrow_fields = arrow->Struct_0@;
    let shapes = writer.shape()->Struct_fields;
    let array = row.fields().elements@[pos as int]->Array_0;
    let planned = writer.shape().array(writer.shape().empty());
    assert forall|i: int| 0 <= i < fields.len() implies (#[trigger] shapes[i]).column.cell(
        array,
        i as usize,
    ) == Ok::<Option<Cell>, Fault>(
        match array.elements@[i] {
            Datum::Bool(v) => Some(Cell::Bool(v)),
            Datum::Int8(v) => Some(Cell::Int(v as int)),
            Datum::Int16(v) => Some(Cell::Int(v as int)),
            Datum::Int32(v) => Some(Cell::Int(v as int)),
            Datum::Int64(v) => Some(Cell::Int(v as int)),
            Datum::Float32(v) => Some(Cell::Float32(v)),
            Datum::Float64(v) => Some(Cell::Float64(v)),
            Datum::String(v) => Some(Cell::Str(v@)),
            Datum::Blob(v) => Some(Cell::Bytes(v@)),
            Datum::Date(v) => Some(Cell::Int(v.days as int)),
            Datum::TimestampNtz(v) => Some(Cell::Int(v.millisecond as int)),
            Datum::TimestampLtz(v) => Some(Cell::Int(v.epoch_millisecond as int)),
            _ => None,
        },
    ) by {
        assert(planned->Struct_fields[i].name == arrow_fields[i].name@);
        let column = shapes[i].column;
        assert(nested::boxed_type(arrow_fields[i].data_type) == Ok::<ScalarType, Fault>(column.ty));
        law_builders_that_there_are(arrow_fields[i].data_type);
        lemma_ordinary_field(fields[i].data_type.root, arrow_fields[i].data_type, column, array, i);
    }
}

#[verifier::spinoff_prover]
proof fn lemma_ordinary_field(
    root: TypeRoot,
    arrow: ArrowType,
    column: StructColumn,
    array: FlussArray,
    i: int,
)
    requires
        0 <= i < array.elements@.len(),
        i <= usize::MAX,
        column.kind == root.spec_kind(),
        nested::boxed_type(arrow) == Ok::<ScalarType, Fault>(column.ty),
        match (root, arrow) {
            (TypeRoot::Boolean, ArrowType::Boolean) => true,
            (TypeRoot::TinyInt, ArrowType::Int8) => true,
            (TypeRoot::SmallInt, ArrowType::Int16) => true,
            (TypeRoot::Int, ArrowType::Int32) => true,
            (TypeRoot::BigInt, ArrowType::Int64) => true,
            (TypeRoot::Float, ArrowType::Float32) => true,
            (TypeRoot::Double, ArrowType::Float64) => true,
            (TypeRoot::Char { .. }, ArrowType::Utf8) => true,
            (TypeRoot::String, ArrowType::Utf8) => true,
            (TypeRoot::Bytes, ArrowType::Binary) => true,
            (TypeRoot::Binary { .. }, ArrowType::Binary) => true,
            (TypeRoot::Date, ArrowType::Date32) => true,
            (
                TypeRoot::Timestamp { .. },
                ArrowType::Timestamp(TimeUnit::Millisecond, _),
            ) => true,
            (
                TypeRoot::TimestampLTz { .. },
                ArrowType::Timestamp(TimeUnit::Millisecond, _),
            ) => true,
            _ => false,
        },
        match (root, array.elements@[i]) {
            (_, Datum::Null) => true,
            (TypeRoot::Boolean, Datum::Bool(_)) => true,
            (TypeRoot::TinyInt, Datum::Int8(_)) => true,
            (TypeRoot::SmallInt, Datum::Int16(_)) => true,
            (TypeRoot::Int, Datum::Int32(_)) => true,
            (TypeRoot::BigInt, Datum::Int64(_)) => true,
            (TypeRoot::Float, Datum::Float32(_)) => true,
            (TypeRoot::Double, Datum::Float64(_)) => true,
            (TypeRoot::Char { .. }, Datum::String(_)) => true,
            (TypeRoot::String, Datum::String(_)) => true,
            (TypeRoot::Bytes, Datum::Blob(_)) => true,
            (TypeRoot::Binary { .. }, Datum::Blob(_)) => true,
            (TypeRoot::Date, Datum::Date(_)) => true,
            (TypeRoot::Timestamp { .. }, Datum::TimestampNtz(_)) => true,
            (TypeRoot::TimestampLTz { .. }, Datum::TimestampLtz(_)) => true,
            _ => false,
        },
    ensures
        column.cell(array, i as usize) == Ok::<Option<Cell>, Fault>(
            match array.elements@[i] {
                Datum::Bool(v) => Some(Cell::Bool(v)),
                Datum::Int8(v) => Some(Cell::Int(v as int)),
                Datum::Int16(v) => Some(Cell::Int(v as int)),
                Datum::Int32(v) => Some(Cell::Int(v as int)),
                Datum::Int64(v) => Some(Cell::Int(v as int)),
                Datum::Float32(v) => Some(Cell::Float32(v)),
                Datum::Float64(v) => Some(Cell::Float64(v)),
                Datum::String(v) => Some(Cell::Str(v@)),
                Datum::Blob(v) => Some(Cell::Bytes(v@)),
                Datum::Date(v) => Some(Cell::Int(v.days as int)),
                Datum::TimestampNtz(v) => Some(Cell::Int(v.millisecond as int)),
                Datum::TimestampLtz(v) => Some(Cell::Int(v.epoch_millisecond as int)),
                _ => None,
            },
        ),
{
}

/// An array each of whose elements is null or of the declared type of the elements is written: a
/// list column gains the very values, in order, with a null for a null, whether or not the elements
/// are declared to admit nulls.
#[verifier::spinoff_prover]
pub proof fn law_arrays_of_their_types_are_written(
    fluss: DataType,
    arrow: ArrowType,
    writer: ColumnWriter,
    row: GenericRow,
    pos: usize,
    after: ColumnWriter,
    r: Result<(), Error>,
)
    requires
        writer.wf(),
        fluss.root is Array,
        Shape::plan(fluss, arrow) == Ok::<Shape, Fault>(writer.shape()),
        writer.writes(&row, pos, after, r),
        pos < row.fields().elements@.len(),
        row.fields().elements@[pos as int] is Array,
        fluss.root->element.root !is Array,
        fluss.root->element.root !is Row,
        ({
            let root = fluss.root->element.root;
            let elements = row.fields().elements@[pos as int]->Array_0.elements@;
            forall|i: int|
                0 <= i < elements.len() ==> match (root, #[trigger] elements[i]) {
                    (_, Datum::Null) => true,
                    (TypeRoot::Boolean, Datum::Bool(_)) => true,
                    (TypeRoot::TinyInt, Datum::Int8(_)) => true,
                    (TypeRoot::SmallInt, Datum::Int16(_)) => true,
                    (TypeRoot::Int, Datum::Int32(_)) => true,
                    (TypeRoot::BigInt, Datum::Int64(_)) => true,
                    (TypeRoot::Float, Datum::Float32(_)) => true,
                    (TypeRoot::Double, Datum::Float64(_)) => true,
                    (TypeRoot::Char { .. }, Datum::String(_)) => true,
                    (TypeRoot::String, Datum::String(_)) => true,
                    (TypeRoot::Bytes, Datum::Blob(_)) => true,
                    (TypeRoot::Date, Datum::Date(_)) => true,
                    (TypeRoot::Binary { width }, Datum::Blob(v)) => v@.len() == width,
                    _ => false,
                }
        }),
    ensures
        ({
            let elements = row.fields().elements@[pos as int]->Array_0.elements@;
            let before = writer.shape().array(writer.data());
            let later = after.shape().array(after.data());
            let start = before->values->cells.len() as int;
            &&& r is Ok
            &&& later->offsets == before->offsets.push(start + elements.len())
            &&& later->List_rows == before->List_rows.push(true)
            &&& later->values->Scalar_ty == before->values->Scalar_ty
            &&& later->values->cells.len() == start + elements.len()
            &&& later->values->cells.subrange(0, start) == before->values->cells
            &&& forall|i: int|
                #![trigger elements[i]]
                0 <= i < elements.len() ==> later->values->cells[start + i] == match elements[i] {
                    Datum::Bool(v) => Some(Cell::Bool(v)),
                    Datum::Int8(v) => Some(Cell::Int(v as int)),
                    Datum::Int16(v) => Some(Cell::Int(v as int)),
                    Datum::Int32(v) => Some(Cell::Int(v as int)),
                    Datum::Int64(v) => Some(Cell::Int(v as int)),
                    Datum::Float32(v) => Some(Cell::Float32(v)),
                    Datum::Float64(v) => Some(Cell::Float64(v)),
                    Datum::String(v) => Some(Cell::Str(v@)),
                    Datum::Blob(v) => Some(Cell::Bytes(v@)),
                    Datum::Date(v) => Some(Cell::Int(v.days as int)),
                    _ => None,
                }
        }),
{
    writer.law_shape_holds_data();
    law_list_columns_that_there_are(fluss, arrow);
    let item = *writer.shape()->item;
    let array = row.fields().elements@[pos as int]->Array_0;
    let n = array.elements@.len();
    let values = *writer.data()->values;
    lemma_scalar_elements(*fluss.root->element, arrow->List_0.data_type, item, values, array, n);
    lemma_list_written(writer.shape(), writer.data(), array, row.null_at(pos));
    lemma_scalar_cells(item, values);
    lemma_scalar_cells(item, item.append_elements(values, array, n));
}

proof fn lemma_scalar_cells(item: Shape, values: Data)
    requires
        item is Scalar,
        values is Scalar,
    ensures
        item.array(values) == (ArrayContents::Scalar {
            ty: item->kind.spec_ty(),
            cells: values->Scalar_0,
        }),
{
}

proof fn lemma_list_written(
    shape: Shape,
    data: Data,
    array: FlussArray,
    null: Result<bool, Fault>,
)
    requires
        shape is List,
        shape.holds(data),
        null == Ok::<bool, Fault>(false),
        shape->item.check_elements(array, array.elements@.len()) is Ok,
    ensures
        ({
            let (written, outcome) = shape.write(data, null, Ok(Value::Array(array)));
            let item = *shape->item;
            let before = shape.array(data);
            let later = shape.array(written);
            let n = array.elements@.len();
            &&& outcome is Ok
            &&& *before->values == item.array(*data->values)
            &&& *later->values == item.array(
                item.append_elements(*data->values, array, n),
            )
            &&& before->offsets[before->offsets.len() - 1] == data->values.len()
            &&& later->offsets == before->offsets.push((data->values.len() + n) as int)
            &&& later->List_rows == before->List_rows.push(true)
            &&& later->item_nullable == before->item_nullable
        }),
{
}

#[verifier::spinoff_prover]
proof fn lemma_scalar_elements(
    element: DataType,
    arrow: ArrowType,
    item: Shape,
    values: Data,
    array: FlussArray,
    n: nat,
)
    requires
        n <= array.elements@.len(),
        element.root !is Array,
        element.root !is Row,
        Shape::plan(element, arrow) == Ok::<Shape, Fault>(item),
        item.holds(values),
        forall|i: int|
            0 <= i < n ==> match (element.root, #[trigger] array.elements@[i]) {
                (_, Datum::Null) => true,
                (TypeRoot::Boolean, Datum::Bool(_)) => true,
                (TypeRoot::TinyInt, Datum::Int8(_)) => true,
                (TypeRoot::SmallInt, Datum::Int16(_)) => true,
                (TypeRoot::Int, Datum::Int32(_)) => true,
                (TypeRoot::BigInt, Datum::Int64(_)) => true,
                (TypeRoot::Float, Datum::Float32(_)) => true,
                (TypeRoot::Double, Datum::Float64(_)) => true,
                (TypeRoot::Char { .. }, Datum::String(_)) => true,
                (TypeRoot::String, Datum::String(_)) => true,
                (TypeRoot::Bytes, Datum::Blob(_)) => true,
                (TypeRoot::Date, Datum::Date(_)) => true,
                (TypeRoot::Binary { width }, Datum::Blob(v)) => v@.len() == width,
                _ => false,
            },
    ensures
        item.check_elements(array, n) is Ok,
        values is Scalar,
        ({
            let before = values->Scalar_0;
            let later = item.append_elements(values, array, n);
            &&& later is Scalar
            &&& later->Scalar_0.len() == before.len() + n
            &&& later->Scalar_0.subrange(0, before.len() as int) == before
            &&& forall|i: int|
                #![trigger array.elements@[i]]
                0 <= i < n ==> later->Scalar_0[before.len() + i] == match array.elements@[i] {
                    Datum::Bool(v) => Some(Cell::Bool(v)),
                    Datum::Int8(v) => Some(Cell::Int(v as int)),
                    Datum::Int16(v) => Some(Cell::Int(v as int)),
                    Datum::Int32(v) => Some(Cell::Int(v as int)),
                    Datum::Int64(v) => Some(Cell::Int(v as int)),
                    Datum::Float32(v) => Some(Cell::Float32(v)),
                    Datum::Float64(v) => Some(Cell::Float64(v)),
                    Datum::String(v) => Some(Cell::Str(v@)),
                    Datum::Blob(v) => Some(Cell::Bytes(v@)),
                    Datum::Date(v) => Some(Cell::Int(v.days as int)),
                    _ => None,
                }
        }),
    decreases n,
{
    let before = values->Scalar_0;
    if n == 0 {
        assert(before.subrange(0, before.len() as int) =~= before);
    } else {
        let k = (n - 1) as nat;
        lemma_scalar_elements(element, arrow, item, values, array, k);
        assert(array.elements.len() == array.elements@.len());
        let datum = array.elements@[k as int];
        let later = item.append_elements(values, array, n)->Scalar_0;
        let earlier = item.append_elements(values, array, k)->Scalar_0;
        lemma_scalar_element(element, arrow, item, array, k);
        let answer = array.value_at(k as usize, item.request());
        assert(array.null_at(k as usize) <==> datum is Null);
        if datum !is Null {
            let value = answer->Ok_0;
            assert(item.check(answer) is Ok);
            assert(item.append_value(Data::Scalar(earlier), value) == Data::Scalar(
                earlier.push(Some(item->kind.convert(value)->Ok_0)),
            ));
        }
        assert(later =~= earlier.push(
            match datum {
                Datum::Bool(v) => Some(Cell::Bool(v)),
                Datum::Int8(v) => Some(Cell::Int(v as int)),
                Datum::Int16(v) => Some(Cell::Int(v as int)),
                Datum::Int32(v) => Some(Cell::Int(v as int)),
                Datum::Int64(v) => Some(Cell::Int(v as int)),
                Datum::Float32(v) => Some(Cell::Float32(v)),
                Datum::Float64(v) => Some(Cell::Float64(v)),
                Datum::String(v) => Some(Cell::Str(v@)),
                Datum::Blob(v) => Some(Cell::Bytes(v@)),
                Datum::Date(v) => Some(Cell::Int(v.days as int)),
                _ => None,
            },
        ));
        assert(later.subrange(0, before.len() as int) =~= before);
    }
}

#[verifier::spinoff_prover]
proof fn lemma_scalar_element(
    element: DataType,
    arrow: ArrowType,
    item: Shape,
    array: FlussArray,
    k: nat,
)
    requires
        k < array.elements@.len() <= usize::MAX,
        element.root !is Array,
        element.root !is Row,
        Shape::plan(element, arrow) == Ok::<Shape, Fault>(item),
        match (element.root, array.elements@[k as int]) {
            (_, Datum::Null) => true,
            (TypeRoot::Boolean, Datum::Bool(_)) => true,
            (TypeRoot::TinyInt, Datum::Int8(_)) => true,
            (TypeRoot::SmallInt, Datum::Int16(_)) => true,
            (TypeRoot::Int, Datum::Int32(_)) => true,
            (TypeRoot::BigInt, Datum::Int64(_)) => true,
            (TypeRoot::Float, Datum::Float32(_)) => true,
            (TypeRoot::Double, Datum::Float64(_)) => true,
            (TypeRoot::Char { .. }, Datum::String(_)) => true,
            (TypeRoot::String, Datum::String(_)) => true,
            (TypeRoot::Bytes, Datum::Blob(_)) => true,
            (TypeRoot::Date, Datum::Date(_)) => true,
            (TypeRoot::Binary { width }, Datum::Blob(v)) => v@.len() == width,
            _ => false,
        },
    ensures
        item is Scalar,
        array.elements@[k as int] !is Null ==> {
            let answer = array.value_at(k as usize, item.request());
            &&& answer is Ok
            &&& item->kind.convert(answer->Ok_0) == Ok::<Cell, Fault>(
                match array.elements@[k as int] {
                    Datum::Bool(v) => Some(Cell::Bool(v)),
                    Datum::Int8(v) => Some(Cell::Int(v as int)),
                    Datum::Int16(v) => Some(Cell::Int(v as int)),
                    Datum::Int32(v) => Some(Cell::Int(v as int)),
                    Datum::Int64(v) => Some(Cell::Int(v as int)),
                    Datum::Float32(v) => Some(Cell::Float32(v)),
                    Datum::Float64(v) => Some(Cell::Float64(v)),
                    Datum::String(v) => Some(Cell::Str(v@)),
                    Datum::Blob(v) => Some(Cell::Bytes(v@)),
                    Datum::Date(v) => Some(Cell::Int(v.days as int)),
                    _ => None,
                }->0,
            )
        },
{
}

/// Timestamps in microseconds and nanoseconds are those of the milliseconds and of the nanoseconds
/// within the millisecond, together. What is finer than a microsecond is cut off towards zero. They
/// are refused where the milliseconds alone, or the whole, are no `i64`.
pub proof fn law_timestamps_convert(millis: i64, nanos: i32)
    ensures
        ({
            let whole = millis * 1000;
            let sum = whole + if nanos < 0 {
                -((-nanos) / 1000)
            } else {
                nanos as int / 1000
            };
            &&& values::spec_millis_nanos_to_micros(millis, nanos) is Ok <==> i64::MIN <= whole
                <= i64::MAX && i64::MIN <= sum <= i64::MAX
            &&& values::spec_millis_nanos_to_micros(millis, nanos) matches Ok(x) ==> x == sum
            &&& values::spec_millis_nanos_to_micros(millis, nanos) matches Err(fault) ==> fault
                == Fault::RowConvertError(
                "Timestamp "@ + text::number(millis as int)
                    + " ms overflows when converting to microseconds"@,
            )
        }),
        ({
            let whole = millis * 1000000;
            let sum = whole + nanos;
            &&& values::spec_millis_nanos_to_nanos(millis, nanos) is Ok <==> i64::MIN <= whole
                <= i64::MAX && i64::MIN <= sum <= i64::MAX
            &&& values::spec_millis_nanos_to_nanos(millis, nanos) matches Ok(x) ==> x == sum
            &&& values::spec_millis_nanos_to_nanos(millis, nanos) matches Err(fault) ==> fault
                == Fault::RowConvertError(
                "Timestamp "@ + text::number(millis as int)
                    + " ms overflows when converting to nanoseconds"@,
            )
        }),
{
}

/// A column of booleans, numbers, texts, byte strings, dates or times of day in milliseconds or a
/// finer unit keeps values apart: what it stores of two values is the same only where they are.
pub proof fn law_different_values_are_stored_differently(kind: ScalarKind, v: Value, w: Value)
    requires
        match (kind, v, w) {
            (ScalarKind::Bool, Value::Bool(_), Value::Bool(_)) => true,
            (ScalarKind::Int8, Value::Int8(_), Value::Int8(_)) => true,
            (ScalarKind::Int16, Value::Int16(_), Value::Int16(_)) => true,
            (ScalarKind::Int32, Value::Int32(_), Value::Int32(_)) => true,
            (ScalarKind::Int64, Value::Int64(_), Value::Int64(_)) => true,
            (ScalarKind::Float32, Value::Float32(_), Value::Float32(_)) => true,
            (ScalarKind::Float64, Value::Float64(_), Value::Float64(_)) => true,
            (ScalarKind::Char { .. }, Value::Str(_), Value::Str(_)) => true,
            (ScalarKind::String, Value::Str(_), Value::Str(_)) => true,
            (ScalarKind::Bytes, Value::Bytes(_), Value::Bytes(_)) => true,
            (ScalarKind::Binary { .. }, Value::Bytes(_), Value::Bytes(_)) => true,
            (ScalarKind::Date32, Value::Date(_), Value::Date(_)) => true,
            (ScalarKind::Time32Second, Value::Time(_), Value::Time(_)) => true,
            (ScalarKind::Time32Millisecond, Value::Time(_), Value::Time(_)) => true,
            (ScalarKind::Time64Microsecond, Value::Time(_), Value::Time(_)) => true,
            (ScalarKind::Time64Nanosecond, Value::Time(_), Value::Time(_)) => true,
            _ => false,
        },
        kind.convert(v) is Ok,
        kind.convert(v) == kind.convert(w),
    ensures
        v == w,
{
}

/// Why a value of the type of a column is refused.
pub proof fn law_values_that_do_not_convert(kind: ScalarKind, value: Value)
    requires
        match (kind.request(), value) {
            (Request::Boolean, Value::Bool(_)) => true,
            (Request::Byte, Value::Int8(_)) => true,
            (Request::Short, Value::Int16(_)) => true,
            (Request::Int, Value::Int32(_)) => true,
            (Request::Long, Value::Int64(_)) => true,
            (Request::Float, Value::Float32(_)) => true,
            (Request::Double, Value::Float64(_)) => true,
            (Request::Char { .. }, Value::Str(_)) => true,
            (Request::Str, Value::Str(_)) => true,
            (Request::Bytes, Value::Bytes(_)) => true,
            (Request::Binary { .. }, Value::Bytes(_)) => true,
            (Request::Decimal { .. }, Value::Decimal(_)) => true,
            (Request::Date, Value::Date(_)) => true,
            (Request::Time, Value::Time(_)) => true,
            (Request::TimestampNtz { .. }, Value::TimestampNtz(_)) => true,
            (Request::TimestampLtz { .. }, Value::TimestampLtz(_)) => true,
            _ => false,
        },
    ensures
        kind.convert(value) matches Err(fault) ==> match kind {
            ScalarKind::Binary { .. } => fault == Fault::RowConvertError(
                "Failed to append binary value: "@
                    + "Invalid argument error: Byte slice does not have the same length as "@
                    + "FixedSizeBinaryBuilder value lengths"@,
            ),
            ScalarKind::Decimal128 { target_precision, .. } => fault == Fault::RowConvertError(
                "Decimal does not fit precision "@ + text::number(target_precision as int),
            ),
            ScalarKind::Time32Second => fault == Fault::RowConvertError(
                "Time value "@ + text::number(value->Time_0.millis as int)
                    + " ms has sub-second precision but schema expects seconds only"@,
            ),
            ScalarKind::TimestampNtzMicrosecond { .. } => true,
            ScalarKind::TimestampNtzNanosecond { .. } => true,
            ScalarKind::TimestampLtzMicrosecond { .. } => true,
            ScalarKind::TimestampLtzNanosecond { .. } => true,
            _ => false,
        },
{
}

/// Why there is no builder for an Arrow type.
pub proof fn law_builders_that_there_are_not(arrow: ArrowType)
    ensures
        nested::boxed_type(arrow) matches Err(fault) ==> fault == Fault::IllegalArgument(
            match arrow {
                ArrowType::Decimal128(precision, scale) => "Invalid decimal precision "@
                    + text::number(precision as int) + " or scale "@ + text::number(scale as int)
                    + ": "@ + builders::decimal_error(precision, scale),
                ArrowType::List(_) => "Nested List type should use create_list_builder"@,
                ArrowType::Struct(_) => "Nested Struct type should be handled separately"@,
                _ => "Unsupported Arrow type for boxed builder: "@ + arrow.text(),
            },
        ),
        nested::element_field_type(arrow) matches Err(fault) ==> fault == Fault::IllegalArgument(
            "Unsupported Arrow type for struct field: "@ + arrow.text(),
        ),
        arrow !is List && arrow !is Struct && arrow !is Decimal128 ==> (nested::element_shape(
            arrow,
        ) matches Err(fault) ==> fault == Fault::IllegalArgument(
            "Unsupported Arrow type for List element: "@ + arrow.text(),
        )),
        arrow matches ArrowType::List(item) ==> (nested::element_shape(arrow) matches Err(fault)
            ==> nested::element_shape(item.data_type) == Err::<BuilderShape, Fault>(fault)),
{
}

/// Why a field of a struct does not take a value, where its builder is not one that fields of
/// structs are written through.
pub proof fn law_fields_that_are_not_written(column: StructColumn, array: FlussArray, i: usize)
    requires
        !array.null_at(i),
        match column.ty {
            ScalarType::Decimal128 { .. } => column.kind !is Decimal,
            ScalarType::FixedSizeBinary { .. } | ScalarType::Time32Second
            | ScalarType::Time32Millisecond | ScalarType::Time64Microsecond
            | ScalarType::Time64Nanosecond | ScalarType::TimestampSecond
            | ScalarType::TimestampNanosecond => true,
            _ => false,
        },
    ensures
        column.cell(array, i) == Err::<Option<Cell>, Fault>(
            Fault::IllegalArgument(
                if column.ty is Decimal128 {
                    "Expected Decimal type"@
                } else {
                    match column.kind {
                        TypeKind::Array => "Nested arrays in structs not yet fully supported"@,
                        TypeKind::Row => "Nested structs not yet fully supported"@,
                        TypeKind::MapType => "Map type in struct not yet supported"@,
                        _ => "Failed to write field "@ + text::number(i as int) + " with type "@
                            + column.type_text + " - no matching builder found"@,
                    }
                },
            ),
        ),
{
}

/// Finishing hands out all rows that have been written, and leaves a writer without any, for the
/// same type of array.
pub proof fn law_finish_hands_out_all_rows(
    writer: ColumnWriter,
    after: ColumnWriter,
    contents: ArrayContents,
)
    requires
        writer.wf(),
        writer.finishes(after, contents),
    ensures
        contents == writer.shape().array(writer.data()),
        contents.len() == writer.data().len(),
        after.shape().array(after.data()).len() == 0,
        after.shape().array(after.data()).entries().len() == 0,
        after.shape().array(after.data()).array_type() == contents.array_type(),
{
    writer.law_shape_holds_data();
    after.law_shape_holds_data();
    laws::lemma_type_ignores_data(writer.shape(), writer.data(), after.data());
    growth::lemma_empty_holds(writer.shape());
}

/// What the rows of an array are: a null where the cell or the row is one, otherwise the cell, the
/// elements between two offsets, or the cells of the fields.
pub proof fn law_rows_of_arrays(contents: ArrayContents, i: int)
    ensures
        contents.entries().len() == match contents {
            ArrayContents::Scalar { cells, .. } => cells.len(),
            ArrayContents::List { rows, .. } => rows.len(),
            ArrayContents::Struct { rows, .. } => rows.len(),
        },
        0 <= i < contents.entries().len() ==> match (contents, contents.entries()[i]) {
            (ArrayContents::Scalar { cells, .. }, Entry::Null) => cells[i] is None,
            (ArrayContents::Scalar { cells, .. }, Entry::Cell(cell)) => cells[i] == Some(cell),
            (ArrayContents::List { rows, .. }, Entry::Null) => !rows[i],
            (ArrayContents::List { values, offsets, rows, .. }, Entry::List(elements)) => {
                rows[i] && elements == values.entries().subrange(offsets[i], offsets[i + 1])
            },
            (ArrayContents::Struct { rows, .. }, Entry::Null) => !rows[i],
            (ArrayContents::Struct { columns, rows, .. }, Entry::Struct(cells)) => {
                &&& rows[i]
                &&& cells.len() == columns.len()
                &&& forall|f: int|
                    0 <= f < columns.len() ==> (#[trigger] cells[f]) == columns[f][i]
            },
            _ => false,
        },
{
}

/// A null that is appended to a builder is one more entry, and a null: to a scalar builder a null
/// behind what is there, to a struct builder a null in every field and a row that is not valid, to
/// a list builder a list that is not valid and has no elements.
pub proof fn law_nulls_are_appended_to_builders(before: BoxedBuilder, after: BoxedBuilder)
    requires
        nested::null_appended(before, after),
    ensures
        builders::builder_shape(after) == builders::builder_shape(before),
        match builders::builder_shape(before) {
            BuilderShape::Scalar(_) => builders::builder_cells(after) == builders::builder_cells(
                before,
            ).push(None),
            BuilderShape::Struct(_) => {
                let old_state = builders::boxed_struct_state(before);
                let state = builders::boxed_struct_state(after);
                &&& state.fields == old_state.fields
                &&& state.builders == old_state.builders
                &&& state.rows == old_state.rows.push(false)
                &&& state.cells.len() == old_state.cells.len()
                &&& forall|i: int|
                    0 <= i < old_state.cells.len() ==> (#[trigger] state.cells[i])
                        == old_state.cells[i].push(None)
            },
            BuilderShape::List(_) => {
                let old_state = builders::list_state(before);
                let state = builders::list_state(after);
                &&& state.values == old_state.values
                &&& state.rows == old_state.rows.push(false)
                &&& state.offsets == old_state.offsets.push(
                    builders::builder_len(old_state.values) as int,
                )
            },
        },
{
}

/// A row of nulls is a null in every field and a row that is not valid.
pub proof fn law_null_rows_are_null_in_every_field(state: StructState)
    ensures
        ({
            let after = struct_writer::null_row(state);
            &&& after.fields == state.fields
            &&& after.builders == state.builders
            &&& after.rows == state.rows.push(false)
            &&& after.cells.len() == state.cells.len()
            &&& forall|i: int|
                0 <= i < state.cells.len() ==> (#[trigger] after.cells[i]) == state.cells[i].push(
                    None,
                )
        }),
{
}

/// A cell goes to its own field, behind what is there, and changes nothing else.
pub proof fn law_cells_go_to_their_field(state: StructState, i: int, cell: Option<Cell>)
    requires
        0 <= i < state.cells.len(),
    ensures
        ({
            let after = struct_writer::with_cell(state, i, cell);
            &&& after.fields == state.fields
            &&& after.builders == state.builders
            &&& after.rows == state.rows
            &&& after.cells.len() == state.cells.len()
            &&& after.cells[i] == state.cells[i].push(cell)
            &&& forall|j: int|
                0 <= j < state.cells.len() && j != i ==> (#[trigger] after.cells[j])
                    == state.cells[j]
        }),
{
}

/// A builder that has nothing in it has no entries, and neither have the builders under it.
pub proof fn law_new_builders_are_empty(b: BoxedBuilder, shape: BuilderShape)
    requires
        builders::is_empty_builder(b, shape),
    ensures
        builders::builder_shape(b) == shape,
        builders::builder_len(b) == 0,
        match shape {
            BuilderShape::Scalar(_) => builders::builder_cells(b).len() == 0,
            BuilderShape::Struct(types) => {
                let state = builders::boxed_struct_state(b);
                &&& state.builders == types
                &&& state.cells.len() == types.len()
                &&& state.rows.len() == 0
                &&& forall|i: int|
                    0 <= i < types.len() ==> (#[trigger] state.cells[i]).len() == 0
            },
            BuilderShape::List(values) => {
                let state = builders::list_state(b);
                &&& builders::builder_shape(state.values) == *values
                &&& builders::builder_len(state.values) == 0
                &&& state.offsets == seq![0int]
                &&& state.rows.len() == 0
            },
        },
    decreases shape,
{
    if let BuilderShape::List(values) = shape {
        law_new_builders_are_empty(builders::list_state(b).values, *values);
    }
}

/// A struct builder for elements of a list is made for the fields of the Arrow type, in order, each
/// with its name, its nullability and its metadata, and with the type of its builder.
pub proof fn law_element_structs_keep_their_fields(
    b: BoxedBuilder,
    fields: Vec<ArrowField>,
    i: int,
)
    requires
        nested::made_for(b, ArrowType::Struct(fields)),
        0 <= i < builders::boxed_struct_state(b).builders.len(),
    ensures
        ({
            let field = builders::boxed_struct_state(b).fields[i];
            &&& builders::boxed_struct_state(b).fields.len() == builders::boxed_struct_state(
                b,
            ).builders.len()
            &&& field.name == fields@[i].name@
            &&& field.nullable == fields@[i].nullable
            &&& field.metadata == types::metadata_pairs(fields@[i].metadata@)
            &&& field.ty == builders::boxed_struct_state(b).builders[i]
        }),
{
}

} // verus!
