//! Every scalar column: a value, a null, the size of the buffers, and the conversions.
use arrow::array::{
    make_array, Array, ArrayRef, BinaryArray, BooleanArray, Date32Array, Decimal128Array,
    FixedSizeBinaryArray, Float32Array, Float64Array, Int16Array, Int32Array, Int64Array,
    Int8Array, StringArray, Time32MillisecondArray, Time32SecondArray, Time64MicrosecondArray,
    Time64NanosecondArray, TimestampMicrosecondArray, TimestampMillisecondArray,
    TimestampNanosecondArray, TimestampSecondArray,
};
use arrow_schema::DataType as ArrowDataType;
use fluss_columns::column_writer::ColumnWriter;
use fluss_columns::error::Error;
use fluss_columns::row::{Datum, GenericRow};
use fluss_columns::scalar::round_up_to_8;
use fluss_columns::types::{ArrowType, DataType, TimeUnit, TypeRoot};
use fluss_columns::values::{
    decimal_to_unscaled, millis_nanos_to_micros, millis_nanos_to_nanos, Date, Decimal, Time,
    TimestampLtz, TimestampNtz, F32, F64,
};

fn illegal(message: &str) -> Error {
    Error::IllegalArgument { message: message.to_string() }
}

fn unconverted(message: &str) -> Error {
    Error::RowConvertError { message: message.to_string() }
}

fn nullable(root: TypeRoot) -> DataType {
    DataType { nullable: true, root }
}

fn writer(root: TypeRoot, arrow: ArrowType) -> ColumnWriter {
    ColumnWriter::create(&nullable(root), &arrow, 0, 4).unwrap()
}

fn row(datum: Datum) -> GenericRow {
    GenericRow::from_data(vec![datum])
}

/// Writes the value, then a null, and checks the sizes of the buffers on the way.
fn value_and_null(
    root: TypeRoot,
    arrow: ArrowType,
    datum: Datum,
    size_with_value: usize,
    size_with_null: usize,
) -> ArrayRef {
    let mut w = writer(root, arrow);
    w.write_field(&row(datum)).unwrap();
    assert_eq!(w.buffer_size(), size_with_value);
    w.write_field(&row(Datum::Null)).unwrap();
    assert_eq!(w.buffer_size(), size_with_null);
    let array = make_array(w.finish());
    assert_eq!(array.len(), 2);
    assert!(array.is_valid(0));
    assert!(array.is_null(1));
    array
}

fn ntz(millisecond: i64, nano_of_millisecond: i32) -> Datum {
    Datum::TimestampNtz(TimestampNtz { millisecond, nano_of_millisecond })
}

fn ltz(epoch_millisecond: i64, nano_of_millisecond: i32) -> Datum {
    Datum::TimestampLtz(TimestampLtz { epoch_millisecond, nano_of_millisecond })
}

fn time(millis: i32) -> Datum {
    Datum::Time(Time { millis })
}

#[test]
fn rounding_up_to_eight() {
    assert_eq!(round_up_to_8(0), 0);
    assert_eq!(round_up_to_8(1), 8);
    assert_eq!(round_up_to_8(7), 8);
    assert_eq!(round_up_to_8(8), 8);
    assert_eq!(round_up_to_8(9), 16);
    assert_eq!(round_up_to_8(usize::MAX - 7), usize::MAX - 7);
}

#[test]
fn booleans() {
    let a = value_and_null(TypeRoot::Boolean, ArrowType::Boolean, Datum::Bool(true), 8, 16);
    assert!(a.as_any().downcast_ref::<BooleanArray>().unwrap().value(0));
}

#[test]
fn integers() {
    let a = value_and_null(TypeRoot::TinyInt, ArrowType::Int8, Datum::Int8(-7), 8, 16);
    assert_eq!(a.as_any().downcast_ref::<Int8Array>().unwrap().value(0), -7);
    let a = value_and_null(TypeRoot::SmallInt, ArrowType::Int16, Datum::Int16(-300), 8, 16);
    assert_eq!(a.as_any().downcast_ref::<Int16Array>().unwrap().value(0), -300);
    let a = value_and_null(TypeRoot::Int, ArrowType::Int32, Datum::Int32(i32::MIN), 8, 16);
    assert_eq!(a.as_any().downcast_ref::<Int32Array>().unwrap().value(0), i32::MIN);
    let a = value_and_null(TypeRoot::BigInt, ArrowType::Int64, Datum::Int64(i64::MAX), 8, 24);
    assert_eq!(a.as_any().downcast_ref::<Int64Array>().unwrap().value(0), i64::MAX);
}

#[test]
fn floating_point_numbers() {
    let bits = (-0.25f32).to_bits();
    let a = value_and_null(
        TypeRoot::Float,
        ArrowType::Float32,
        Datum::Float32(F32 { bits }),
        8,
        16,
    );
    assert_eq!(a.as_any().downcast_ref::<Float32Array>().unwrap().value(0), -0.25);
    let bits = 1e300f64.to_bits();
    let a = value_and_null(
        TypeRoot::Double,
        ArrowType::Float64,
        Datum::Float64(F64 { bits }),
        8,
        24,
    );
    assert_eq!(a.as_any().downcast_ref::<Float64Array>().unwrap().value(0), 1e300);
}

#[test]
fn texts() {
    // One value: 2 offsets of 4 bytes and 7 bytes of text. With a null: 3 offsets and a bitmap.
    let text = "h\u{e9}llo!";
    assert_eq!(text.len(), 7);
    let a = value_and_null(
        TypeRoot::String,
        ArrowType::Utf8,
        Datum::String(text.to_string()),
        8 + 8,
        8 + 16 + 8,
    );
    assert_eq!(a.as_any().downcast_ref::<StringArray>().unwrap().value(0), text);
    let a = value_and_null(
        TypeRoot::Char { length: 9 },
        ArrowType::Utf8,
        Datum::String("ninechars".to_string()),
        8 + 16,
        8 + 16 + 16,
    );
    assert_eq!(a.as_any().downcast_ref::<StringArray>().unwrap().value(0), "ninechars");
}

#[test]
fn byte_strings() {
    let a = value_and_null(
        TypeRoot::Bytes,
        ArrowType::Binary,
        Datum::Blob(vec![1, 2, 3]),
        8 + 8,
        8 + 16 + 8,
    );
    assert_eq!(a.as_any().downcast_ref::<BinaryArray>().unwrap().value(0), &[1, 2, 3]);
    let a = value_and_null(
        TypeRoot::Binary { width: 5 },
        ArrowType::FixedSizeBinary(5),
        Datum::Blob(vec![1, 2, 3, 4, 5]),
        8,
        8 + 16,
    );
    let a = a.as_any().downcast_ref::<FixedSizeBinaryArray>().unwrap();
    assert_eq!(a.value(0), &[1, 2, 3, 4, 5]);
    assert_eq!(a.value_length(), 5);
}

#[test]
fn an_empty_text_column_has_its_first_offset() {
    let w = writer(TypeRoot::String, ArrowType::Utf8);
    assert_eq!(w.buffer_size(), 8);
    let w = writer(TypeRoot::Int, ArrowType::Int32);
    assert_eq!(w.buffer_size(), 0);
}

#[test]
fn decimals() {
    let a = value_and_null(
        TypeRoot::Decimal { precision: 10, scale: 3 },
        ArrowType::Decimal128(10, 2),
        Datum::Decimal(Decimal { unscaled: -1005, scale: 3 }),
        16,
        8 + 32,
    );
    // -1.005 at scale 2 is rounded away from zero.
    assert_eq!(a.as_any().downcast_ref::<Decimal128Array>().unwrap().value(0), -101);
    assert_eq!(a.data_type(), &ArrowDataType::Decimal128(10, 2));
}

#[test]
fn decimal_conversion() {
    let d = |unscaled: i128, scale: u32| Decimal { unscaled, scale };
    assert_eq!(decimal_to_unscaled(&d(12345, 2), 10, 2), Ok(12345));
    assert_eq!(decimal_to_unscaled(&d(12345, 2), 10, 4), Ok(1234500));
    assert_eq!(decimal_to_unscaled(&d(12344, 2), 10, 1), Ok(1234));
    assert_eq!(decimal_to_unscaled(&d(12345, 2), 10, 1), Ok(1235));
    assert_eq!(decimal_to_unscaled(&d(-12345, 2), 10, 1), Ok(-1235));
    assert_eq!(decimal_to_unscaled(&d(1, 50), 10, 1), Ok(0));
    assert_eq!(decimal_to_unscaled(&d(0, 0), 1, 60), Ok(0));
    assert_eq!(decimal_to_unscaled(&d(999, 0), 3, 0), Ok(999));
    let overflow =
        |precision: u32| Err(unconverted(&format!("Decimal does not fit precision {precision}")));
    assert_eq!(decimal_to_unscaled(&d(1000, 0), 3, 0), overflow(3));
    assert_eq!(decimal_to_unscaled(&d(-1000, 0), 3, 0), overflow(3));
    assert_eq!(decimal_to_unscaled(&d(9995, 1), 3, 0), overflow(3));
    assert_eq!(decimal_to_unscaled(&d(1, 0), 38, 60), overflow(38));
    assert_eq!(decimal_to_unscaled(&d(i128::MAX, 0), 60, 0), Ok(i128::MAX));
    assert_eq!(decimal_to_unscaled(&d(i128::MIN, 0), 60, 0), Ok(i128::MIN));
    assert_eq!(decimal_to_unscaled(&d(i128::MIN, 1), 60, 0), Ok(i128::MIN / 10 - 1));
}

#[test]
fn dates() {
    let a = value_and_null(
        TypeRoot::Date,
        ArrowType::Date32,
        Datum::Date(Date { days: -1 }),
        8,
        16,
    );
    assert_eq!(a.as_any().downcast_ref::<Date32Array>().unwrap().value(0), -1);
}

#[test]
fn times() {
    let root = || TypeRoot::Time { precision: 9 };
    let second = ArrowType::Time32(TimeUnit::Second);
    let a = value_and_null(root(), second, time(45_000), 8, 16);
    assert_eq!(a.as_any().downcast_ref::<Time32SecondArray>().unwrap().value(0), 45);
    let milli = ArrowType::Time32(TimeUnit::Millisecond);
    let a = value_and_null(root(), milli, time(45_001), 8, 16);
    assert_eq!(a.as_any().downcast_ref::<Time32MillisecondArray>().unwrap().value(0), 45_001);
    let micro = ArrowType::Time64(TimeUnit::Microsecond);
    let a = value_and_null(root(), micro, time(45_001), 8, 24);
    assert_eq!(a.as_any().downcast_ref::<Time64MicrosecondArray>().unwrap().value(0), 45_001_000);
    let nano = ArrowType::Time64(TimeUnit::Nanosecond);
    let a = value_and_null(root(), nano, time(i32::MAX), 8, 24);
    assert_eq!(
        a.as_any().downcast_ref::<Time64NanosecondArray>().unwrap().value(0),
        i32::MAX as i64 * 1_000_000
    );
}

#[test]
fn timestamps_without_time_zone() {
    let root = || TypeRoot::Timestamp { precision: 9 };
    let arrow = |unit: TimeUnit| ArrowType::Timestamp(unit, None);
    let a = value_and_null(root(), arrow(TimeUnit::Second), ntz(1_999, 5), 8, 24);
    assert_eq!(a.as_any().downcast_ref::<TimestampSecondArray>().unwrap().value(0), 1);
    let a = value_and_null(root(), arrow(TimeUnit::Second), ntz(-1_999, 5), 8, 24);
    assert_eq!(a.as_any().downcast_ref::<TimestampSecondArray>().unwrap().value(0), -1);
    let a = value_and_null(root(), arrow(TimeUnit::Millisecond), ntz(1_999, 5), 8, 24);
    assert_eq!(a.as_any().downcast_ref::<TimestampMillisecondArray>().unwrap().value(0), 1_999);
    let a = value_and_null(root(), arrow(TimeUnit::Microsecond), ntz(7, 123_456), 8, 24);
    assert_eq!(a.as_any().downcast_ref::<TimestampMicrosecondArray>().unwrap().value(0), 7_123);
    let a = value_and_null(root(), arrow(TimeUnit::Nanosecond), ntz(7, 123_456), 8, 24);
    assert_eq!(a.as_any().downcast_ref::<TimestampNanosecondArray>().unwrap().value(0), 7_123_456);
}

#[test]
fn timestamps_with_local_time_zone() {
    let root = || TypeRoot::TimestampLTz { precision: 9 };
    let arrow = |unit: TimeUnit| ArrowType::Timestamp(unit, Some("UTC".to_string()));
    let a = value_and_null(root(), arrow(TimeUnit::Second), ltz(2_000, 5), 8, 24);
    assert_eq!(a.as_any().downcast_ref::<TimestampSecondArray>().unwrap().value(0), 2);
    let a = value_and_null(root(), arrow(TimeUnit::Millisecond), ltz(-3, 5), 8, 24);
    assert_eq!(a.as_any().downcast_ref::<TimestampMillisecondArray>().unwrap().value(0), -3);
    let a = value_and_null(root(), arrow(TimeUnit::Microsecond), ltz(-1, 999_999), 8, 24);
    assert_eq!(a.as_any().downcast_ref::<TimestampMicrosecondArray>().unwrap().value(0), -1);
    let a = value_and_null(root(), arrow(TimeUnit::Nanosecond), ltz(-1, 999_999), 8, 24);
    assert_eq!(a.as_any().downcast_ref::<TimestampNanosecondArray>().unwrap().value(0), -1);
}

#[test]
fn timestamp_conversion() {
    assert_eq!(millis_nanos_to_micros(5, 1_999), Ok(5_001));
    assert_eq!(millis_nanos_to_nanos(5, 1_999), Ok(5_001_999));
    assert_eq!(
        millis_nanos_to_micros(i64::MAX, 0),
        Err(unconverted(
            "Timestamp 9223372036854775807 ms overflows when converting to microseconds"
        ))
    );
    assert_eq!(
        millis_nanos_to_nanos(i64::MIN, 0),
        Err(unconverted(
            "Timestamp -9223372036854775808 ms overflows when converting to nanoseconds"
        ))
    );
    let last = i64::MAX / 1000;
    assert_eq!(millis_nanos_to_micros(last, 807_000), Ok(i64::MAX));
    assert_eq!(
        millis_nanos_to_micros(last, 808_000),
        Err(unconverted(&format!("Timestamp {last} ms overflows when converting to microseconds")))
    );
}

#[test]
fn values_that_do_not_convert() {
    let refused = |mut w: ColumnWriter, datum: Datum| {
        let size = w.buffer_size();
        let error = w.write_field(&row(datum)).unwrap_err();
        assert_eq!(w.buffer_size(), size);
        assert_eq!(make_array(w.finish()).len(), 0);
        error
    };
    assert_eq!(
        refused(
            writer(TypeRoot::Time { precision: 0 }, ArrowType::Time32(TimeUnit::Second)),
            time(45_001)
        ),
        unconverted("Time value 45001 ms has sub-second precision but schema expects seconds only")
    );
    assert_eq!(
        refused(
            writer(TypeRoot::Binary { width: 4 }, ArrowType::FixedSizeBinary(4)),
            Datum::Blob(vec![1, 2, 3])
        ),
        unconverted(
            "Failed to append binary value: Invalid argument error: Byte slice does not have the \
             same length as FixedSizeBinaryBuilder value lengths"
        )
    );
    assert_eq!(
        refused(
            writer(TypeRoot::Decimal { precision: 5, scale: 2 }, ArrowType::Decimal128(5, 2)),
            Datum::Decimal(Decimal { unscaled: 100_000, scale: 2 })
        ),
        unconverted("Decimal does not fit precision 5")
    );
    assert_eq!(
        refused(
            writer(
                TypeRoot::Timestamp { precision: 6 },
                ArrowType::Timestamp(TimeUnit::Microsecond, None)
            ),
            ntz(i64::MAX, 0)
        ),
        unconverted("Timestamp 9223372036854775807 ms overflows when converting to microseconds")
    );
    assert_eq!(
        refused(
            writer(
                TypeRoot::TimestampLTz { precision: 9 },
                ArrowType::Timestamp(TimeUnit::Nanosecond, None)
            ),
            ltz(i64::MAX, 0)
        ),
        unconverted("Timestamp 9223372036854775807 ms overflows when converting to nanoseconds")
    );
    assert_eq!(
        refused(writer(TypeRoot::Int, ArrowType::Int32), Datum::Int64(1)),
        illegal("The value at position 0 has another type")
    );
}

#[test]
fn a_column_that_admits_no_nulls_reads_on() {
    let ty = DataType { nullable: false, root: TypeRoot::Int };
    let mut w = ColumnWriter::create(&ty, &ArrowType::Int32, 0, 4).unwrap();
    assert_eq!(
        w.write_field(&row(Datum::Null)),
        Err(illegal("The value at position 0 has another type"))
    );
}

#[test]
fn positions() {
    let ty = nullable(TypeRoot::Int);
    let mut w = ColumnWriter::create(&ty, &ArrowType::Int32, 1, 4).unwrap();
    let row = GenericRow::from_data(vec![Datum::Int32(5), Datum::Int32(6)]);
    w.write_field(&row).unwrap();
    w.write_field_at(&row, 0).unwrap();
    assert_eq!(
        w.write_field_at(&row, 2),
        Err(illegal("Position 2 is out of range"))
    );
    let array = make_array(w.finish());
    let ints = array.as_any().downcast_ref::<Int32Array>().unwrap();
    assert_eq!((ints.len(), ints.value(0), ints.value(1)), (2, 6, 5));
}

#[test]
fn the_arrow_type_of_most_columns_plays_no_part() {
    let mut w = writer(TypeRoot::Int, ArrowType::Other("Null".to_string()));
    w.write_field(&row(Datum::Int32(3))).unwrap();
    assert_eq!(make_array(w.finish()).data_type(), &ArrowDataType::Int32);
}
