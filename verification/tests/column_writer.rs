//! Columns of every type, written and read back as Arrow arrays.
use arrow::array::{
    make_array, Array, ArrayRef, BinaryArray, BooleanArray, Date32Array, Decimal128Array,
    FixedSizeBinaryArray, Float32Array, Float64Array, Int16Array, Int32Array, Int64Array,
    Int8Array, ListArray, StringArray, Time32MillisecondArray, TimestampMillisecondArray,
};
use arrow_schema::DataType as ArrowDataType;
use bigdecimal::BigDecimal;
use fluss_columns::column_writer::ColumnWriter;
use fluss_columns::row::{Datum, FlussArray, GenericRow};
use fluss_columns::types::{ArrowField, ArrowType, DataType, RowField, TimeUnit, TypeRoot};
use fluss_columns::values::{Date, Decimal, Time, TimestampLtz, TimestampNtz, F32, F64};
use std::str::FromStr;

fn nullable(root: TypeRoot) -> DataType {
    DataType { nullable: true, root }
}

fn array_of(element: DataType) -> DataType {
    nullable(TypeRoot::Array { element: Box::new(element) })
}

fn field(name: &str, data_type: ArrowType) -> ArrowField {
    ArrowField::new(name.to_string(), data_type, true)
}

fn time_unit(precision: u32) -> TimeUnit {
    match precision {
        0 => TimeUnit::Second,
        1..=3 => TimeUnit::Millisecond,
        4..=6 => TimeUnit::Microsecond,
        _ => TimeUnit::Nanosecond,
    }
}

/// The Arrow type that a logical type is usually stored as.
fn to_arrow_type(fluss_type: &DataType) -> ArrowType {
    match &fluss_type.root {
        TypeRoot::Boolean => ArrowType::Boolean,
        TypeRoot::TinyInt => ArrowType::Int8,
        TypeRoot::SmallInt => ArrowType::Int16,
        TypeRoot::Int => ArrowType::Int32,
        TypeRoot::BigInt => ArrowType::Int64,
        TypeRoot::Float => ArrowType::Float32,
        TypeRoot::Double => ArrowType::Float64,
        TypeRoot::Char { .. } | TypeRoot::String => ArrowType::Utf8,
        TypeRoot::Bytes => ArrowType::Binary,
        TypeRoot::Binary { width } => ArrowType::FixedSizeBinary(*width as i32),
        TypeRoot::Decimal { precision, scale } => {
            ArrowType::Decimal128(*precision as u8, *scale as i8)
        }
        TypeRoot::Date => ArrowType::Date32,
        TypeRoot::Time { precision } => match time_unit(*precision) {
            TimeUnit::Second => ArrowType::Time32(TimeUnit::Second),
            TimeUnit::Millisecond => ArrowType::Time32(TimeUnit::Millisecond),
            unit => ArrowType::Time64(unit),
        },
        TypeRoot::Timestamp { precision } => ArrowType::Timestamp(time_unit(*precision), None),
        TypeRoot::TimestampLTz { precision } => ArrowType::Timestamp(time_unit(*precision), None),
        TypeRoot::Array { element } => ArrowType::List(Box::new(ArrowField::new(
            "item".to_string(),
            to_arrow_type(element),
            element.nullable,
        ))),
        TypeRoot::Row { fields } => ArrowType::Struct(
            fields
                .iter()
                .map(|f| {
                    ArrowField::new(
                        f.name.clone(),
                        to_arrow_type(&f.data_type),
                        f.data_type.nullable,
                    )
                })
                .collect(),
        ),
        TypeRoot::MapType { .. } => ArrowType::Other("Null".to_string()),
    }
}

fn writer_for(fluss_type: &DataType, capacity: usize) -> ColumnWriter {
    ColumnWriter::create(fluss_type, &to_arrow_type(fluss_type), 0, capacity).unwrap()
}

fn write_one(fluss_type: &DataType, datum: Datum) -> ArrayRef {
    let mut w = writer_for(fluss_type, 4);
    w.write_field(&GenericRow::from_data(vec![datum])).unwrap();
    make_array(w.finish())
}

fn decimal(text: &str) -> Decimal {
    let (unscaled, scale) = BigDecimal::from_str(text).unwrap().as_bigint_and_exponent();
    Decimal { unscaled: i128::from_str(&unscaled.to_string()).unwrap(), scale: scale as u32 }
}

#[test]
fn write_all_scalar_types() {
    // Boolean
    let arr = write_one(&nullable(TypeRoot::Boolean), Datum::Bool(true));
    assert!(arr.as_any().downcast_ref::<BooleanArray>().unwrap().value(0));

    // Integer types
    let arr = write_one(&nullable(TypeRoot::TinyInt), Datum::Int8(42));
    assert_eq!(arr.as_any().downcast_ref::<Int8Array>().unwrap().value(0), 42);

    let arr = write_one(&nullable(TypeRoot::SmallInt), Datum::Int16(1000));
    assert_eq!(arr.as_any().downcast_ref::<Int16Array>().unwrap().value(0), 1000);

    let arr = write_one(&nullable(TypeRoot::Int), Datum::Int32(100_000));
    assert_eq!(arr.as_any().downcast_ref::<Int32Array>().unwrap().value(0), 100_000);

    let arr = write_one(&nullable(TypeRoot::BigInt), Datum::Int64(9_000_000_000));
    assert_eq!(arr.as_any().downcast_ref::<Int64Array>().unwrap().value(0), 9_000_000_000);

    // Float types
    let arr = write_one(
        &nullable(TypeRoot::Float),
        Datum::Float32(F32 { bits: 1.5f32.to_bits() }),
    );
    assert!((arr.as_any().downcast_ref::<Float32Array>().unwrap().value(0) - 1.5).abs() < 0.001);

    let arr = write_one(
        &nullable(TypeRoot::Double),
        Datum::Float64(F64 { bits: 1.125f64.to_bits() }),
    );
    assert!((arr.as_any().downcast_ref::<Float64Array>().unwrap().value(0) - 1.125).abs() < 0.001);

    // String / Char
    let arr = write_one(&nullable(TypeRoot::String), Datum::String("hello".into()));
    assert_eq!(arr.as_any().downcast_ref::<StringArray>().unwrap().value(0), "hello");

    let arr = write_one(
        &nullable(TypeRoot::Char { length: 10 }),
        Datum::String("world".into()),
    );
    assert_eq!(arr.as_any().downcast_ref::<StringArray>().unwrap().value(0), "world");

    // Bytes / Binary
    let arr = write_one(&nullable(TypeRoot::Bytes), Datum::Blob(vec![1, 2, 3]));
    assert_eq!(arr.as_any().downcast_ref::<BinaryArray>().unwrap().value(0), &[1, 2, 3]);

    let arr = write_one(
        &nullable(TypeRoot::Binary { width: 4 }),
        Datum::Blob(vec![10, 20, 30, 40]),
    );
    assert_eq!(
        arr.as_any().downcast_ref::<FixedSizeBinaryArray>().unwrap().value(0),
        &[10, 20, 30, 40]
    );

    // Date
    let arr = write_one(&nullable(TypeRoot::Date), Datum::Date(Date { days: 19000 }));
    assert_eq!(arr.as_any().downcast_ref::<Date32Array>().unwrap().value(0), 19000);

    // Time (precision 3: milliseconds)
    let arr = write_one(
        &nullable(TypeRoot::Time { precision: 3 }),
        Datum::Time(Time { millis: 45_000 }),
    );
    assert_eq!(arr.as_any().downcast_ref::<Time32MillisecondArray>().unwrap().value(0), 45_000);

    // Decimal
    let arr = write_one(
        &nullable(TypeRoot::Decimal { precision: 10, scale: 2 }),
        Datum::Decimal(decimal("123.45")),
    );
    assert_eq!(arr.as_any().downcast_ref::<Decimal128Array>().unwrap().value(0), 12345);

    // Timestamp without time zone (precision 3: milliseconds)
    let arr = write_one(
        &nullable(TypeRoot::Timestamp { precision: 3 }),
        Datum::TimestampNtz(TimestampNtz {
            millisecond: 1_700_000_000_000,
            nano_of_millisecond: 0,
        }),
    );
    assert_eq!(
        arr.as_any().downcast_ref::<TimestampMillisecondArray>().unwrap().value(0),
        1_700_000_000_000
    );

    // Timestamp with local time zone (precision 3: milliseconds)
    let arr = write_one(
        &nullable(TypeRoot::TimestampLTz { precision: 3 }),
        Datum::TimestampLtz(TimestampLtz {
            epoch_millisecond: 1_700_000_000_000,
            nano_of_millisecond: 0,
        }),
    );
    assert_eq!(
        arr.as_any().downcast_ref::<TimestampMillisecondArray>().unwrap().value(0),
        1_700_000_000_000
    );
}

#[test]
fn write_null_and_multiple_rows() {
    // Null
    let arr = write_one(&nullable(TypeRoot::Int), Datum::Null);
    assert!(arr.is_null(0));

    // Multiple rows
    let mut w = writer_for(&nullable(TypeRoot::Int), 8);
    for val in [10, 20, 30] {
        w.write_field(&GenericRow::from_data(vec![Datum::Int32(val)])).unwrap();
    }
    let arr = make_array(w.finish());
    let int_arr = arr.as_any().downcast_ref::<Int32Array>().unwrap();
    assert_eq!(int_arr.len(), 3);
    assert_eq!(int_arr.value(0), 10);
    assert_eq!(int_arr.value(1), 20);
    assert_eq!(int_arr.value(2), 30);

    // buffer_size grows with appended data and does not reset the builder
    let mut w = writer_for(&nullable(TypeRoot::Int), 4);
    w.write_field(&GenericRow::from_data(vec![Datum::Int32(42)])).unwrap();
    assert!(w.buffer_size() > 0);
    w.write_field(&GenericRow::from_data(vec![Datum::Int32(99)])).unwrap();
    let int_arr = make_array(w.finish())
        .as_any()
        .downcast_ref::<Int32Array>()
        .unwrap()
        .clone();
    assert_eq!((int_arr.value(0), int_arr.value(1)), (42, 99));
}

#[test]
fn write_array_type() {
    let fluss_array = FlussArray {
        elements: vec![Datum::Int32(10), Datum::Null, Datum::Int32(30)],
    };
    let fluss_type = array_of(nullable(TypeRoot::Int));

    let arr = write_one(&fluss_type, Datum::Array(fluss_array));
    let list_arr = arr.as_any().downcast_ref::<ListArray>().unwrap();
    assert_eq!(list_arr.len(), 1);
    let values = list_arr.value(0);
    let int_values = values.as_any().downcast_ref::<Int32Array>().unwrap();
    assert_eq!(int_values.len(), 3);
    assert_eq!(int_values.value(0), 10);
    assert!(int_values.is_null(1));
    assert_eq!(int_values.value(2), 30);
}

#[test]
fn array_type_supported() {
    let fluss_type = array_of(nullable(TypeRoot::Int));
    let arrow_type = ArrowType::List(Box::new(field("item", ArrowType::Int32)));
    assert!(
        ColumnWriter::create(&fluss_type, &arrow_type, 0, 4).is_ok(),
        "Array type should be supported now"
    );
}

#[test]
fn nested_array_type_supported() {
    // ARRAY<ARRAY<INT>>
    let fluss_type = array_of(array_of(nullable(TypeRoot::Int)));
    let arrow_type = ArrowType::List(Box::new(field(
        "item",
        ArrowType::List(Box::new(field("inner", ArrowType::Int32))),
    )));
    assert!(
        ColumnWriter::create(&fluss_type, &arrow_type, 0, 4).is_ok(),
        "Nested array type should be supported"
    );
}

#[test]
fn row_type_supported() {
    let row_type = nullable(TypeRoot::Row {
        fields: vec![
            RowField { name: "id".to_string(), data_type: nullable(TypeRoot::Int) },
            RowField { name: "name".to_string(), data_type: nullable(TypeRoot::String) },
        ],
    });
    let row_arrow =
        ArrowType::Struct(vec![field("id", ArrowType::Int32), field("name", ArrowType::Utf8)]);
    assert!(
        ColumnWriter::create(&row_type, &row_arrow, 0, 4).is_ok(),
        "Row type should now be supported"
    );
}

#[test]
fn map_type_not_yet_supported() {
    let map_type = nullable(TypeRoot::MapType {
        key: Box::new(nullable(TypeRoot::String)),
        value: Box::new(nullable(TypeRoot::Int)),
    });
    let map_arrow = ArrowType::MapType(
        Box::new(field(
            "entries",
            ArrowType::Struct(vec![
                field("key", ArrowType::Utf8),
                field("value", ArrowType::Int32),
            ]),
        )),
        false,
    );
    assert!(
        ColumnWriter::create(&map_type, &map_arrow, 0, 4).is_err(),
        "Map type should not yet be supported"
    );
}

#[test]
fn write_non_nullable_array_type() {
    // 1. Define an array of non-nullable integers
    let array_type = array_of(DataType { nullable: false, root: TypeRoot::Int });

    // 2. Create the writer
    let mut writer = writer_for(&array_type, 4);

    // Write a row with an empty array
    let fluss_array = FlussArray { elements: vec![] };
    writer
        .write_field(&GenericRow::from_data(vec![Datum::Array(fluss_array)]))
        .unwrap();

    // 3. Finish the array to get the actual Arrow output
    let arrow_array = make_array(writer.finish());

    // 4. Assert against the actual Arrow schema
    let list_array = arrow_array.as_any().downcast_ref::<ListArray>().expect("Expected ListArray");
    let list_field = match list_array.data_type() {
        ArrowDataType::List(field) => field,
        _ => panic!("Expected List type"),
    };
    assert!(
        !list_field.is_nullable(),
        "Arrow field inside the list should be non-nullable"
    );
}
