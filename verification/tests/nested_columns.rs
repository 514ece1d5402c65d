//! Columns of lists and of structs.
use arrow::array::{
    make_array, Array, BinaryArray, BooleanArray, Date32Array, Decimal128Array, Float32Array,
    Float64Array, Int16Array, Int32Array, Int64Array, Int8Array, ListArray, StringArray,
    StructArray, TimestampMicrosecondArray, TimestampMillisecondArray,
};
use fluss_columns::column_writer::ColumnWriter;
use fluss_columns::error::Error;
use fluss_columns::row::{Datum, FlussArray, GenericRow};
use fluss_columns::types::{ArrowField, ArrowType, DataType, RowField, TimeUnit, TypeRoot};
use fluss_columns::values::{Date, Decimal, Time, TimestampLtz, TimestampNtz, F32, F64};

fn illegal(message: &str) -> Error {
    Error::IllegalArgument { message: message.to_string() }
}

fn nullable(root: TypeRoot) -> DataType {
    DataType { nullable: true, root }
}

fn field(name: &str, data_type: ArrowType) -> ArrowField {
    ArrowField::new(name.to_string(), data_type, true)
}

fn list(data_type: ArrowType) -> ArrowType {
    ArrowType::List(Box::new(field("item", data_type)))
}

fn array_of(root: TypeRoot) -> TypeRoot {
    TypeRoot::Array { element: Box::new(nullable(root)) }
}

fn struct_writer(columns: Vec<(TypeRoot, ArrowType)>) -> ColumnWriter {
    let mut fields = vec![];
    let mut arrow_fields = vec![];
    for (i, (root, arrow)) in columns.into_iter().enumerate() {
        let name = format!("f{i}");
        arrow_fields.push(field(&name, arrow));
        fields.push(RowField { name, data_type: nullable(root) });
    }
    let ty = nullable(TypeRoot::Row { fields });
    ColumnWriter::create(&ty, &ArrowType::Struct(arrow_fields), 0, 4).unwrap()
}

fn array(elements: Vec<Datum>) -> GenericRow {
    GenericRow::from_data(vec![Datum::Array(FlussArray { elements })])
}

fn ints(values: &[i32]) -> Vec<Datum> {
    values.iter().map(|v| Datum::Int32(*v)).collect()
}

#[test]
fn lists_of_integers() {
    let ty = nullable(array_of(TypeRoot::Int));
    let mut w = ColumnWriter::create(&ty, &list(ArrowType::Int32), 0, 4).unwrap();
    // A first offset, padded.
    assert_eq!(w.buffer_size(), 8);
    w.write_field(&array(ints(&[1, 2]))).unwrap();
    // A bitmap, two offsets and two integers.
    assert_eq!(w.buffer_size(), 8 + 8 + 8);
    w.write_field(&GenericRow::from_data(vec![Datum::Null])).unwrap();
    w.write_field(&array(vec![])).unwrap();
    w.write_field(&array(ints(&[3]))).unwrap();
    // A bitmap, five offsets and three integers.
    assert_eq!(w.buffer_size(), 8 + 24 + 16);
    let a = make_array(w.finish());
    let lists = a.as_any().downcast_ref::<ListArray>().unwrap();
    assert_eq!(lists.value_offsets(), &[0, 2, 2, 2, 3]);
    assert!(lists.is_valid(0) && lists.is_null(1) && lists.is_valid(2) && lists.is_valid(3));
    let values = lists.values().as_any().downcast_ref::<Int32Array>().unwrap().clone();
    assert_eq!(values.values(), &[1, 2, 3]);
    // The writer is as new.
    assert_eq!(w.buffer_size(), 8);
    w.write_field(&array(ints(&[9]))).unwrap();
    let a = make_array(w.finish());
    let lists = a.as_any().downcast_ref::<ListArray>().unwrap();
    assert_eq!(lists.value_offsets(), &[0, 1]);
}

#[test]
fn lists_of_lists() {
    let ty = nullable(array_of(array_of(TypeRoot::String)));
    let mut w = ColumnWriter::create(&ty, &list(list(ArrowType::Utf8)), 0, 4).unwrap();
    let texts = |t: &[&str]| {
        Datum::Array(FlussArray {
            elements: t.iter().map(|t| Datum::String(t.to_string())).collect(),
        })
    };
    w.write_field(&array(vec![texts(&["a", "bc"]), Datum::Null, texts(&[])])).unwrap();
    w.write_field(&array(vec![texts(&["d"])])).unwrap();
    let a = make_array(w.finish());
    let outer = a.as_any().downcast_ref::<ListArray>().unwrap();
    assert_eq!(outer.value_offsets(), &[0, 3, 4]);
    let inner = outer.values().as_any().downcast_ref::<ListArray>().unwrap();
    assert_eq!(inner.value_offsets(), &[0, 2, 2, 2, 3]);
    assert!(inner.is_null(1));
    let texts = inner.values().as_any().downcast_ref::<StringArray>().unwrap();
    assert_eq!((texts.value(0), texts.value(1), texts.value(2)), ("a", "bc", "d"));
}

#[test]
fn a_list_that_fails_adds_no_row() {
    let ty = nullable(array_of(TypeRoot::Int));
    let mut w = ColumnWriter::create(&ty, &list(ArrowType::Int32), 0, 4).unwrap();
    w.write_field(&array(ints(&[1]))).unwrap();
    let size = w.buffer_size();
    assert_eq!(
        w.write_field(&array(vec![Datum::Int32(2), Datum::Bool(true), Datum::Int32(3)])),
        Err(illegal("The value at position 1 has another type"))
    );
    assert_eq!(w.buffer_size(), size);
    w.write_field(&array(ints(&[7, 8]))).unwrap();
    let a = make_array(w.finish());
    let lists = a.as_any().downcast_ref::<ListArray>().unwrap();
    assert_eq!(lists.value_offsets(), &[0, 1, 3]);
    let values = lists.values().as_any().downcast_ref::<Int32Array>().unwrap();
    assert_eq!(values.values(), &[1, 7, 8]);
}

#[test]
fn a_nested_list_that_fails_adds_nothing() {
    let ty = nullable(array_of(array_of(TypeRoot::Int)));
    let mut w = ColumnWriter::create(&ty, &list(list(ArrowType::Int32)), 0, 4).unwrap();
    let inner = |elements: Vec<Datum>| Datum::Array(FlussArray { elements });
    let bad = array(vec![inner(ints(&[1, 2])), inner(vec![Datum::Int32(3), Datum::Bool(true)])]);
    assert_eq!(w.write_field(&bad), Err(illegal("The value at position 1 has another type")));
    w.write_field(&array(vec![inner(ints(&[4])), inner(vec![]), inner(ints(&[5, 6]))])).unwrap();
    let a = make_array(w.finish());
    let outer = a.as_any().downcast_ref::<ListArray>().unwrap();
    assert_eq!(outer.value_offsets(), &[0, 3]);
    let inner = outer.values().as_any().downcast_ref::<ListArray>().unwrap();
    assert_eq!(inner.value_offsets(), &[0, 1, 1, 3]);
    let values = inner.values().as_any().downcast_ref::<Int32Array>().unwrap();
    assert_eq!(values.values(), &[4, 5, 6]);
}

#[test]
fn a_struct_that_fails_adds_nothing() {
    let mut w = struct_writer(vec![
        (TypeRoot::Int, ArrowType::Int32),
        (TypeRoot::String, ArrowType::Utf8),
    ]);
    let size = w.buffer_size();
    assert_eq!(
        w.write_field(&array(vec![Datum::Int32(1), Datum::Int32(2)])),
        Err(illegal("The value at position 1 has another type"))
    );
    assert_eq!(w.buffer_size(), size);
    w.write_field(&array(vec![Datum::Int32(3), Datum::String("c".to_string())])).unwrap();
    let a = make_array(w.finish());
    let s = a.as_any().downcast_ref::<StructArray>().unwrap();
    assert_eq!(s.len(), 1);
    assert_eq!(s.column(0).as_any().downcast_ref::<Int32Array>().unwrap().values(), &[3]);
}

#[test]
fn structs_of_every_field_type() {
    let mut w = struct_writer(vec![
        (TypeRoot::Boolean, ArrowType::Boolean),
        (TypeRoot::TinyInt, ArrowType::Int8),
        (TypeRoot::SmallInt, ArrowType::Int16),
        (TypeRoot::Int, ArrowType::Int32),
        (TypeRoot::BigInt, ArrowType::Int64),
        (TypeRoot::Float, ArrowType::Float32),
        (TypeRoot::Double, ArrowType::Float64),
        (TypeRoot::String, ArrowType::Utf8),
        (TypeRoot::Bytes, ArrowType::Binary),
        (TypeRoot::Date, ArrowType::Date32),
        (TypeRoot::Decimal { precision: 6, scale: 2 }, ArrowType::Decimal128(6, 2)),
        (TypeRoot::Timestamp { precision: 3 }, ArrowType::Timestamp(TimeUnit::Millisecond, None)),
        (TypeRoot::Timestamp { precision: 6 }, ArrowType::Timestamp(TimeUnit::Microsecond, None)),
    ]);
    let ts = |millisecond: i64, nano_of_millisecond: i32| {
        Datum::TimestampNtz(TimestampNtz { millisecond, nano_of_millisecond })
    };
    w.write_field(&array(vec![
        Datum::Bool(true),
        Datum::Int8(1),
        Datum::Int16(2),
        Datum::Int32(3),
        Datum::Int64(4),
        Datum::Float32(F32 { bits: 0.5f32.to_bits() }),
        Datum::Float64(F64 { bits: 0.25f64.to_bits() }),
        Datum::String("text".to_string()),
        Datum::Blob(vec![7, 8]),
        Datum::Date(Date { days: 5 }),
        Datum::Decimal(Decimal { unscaled: 15, scale: 1 }),
        ts(6, 7_000),
        ts(6, 7_000),
    ]))
    .unwrap();
    // Booleans and eight columns of up to eight bytes, text and bytes with two offsets each, a
    // decimal, and no validity.
    assert_eq!(w.buffer_size(), 8 + 6 * 8 + 2 * 16 + 8 + 16 + 2 * 8);
    let a = make_array(w.finish());
    let s = a.as_any().downcast_ref::<StructArray>().unwrap();
    assert_eq!(s.len(), 1);
    assert!(s.is_valid(0));
    assert_eq!(s.column_names()[3], "f3");
    assert!(s.column(0).as_any().downcast_ref::<BooleanArray>().unwrap().value(0));
    assert_eq!(s.column(1).as_any().downcast_ref::<Int8Array>().unwrap().value(0), 1);
    assert_eq!(s.column(2).as_any().downcast_ref::<Int16Array>().unwrap().value(0), 2);
    assert_eq!(s.column(3).as_any().downcast_ref::<Int32Array>().unwrap().value(0), 3);
    assert_eq!(s.column(4).as_any().downcast_ref::<Int64Array>().unwrap().value(0), 4);
    assert_eq!(s.column(5).as_any().downcast_ref::<Float32Array>().unwrap().value(0), 0.5);
    assert_eq!(s.column(6).as_any().downcast_ref::<Float64Array>().unwrap().value(0), 0.25);
    assert_eq!(s.column(7).as_any().downcast_ref::<StringArray>().unwrap().value(0), "text");
    assert_eq!(s.column(8).as_any().downcast_ref::<BinaryArray>().unwrap().value(0), &[7, 8]);
    assert_eq!(s.column(9).as_any().downcast_ref::<Date32Array>().unwrap().value(0), 5);
    assert_eq!(s.column(10).as_any().downcast_ref::<Decimal128Array>().unwrap().value(0), 150);
    assert_eq!(
        s.column(11).as_any().downcast_ref::<TimestampMillisecondArray>().unwrap().value(0),
        6
    );
    assert_eq!(
        s.column(12).as_any().downcast_ref::<TimestampMicrosecondArray>().unwrap().value(0),
        6_007
    );
    // The writer is as new.
    assert_eq!(w.buffer_size(), 2 * 8);
}

#[test]
fn nulls_in_struct_fields() {
    let mut w = struct_writer(vec![
        (TypeRoot::Boolean, ArrowType::Boolean),
        (TypeRoot::TinyInt, ArrowType::Int8),
        (TypeRoot::SmallInt, ArrowType::Int16),
        (TypeRoot::Int, ArrowType::Int32),
        (TypeRoot::BigInt, ArrowType::Int64),
        (TypeRoot::Float, ArrowType::Float32),
        (TypeRoot::Double, ArrowType::Float64),
        (TypeRoot::Char { length: 3 }, ArrowType::Utf8),
        (TypeRoot::Binary { width: 3 }, ArrowType::Binary),
        (TypeRoot::Date, ArrowType::Date32),
        (TypeRoot::Decimal { precision: 6, scale: 2 }, ArrowType::Decimal128(6, 2)),
        (TypeRoot::Time { precision: 3 }, ArrowType::Int32),
        (
            TypeRoot::TimestampLTz { precision: 3 },
            ArrowType::Timestamp(TimeUnit::Millisecond, None),
        ),
    ]);
    w.write_field(&array((0..13).map(|_| Datum::Null).collect())).unwrap();
    let a = make_array(w.finish());
    let s = a.as_any().downcast_ref::<StructArray>().unwrap();
    assert_eq!(s.len(), 1);
    assert!(s.is_valid(0));
    for i in 0..13 {
        assert!(s.column(i).is_null(0));
    }
}

#[test]
fn times_and_instants_in_structs() {
    // A time is stored as its milliseconds, and an instant like a timestamp without time zone.
    let mut w = struct_writer(vec![
        (TypeRoot::Time { precision: 3 }, ArrowType::Int32),
        (
            TypeRoot::TimestampLTz { precision: 3 },
            ArrowType::Timestamp(TimeUnit::Millisecond, None),
        ),
        (
            TypeRoot::TimestampLTz { precision: 6 },
            ArrowType::Timestamp(TimeUnit::Microsecond, None),
        ),
    ]);
    let instant = || {
        Datum::TimestampLtz(TimestampLtz { epoch_millisecond: 8, nano_of_millisecond: 9_000 })
    };
    w.write_field(&array(vec![Datum::Time(Time { millis: 77 }), instant(), instant()])).unwrap();
    let a = make_array(w.finish());
    let s = a.as_any().downcast_ref::<StructArray>().unwrap();
    assert_eq!(s.column(0).as_any().downcast_ref::<Int32Array>().unwrap().value(0), 77);
    assert_eq!(
        s.column(1).as_any().downcast_ref::<TimestampMillisecondArray>().unwrap().value(0),
        8
    );
    assert_eq!(
        s.column(2).as_any().downcast_ref::<TimestampMicrosecondArray>().unwrap().value(0),
        8_009
    );
}

#[test]
fn struct_rows_that_are_null() {
    let mut w = struct_writer(vec![(TypeRoot::Int, ArrowType::Int32)]);
    w.write_field(&array(ints(&[1]))).unwrap();
    assert_eq!(w.buffer_size(), 8);
    w.write_field(&GenericRow::from_data(vec![Datum::Null])).unwrap();
    // Validity of the rows, then validity and values of the field.
    assert_eq!(w.buffer_size(), 8 + 8 + 8);
    w.write_field(&array(ints(&[2]))).unwrap();
    let a = make_array(w.finish());
    let s = a.as_any().downcast_ref::<StructArray>().unwrap();
    assert_eq!(s.len(), 3);
    assert!(s.is_valid(0) && s.is_null(1) && s.is_valid(2));
    let ids = s.column(0).as_any().downcast_ref::<Int32Array>().unwrap();
    assert_eq!((ids.value(0), ids.is_null(1), ids.value(2)), (1, true, 2));
}

#[test]
fn a_null_struct_masks_fields_that_admit_no_nulls() {
    let ty = nullable(TypeRoot::Row {
        fields: vec![RowField {
            name: "id".to_string(),
            data_type: DataType { nullable: false, root: TypeRoot::Int },
        }],
    });
    let arrow = ArrowType::Struct(vec![ArrowField::new(
        "id".to_string(),
        ArrowType::Int32,
        false,
    )]);
    let mut w = ColumnWriter::create(&ty, &arrow, 0, 4).unwrap();
    w.write_field(&GenericRow::from_data(vec![Datum::Null])).unwrap();
    w.write_field(&array(ints(&[5]))).unwrap();
    let a = make_array(w.finish());
    assert!(a.is_null(0) && a.is_valid(1));
}

#[test]
fn struct_fields_keep_their_metadata() {
    let ty = nullable(TypeRoot::Row {
        fields: vec![RowField { name: "id".to_string(), data_type: nullable(TypeRoot::Int) }],
    });
    let mut id = field("id", ArrowType::Int32);
    id.metadata.push(("origin".to_string(), "table".to_string()));
    id.metadata.push(("unit".to_string(), "rows".to_string()));
    let mut w = ColumnWriter::create(&ty, &ArrowType::Struct(vec![id]), 0, 4).unwrap();
    w.write_field(&array(ints(&[5]))).unwrap();
    let a = make_array(w.finish());
    let s = a.as_any().downcast_ref::<StructArray>().unwrap();
    assert_eq!(s.fields()[0].metadata().get("origin").map(|v| v.as_str()), Some("table"));
    assert_eq!(s.fields()[0].metadata().get("unit").map(|v| v.as_str()), Some("rows"));
    assert_eq!(s.fields()[0].metadata().len(), 2);
}

#[test]
fn struct_fields_that_are_refused() {
    let write = |root: TypeRoot, arrow: ArrowType, datum: Datum| {
        struct_writer(vec![(root, arrow)]).write_field(&array(vec![datum])).unwrap_err()
    };
    let map = || TypeRoot::MapType {
        key: Box::new(nullable(TypeRoot::Int)),
        value: Box::new(nullable(TypeRoot::Int)),
    };
    let seconds = || ArrowType::Time32(TimeUnit::Second);
    assert_eq!(
        write(map(), ArrowType::Int32, Datum::Null),
        illegal("Map type in struct not supported")
    );
    assert_eq!(
        write(TypeRoot::Int, ArrowType::Int64, Datum::Null),
        illegal(
            "Failed to append null to field 0 with type DataType { nullable: true, root: Int }"
        )
    );
    assert_eq!(
        write(array_of(TypeRoot::Int), ArrowType::Int64, Datum::Null),
        illegal(&format!(
            "Failed to append null to field 0 with type {:?}",
            nullable(array_of(TypeRoot::Int))
        ))
    );
    assert_eq!(
        write(TypeRoot::Int, ArrowType::Decimal128(5, 2), Datum::Int32(1)),
        illegal("Expected Decimal type")
    );
    assert_eq!(
        write(array_of(TypeRoot::Int), seconds(), Datum::Int32(1)),
        illegal("Nested arrays in structs not yet fully supported")
    );
    assert_eq!(
        write(TypeRoot::Row { fields: vec![] }, seconds(), Datum::Int32(1)),
        illegal("Nested structs not yet fully supported")
    );
    assert_eq!(
        write(map(), seconds(), Datum::Int32(1)),
        illegal("Map type in struct not yet supported")
    );
    assert_eq!(
        write(TypeRoot::Time { precision: 0 }, seconds(), Datum::Int32(1)),
        illegal(&format!(
            "Failed to write field 0 with type {:?} - no matching builder found",
            nullable(TypeRoot::Time { precision: 0 })
        ))
    );
    // The builder decides how a value is read.
    assert_eq!(
        write(TypeRoot::Int, ArrowType::Int64, Datum::Int32(1)),
        illegal("The value at position 0 has another type")
    );
    // A row with too few values.
    let mut w = struct_writer(vec![
        (TypeRoot::Int, ArrowType::Int32),
        (TypeRoot::Int, ArrowType::Int32),
    ]);
    assert_eq!(
        w.write_field(&array(ints(&[1]))),
        Err(illegal("Position 1 is out of range"))
    );
}

#[test]
fn lists_of_structs() {
    let row = TypeRoot::Row {
        fields: vec![
            RowField { name: "id".to_string(), data_type: nullable(TypeRoot::Int) },
            RowField { name: "name".to_string(), data_type: nullable(TypeRoot::String) },
        ],
    };
    let arrow = list(ArrowType::Struct(vec![
        field("id", ArrowType::Int32),
        field("name", ArrowType::Utf8),
    ]));
    let mut w = ColumnWriter::create(&nullable(array_of(row)), &arrow, 0, 4).unwrap();
    let person = |id: i32, name: &str| {
        Datum::Array(FlussArray {
            elements: vec![Datum::Int32(id), Datum::String(name.to_string())],
        })
    };
    w.write_field(&array(vec![person(1, "a"), Datum::Null, person(2, "b")])).unwrap();
    w.write_field(&array(vec![person(3, "c")])).unwrap();
    let a = make_array(w.finish());
    let lists = a.as_any().downcast_ref::<ListArray>().unwrap();
    assert_eq!(lists.value_offsets(), &[0, 3, 4]);
    let people = lists.values().as_any().downcast_ref::<StructArray>().unwrap();
    assert!(people.is_valid(0) && people.is_null(1) && people.is_valid(2));
    let ids = people.column(0).as_any().downcast_ref::<Int32Array>().unwrap();
    assert_eq!((ids.value(0), ids.value(2), ids.value(3)), (1, 2, 3));
    let names = people.column(1).as_any().downcast_ref::<StringArray>().unwrap();
    assert_eq!((names.value(0), names.value(2), names.value(3)), ("a", "b", "c"));
}

#[test]
fn a_struct_without_fields() {
    let ty = nullable(TypeRoot::Row { fields: vec![] });
    let mut w = ColumnWriter::create(&ty, &ArrowType::Struct(vec![]), 0, 4).unwrap();
    w.write_field(&array(vec![])).unwrap();
    w.write_field(&GenericRow::from_data(vec![Datum::Null])).unwrap();
    let a = make_array(w.finish());
    assert_eq!(a.len(), 2);
    assert!(a.is_valid(0) && a.is_null(1));
}
