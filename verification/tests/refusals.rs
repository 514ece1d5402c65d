//! What no column is made for.
use arrow_schema::{DataType as ArrowDataType, Field, TimeUnit as ArrowTimeUnit};
use fluss_columns::builders::ScalarType;
use fluss_columns::column_writer::ColumnWriter;
use fluss_columns::error::Error;
use fluss_columns::nested::{
    append_null_to_builder, create_boxed_builder, create_builder_for_type,
    create_element_struct_builder, create_list_builder, BuilderForm,
};
use fluss_columns::row::{ArrayElementRow, Datum, FlussArray, GenericRow, InternalRow};
use fluss_columns::types::{ArrowField, ArrowType, DataType, RowField, TimeUnit, TypeRoot};
use fluss_columns::values::{Date, Time, TimestampLtz, TimestampNtz};

fn illegal(message: &str) -> Error {
    Error::IllegalArgument { message: message.to_string() }
}

fn null_type() -> ArrowType {
    ArrowType::Other("Null".to_string())
}

fn nullable(root: TypeRoot) -> DataType {
    DataType { nullable: true, root }
}

fn field(name: &str, data_type: ArrowType) -> ArrowField {
    ArrowField::new(name.to_string(), data_type, true)
}

fn list(data_type: ArrowType) -> ArrowType {
    ArrowType::List(Box::new(field("item", data_type)))
}

fn array_of(root: TypeRoot) -> TypeRoot {
    TypeRoot::Array { element: Box::new(nullable(root)) }
}

fn row_of(root: TypeRoot) -> TypeRoot {
    TypeRoot::Row {
        fields: vec![RowField { name: "a".to_string(), data_type: nullable(root) }],
    }
}

fn refusal(root: TypeRoot, arrow: ArrowType) -> Error {
    ColumnWriter::create(&nullable(root), &arrow, 0, 4).err().unwrap()
}

#[test]
fn binary_length() {
    let length = i32::MAX as usize + 1;
    assert_eq!(
        refusal(TypeRoot::Binary { width: length }, ArrowType::Binary),
        illegal("Binary length 2147483648 exceeds Arrow's maximum (i32::MAX)")
    );
}

#[test]
fn decimal_types() {
    let root = || TypeRoot::Decimal { precision: 10, scale: 2 };
    assert_eq!(
        refusal(root(), ArrowType::Int64),
        illegal("Expected Decimal128 Arrow type for Decimal, got: Int64")
    );
    assert_eq!(
        refusal(root(), ArrowType::Decimal128(10, -1)),
        illegal("Negative decimal scale -1 is not supported")
    );
    for (precision, scale, reason) in [
        (0, 0, "precision cannot be 0, has to be between [1, 38]"),
        (39, 0, "precision 39 is greater than max 38"),
        (5, 6, "scale 6 is greater than precision 5"),
        (38, 39, "scale 39 is greater than max 38"),
    ] {
        assert_eq!(
            refusal(root(), ArrowType::Decimal128(precision, scale)),
            illegal(&format!(
                "Invalid decimal precision {precision} or scale {scale}: Invalid argument error: \
                 {reason}"
            ))
        );
    }
    let ty = nullable(root());
    for (precision, scale) in [(1, 0), (1, 1), (38, 38)] {
        let arrow = ArrowType::Decimal128(precision, scale);
        assert!(ColumnWriter::create(&ty, &arrow, 0, 4).is_ok());
    }
}

#[test]
fn time_and_timestamp_units() {
    let time = || TypeRoot::Time { precision: 3 };
    for (arrow, found) in [
        (ArrowType::Time32(TimeUnit::Microsecond), "Time32(Microsecond)"),
        (ArrowType::Time64(TimeUnit::Second), "Time64(Second)"),
        (ArrowType::Int32, "Int32"),
    ] {
        assert_eq!(
            refusal(time(), arrow),
            illegal(&format!("Unsupported Arrow type for Time: {found}"))
        );
    }
    assert_eq!(
        refusal(TypeRoot::Timestamp { precision: 3 }, ArrowType::Int64),
        illegal("Unsupported Arrow type for Timestamp: Int64")
    );
    assert_eq!(
        refusal(TypeRoot::TimestampLTz { precision: 3 }, ArrowType::Int64),
        illegal("Unsupported Arrow type for TimestampLTz: Int64")
    );
}

#[test]
fn nested_types() {
    assert_eq!(
        refusal(array_of(TypeRoot::Int), ArrowType::Int32),
        illegal("Expected List Arrow type for Array, got: Int32")
    );
    assert_eq!(
        refusal(row_of(TypeRoot::Int), ArrowType::Int32),
        illegal("Expected Struct Arrow type for Row, got: Int32")
    );
    assert_eq!(
        refusal(array_of(TypeRoot::Int), list(null_type())),
        illegal("Unsupported Arrow type for List element: Null")
    );
    assert_eq!(
        refusal(
            array_of(row_of(TypeRoot::Timestamp { precision: 3 })),
            list(ArrowType::Struct(vec![field(
                "a",
                ArrowType::Timestamp(TimeUnit::Millisecond, None)
            )]))
        ),
        illegal("Unsupported Arrow type for struct field: Timestamp(Millisecond, None)")
    );
    assert_eq!(
        refusal(
            row_of(array_of(TypeRoot::Int)),
            ArrowType::Struct(vec![field("a", list(ArrowType::Int32))])
        ),
        illegal("Nested List type should use create_list_builder")
    );
    assert_eq!(
        refusal(
            row_of(row_of(TypeRoot::Int)),
            ArrowType::Struct(vec![field("a", ArrowType::Struct(vec![]))])
        ),
        illegal("Nested Struct type should be handled separately")
    );
    assert_eq!(
        refusal(row_of(TypeRoot::Int), ArrowType::Struct(vec![field("a", null_type())])),
        illegal("Unsupported Arrow type for boxed builder: Null")
    );
}

#[test]
fn the_first_refusal_counts() {
    let map = || TypeRoot::MapType {
        key: Box::new(nullable(TypeRoot::String)),
        value: Box::new(nullable(TypeRoot::Int)),
    };
    // The element comes before the list builder, and the first field before the second.
    assert_eq!(
        refusal(array_of(map()), list(null_type())),
        illegal(&format!(
            "Unsupported Fluss DataType (not yet implemented): {:?}",
            nullable(map())
        ))
    );
    let fields = TypeRoot::Row {
        fields: vec![
            RowField { name: "a".to_string(), data_type: nullable(TypeRoot::Int) },
            RowField { name: "b".to_string(), data_type: nullable(TypeRoot::Int) },
        ],
    };
    assert_eq!(
        refusal(
            fields,
            ArrowType::Struct(vec![
                field("a", null_type()),
                field("b", ArrowType::Struct(vec![]))
            ])
        ),
        illegal("Unsupported Arrow type for boxed builder: Null")
    );
}

/// The Arrow types without children.
fn flat_types() -> Vec<ArrowType> {
    vec![
        ArrowType::Boolean,
        ArrowType::Int8,
        ArrowType::Int16,
        ArrowType::Int32,
        ArrowType::Int64,
        ArrowType::Float32,
        ArrowType::Float64,
        ArrowType::Utf8,
        ArrowType::LargeUtf8,
        ArrowType::Binary,
        ArrowType::LargeBinary,
        ArrowType::FixedSizeBinary(3),
        ArrowType::Date32,
        ArrowType::Decimal128(9, 3),
        ArrowType::Time32(TimeUnit::Second),
        ArrowType::Time32(TimeUnit::Millisecond),
        ArrowType::Time64(TimeUnit::Microsecond),
        ArrowType::Time64(TimeUnit::Nanosecond),
        ArrowType::Timestamp(TimeUnit::Second, None),
        ArrowType::Timestamp(TimeUnit::Millisecond, None),
        ArrowType::Timestamp(TimeUnit::Microsecond, None),
        ArrowType::Timestamp(TimeUnit::Nanosecond, None),
    ]
}

#[test]
fn builders_for_every_flat_type() {
    for (i, arrow) in flat_types().iter().enumerate() {
        assert!(create_boxed_builder(arrow, 4).is_ok());
        assert!(create_list_builder(arrow, 4).is_ok());
        // In a struct in a list, the first thirteen have a builder.
        assert_eq!(create_builder_for_type(arrow, 4).is_ok(), i < 13);
    }
    assert!(create_list_builder(&list(list(ArrowType::Int8)), 4).is_ok());
    assert!(create_list_builder(
        &ArrowType::Struct(vec![field("a", ArrowType::Int8), field("b", ArrowType::Utf8)]),
        4
    )
    .is_ok());
    assert_eq!(
        create_list_builder(&ArrowType::Decimal128(2, 3), 4).err(),
        Some(illegal(
            "Invalid decimal precision 2 or scale 3: Invalid argument error: scale 3 is greater \
             than precision 2"
        ))
    );
    assert_eq!(
        create_boxed_builder(&ArrowType::Decimal128(2, 3), 4).err(),
        Some(illegal(
            "Invalid decimal precision 2 or scale 3: Invalid argument error: scale 3 is greater \
             than precision 2"
        ))
    );
}

#[test]
fn nulls_in_builders_of_every_form() {
    // The form is that of the builder of the elements.
    let (form, mut lists) = create_list_builder(&list(ArrowType::Int8), 4).unwrap();
    assert!(matches!(&form, BuilderForm::List(inner) if matches!(**inner, BuilderForm::Scalar(_))));
    let whole = BuilderForm::List(Box::new(form));
    append_null_to_builder(&mut lists, &whole);
    append_null_to_builder(&mut lists, &whole);
    let (ty, mut flat) = create_boxed_builder(&ArrowType::FixedSizeBinary(3), 4).unwrap();
    append_null_to_builder(&mut flat, &BuilderForm::Scalar(ty));
    let fields = vec![field("a", ArrowType::Int8), field("b", ArrowType::Utf8)];
    let (types, mut structs) = create_element_struct_builder(&fields, 4).unwrap();
    assert_eq!(types, vec![ScalarType::Int8, ScalarType::Utf8]);
    let form = BuilderForm::Struct(types);
    append_null_to_builder(&mut structs, &form);
    append_null_to_builder(&mut structs, &form);
}

#[test]
fn messages() {
    let decimal = TypeRoot::Decimal { precision: 10, scale: 2 };
    let error = refusal(decimal, ArrowType::Decimal128(10, -2));
    assert_eq!(error.message(), "Negative decimal scale -2 is not supported");
    let error = Error::RowConvertError { message: "short".to_string() };
    assert_eq!(error.message(), "short");
}

/// Types, each beside the same type in Arrow.
fn twins() -> Vec<(ArrowType, ArrowDataType)> {
    let mut tagged = field("a \"b\"", ArrowType::Int32);
    tagged.nullable = false;
    tagged.metadata.push(("origin".to_string(), "table\n".to_string()));
    let tags = [("origin".to_string(), "table\n".to_string())];
    let arrow_tagged = Field::new("a \"b\"", ArrowDataType::Int32, false)
        .with_metadata(tags.into_iter().collect());
    let fields = vec![field("k", ArrowType::Utf8), field("v", list(ArrowType::Int8))];
    let arrow_item = Field::new("item", ArrowDataType::Int8, true);
    let arrow_fields = vec![
        Field::new("k", ArrowDataType::Utf8, true),
        Field::new("v", ArrowDataType::List(arrow_item.into()), true),
    ];
    let entries = ArrowDataType::Struct(arrow_fields.clone().into());
    vec![
        (ArrowType::Boolean, ArrowDataType::Boolean),
        (ArrowType::Int16, ArrowDataType::Int16),
        (ArrowType::Int64, ArrowDataType::Int64),
        (ArrowType::Float32, ArrowDataType::Float32),
        (ArrowType::Float64, ArrowDataType::Float64),
        (ArrowType::LargeUtf8, ArrowDataType::LargeUtf8),
        (ArrowType::Binary, ArrowDataType::Binary),
        (ArrowType::LargeBinary, ArrowDataType::LargeBinary),
        (ArrowType::FixedSizeBinary(12), ArrowDataType::FixedSizeBinary(12)),
        (ArrowType::Decimal128(38, -10), ArrowDataType::Decimal128(38, -10)),
        (ArrowType::Date32, ArrowDataType::Date32),
        (
            ArrowType::Time32(TimeUnit::Millisecond),
            ArrowDataType::Time32(ArrowTimeUnit::Millisecond),
        ),
        (
            ArrowType::Time64(TimeUnit::Nanosecond),
            ArrowDataType::Time64(ArrowTimeUnit::Nanosecond),
        ),
        (
            ArrowType::Timestamp(TimeUnit::Second, None),
            ArrowDataType::Timestamp(ArrowTimeUnit::Second, None),
        ),
        (
            ArrowType::Timestamp(TimeUnit::Microsecond, Some("UTC".to_string())),
            ArrowDataType::Timestamp(ArrowTimeUnit::Microsecond, Some("UTC".into())),
        ),
        (ArrowType::Struct(vec![]), ArrowDataType::Struct(Vec::<Field>::new().into())),
        (
            ArrowType::MapType(Box::new(field("entries", ArrowType::Struct(fields))), false),
            ArrowDataType::Map(Field::new("entries", entries, true).into(), false),
        ),
        (
            ArrowType::Struct(vec![tagged, field("item", ArrowType::Int8)]),
            ArrowDataType::Struct(
                vec![arrow_tagged, Field::new("item", ArrowDataType::Int8, true)].into(),
            ),
        ),
    ]
}

#[test]
fn arrow_types_print_as_arrow_prints_them() {
    for (arrow, twin) in twins() {
        assert_eq!(
            refusal(array_of(TypeRoot::Int), arrow),
            illegal(&format!("Expected List Arrow type for Array, got: {twin:?}"))
        );
    }
    assert_eq!(
        refusal(row_of(TypeRoot::Int), list(ArrowType::Int32)),
        illegal(
            "Expected Struct Arrow type for Row, got: List(Field { data_type: Int32, nullable: \
             true })"
        )
    );
}

#[test]
fn logical_types_print_in_full() {
    let map = |value: DataType| TypeRoot::MapType {
        key: Box::new(nullable(TypeRoot::String)),
        value: Box::new(value),
    };
    let roots = vec![
        TypeRoot::Boolean,
        TypeRoot::TinyInt,
        TypeRoot::SmallInt,
        TypeRoot::BigInt,
        TypeRoot::Float,
        TypeRoot::Double,
        TypeRoot::Char { length: 7 },
        TypeRoot::Bytes,
        TypeRoot::Binary { width: 12 },
        TypeRoot::Decimal { precision: 38, scale: 9 },
        TypeRoot::Date,
        TypeRoot::Time { precision: 3 },
        TypeRoot::Timestamp { precision: 6 },
        TypeRoot::TimestampLTz { precision: 9 },
        array_of(TypeRoot::Int),
        TypeRoot::Row {
            fields: vec![
                RowField { name: "a\tb".to_string(), data_type: nullable(TypeRoot::Int) },
                RowField {
                    name: "c".to_string(),
                    data_type: DataType { nullable: false, root: TypeRoot::String },
                },
            ],
        },
    ];
    for root in roots {
        let column = nullable(map(DataType { nullable: false, root }));
        let error = ColumnWriter::create(&column, &ArrowType::Int32, 0, 4).err().unwrap();
        assert_eq!(
            error,
            illegal(&format!("Unsupported Fluss DataType (not yet implemented): {column:?}"))
        );
    }
    assert_eq!(
        refusal(map(nullable(TypeRoot::Int)), ArrowType::Int32).message(),
        "Unsupported Fluss DataType (not yet implemented): DataType { nullable: true, root: \
         MapType { key: DataType { nullable: true, root: String }, value: DataType { nullable: \
         true, root: Int } } }"
    );
}

#[test]
fn an_element_row_has_one_position() {
    let array = FlussArray { elements: vec![Datum::Int32(4), Datum::Null] };
    let element = ArrayElementRow::new(&array, 0);
    assert_eq!(element.get_field_count(), 1);
    assert_eq!(element.is_null_at(0), Ok(false));
    assert_eq!(element.get_int(0), Ok(4));
    let refused = || illegal("Array element row has only one field, got position 1");
    assert_eq!(element.is_null_at(1), Err(refused()));
    assert_eq!(element.get_int(1), Err(refused()));
    assert_eq!(element.get_char(1, 3), Err(refused()));
    assert_eq!(element.get_decimal(1, 3, 2), Err(refused()));
    assert_eq!(ArrayElementRow::new(&array, 1).is_null_at(0), Ok(true));
}

#[test]
fn arrays_answer_by_what_is_stored() {
    let array = FlussArray {
        elements: vec![
            Datum::Time(Time { millis: 5 }),
            Datum::TimestampLtz(TimestampLtz { epoch_millisecond: 6, nano_of_millisecond: 7 }),
            Datum::Date(Date { days: 8 }),
            Datum::Int32(9),
        ],
    };
    assert_eq!(array.size(), 4);
    assert_eq!(array.get_int(0), Ok(5));
    assert_eq!(array.get_date(0), Ok(Date { days: 5 }));
    assert_eq!(array.get_int(2), Ok(8));
    assert_eq!(array.get_time(2), Ok(Time { millis: 8 }));
    assert_eq!(array.get_date(3), Ok(Date { days: 9 }));
    assert_eq!(array.get_time(3), Ok(Time { millis: 9 }));
    assert_eq!(
        array.get_timestamp_ntz(1, 3),
        Ok(TimestampNtz { millisecond: 6, nano_of_millisecond: 7 })
    );
    assert_eq!(
        array.get_long(1),
        Err(illegal("The value at position 1 has another type"))
    );
    assert_eq!(array.get_int(4), Err(illegal("Position 4 is out of range")));
    assert!(!array.is_null_at(4));
}

#[test]
fn rows_know_the_types_of_their_values() {
    let row = GenericRow::from_data(vec![
        Datum::Time(Time { millis: 5 }),
        Datum::TimestampNtz(TimestampNtz { millisecond: 6, nano_of_millisecond: 7 }),
    ]);
    let refused = |pos: usize| illegal(&format!("The value at position {pos} has another type"));
    assert_eq!(row.get_time(0), Ok(Time { millis: 5 }));
    assert_eq!(row.get_int(0), Err(refused(0)));
    assert_eq!(row.get_date(0), Err(refused(0)));
    assert_eq!(row.get_timestamp_ltz(1, 3), Err(refused(1)));
    assert_eq!(
        row.get_timestamp_ntz(1, 3),
        Ok(TimestampNtz { millisecond: 6, nano_of_millisecond: 7 })
    );
    assert_eq!(row.get_field_count(), 2);
    assert_eq!(row.get_time(2), Err(illegal("Position 2 is out of range")));
}
