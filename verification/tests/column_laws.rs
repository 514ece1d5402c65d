//! The laws of column writers on chosen values.
use arrow::array::{make_array, Array, Int64Array, StringArray};
use arrow_schema::DataType as ArrowDataType;
use fluss_columns::column_writer::ColumnWriter;
use fluss_columns::error::Error;
use fluss_columns::row::{Datum, FlussArray, GenericRow};
use fluss_columns::types::{ArrowField, ArrowType, DataType, TimeUnit, TypeRoot};
use fluss_columns::values::Time;

fn writer(root: TypeRoot, arrow: ArrowType) -> ColumnWriter {
    ColumnWriter::create(&DataType { nullable: true, root }, &arrow, 0, 0).unwrap()
}

fn row(datum: Datum) -> GenericRow {
    GenericRow::from_data(vec![datum])
}

#[test]
fn rows_read_back_in_order() {
    let mut w = writer(TypeRoot::BigInt, ArrowType::Int64);
    for i in 0..100i64 {
        let datum = if i % 7 == 0 { Datum::Null } else { Datum::Int64(i * i) };
        w.write_field(&row(datum)).unwrap();
    }
    let a = make_array(w.finish());
    let a = a.as_any().downcast_ref::<Int64Array>().unwrap();
    assert_eq!(a.len(), 100);
    for i in 0..100usize {
        assert_eq!(a.is_null(i), i % 7 == 0);
        if i % 7 != 0 {
            assert_eq!(a.value(i), (i * i) as i64);
        }
    }
}

#[test]
fn a_write_that_fails_leaves_no_trace() {
    let mut w = writer(TypeRoot::String, ArrowType::Utf8);
    w.write_field(&row(Datum::String("one".to_string()))).unwrap();
    let size = w.buffer_size();
    assert!(w.write_field(&row(Datum::Int32(2))).is_err());
    assert_eq!(w.buffer_size(), size);
    w.write_field(&row(Datum::String("three".to_string()))).unwrap();
    let a = make_array(w.finish());
    let a = a.as_any().downcast_ref::<StringArray>().unwrap();
    assert_eq!((a.len(), a.value(0), a.value(1)), (2, "one", "three"));
}

#[test]
fn outcomes_do_not_depend_on_earlier_rows() {
    let time = |millis: i32| row(Datum::Time(Time { millis }));
    let arrow = ArrowType::Time32(TimeUnit::Second);
    let mut w = writer(TypeRoot::Time { precision: 0 }, arrow);
    let refused = w.write_field(&time(1_500));
    assert!(refused.is_err());
    w.write_field(&time(3_000)).unwrap();
    w.write_field(&row(Datum::Null)).unwrap();
    assert_eq!(w.write_field(&time(1_500)), refused);
    assert_eq!(make_array(w.finish()).len(), 2);
    assert_eq!(w.write_field(&time(1_500)), refused);
}

#[test]
fn maps_are_refused_whatever_the_arrow_type() {
    let other = ArrowType::Other("Null".to_string());
    for arrow in [other, ArrowType::Int32, ArrowType::Struct(vec![])] {
        for nullable in [false, true] {
            let part = || Box::new(DataType { nullable: true, root: TypeRoot::Int });
            let ty = DataType {
                nullable,
                root: TypeRoot::MapType { key: part(), value: part() },
            };
            assert_eq!(
                ColumnWriter::create(&ty, &arrow, 0, 4).err(),
                Some(Error::IllegalArgument {
                    message: format!("Unsupported Fluss DataType (not yet implemented): {ty:?}"),
                })
            );
        }
    }
}

#[test]
fn the_nullability_of_elements_is_kept() {
    for nullable in [false, true] {
        let element = Box::new(DataType { nullable, root: TypeRoot::Int });
        let item = ArrowField::new("item".to_string(), ArrowType::Int32, !nullable);
        let mut w = writer(TypeRoot::Array { element }, ArrowType::List(Box::new(item)));
        w.write_field(&row(Datum::Array(FlussArray { elements: vec![Datum::Int32(1)] }))).unwrap();
        let a = make_array(w.finish());
        match a.data_type() {
            ArrowDataType::List(field) => assert_eq!(field.is_nullable(), nullable),
            other => panic!("{other:?}"),
        }
    }
}

#[test]
fn buffers_grow_in_steps_of_eight() {
    let mut w = writer(TypeRoot::String, ArrowType::Utf8);
    let mut size = w.buffer_size();
    for i in 0..40usize {
        let datum = if i % 5 == 4 { Datum::Null } else { Datum::String("x".repeat(i)) };
        w.write_field(&row(datum)).unwrap();
        let grown = w.buffer_size();
        assert!(size <= grown);
        assert_eq!(grown % 8, 0);
        size = grown;
    }
}

#[test]
fn validity_comes_with_the_first_null() {
    let mut w = writer(TypeRoot::BigInt, ArrowType::Int64);
    for i in 0..65i64 {
        w.write_field(&row(Datum::Int64(i))).unwrap();
    }
    assert_eq!(w.buffer_size(), 65 * 8);
    w.write_field(&row(Datum::Null)).unwrap();
    // 66 bits take 9 bytes.
    assert_eq!(w.buffer_size(), 66 * 8 + 16);
}

#[test]
fn a_finished_writer_is_as_new() {
    let mut w = writer(TypeRoot::BigInt, ArrowType::Int64);
    w.write_field(&row(Datum::Null)).unwrap();
    assert_eq!(make_array(w.finish()).len(), 1);
    assert_eq!(w.buffer_size(), 0);
    assert_eq!(make_array(w.finish()).len(), 0);
    w.write_field(&row(Datum::Int64(1))).unwrap();
    assert_eq!(w.buffer_size(), 8);
    let a = make_array(w.finish());
    assert_eq!(a.as_any().downcast_ref::<Int64Array>().unwrap().value(0), 1);
    assert_eq!(a.null_count(), 0);
}
