//! The laws of the wording: numbers and types in messages.
use crate::text;
use crate::types::{ArrowField, ArrowType, DataType, RowField, TimeUnit, TypeRoot};
use vstd::prelude::*;

verus! {

/// A number is written in digits that read back as the number, without leading zeros, and with a
/// minus in front where it is negative.
pub proof fn law_numbers_read_back(n: int)
    ensures
        n < 0 ==> text::number(n) == seq!['-'] + text::number(-n),
        n >= 0 ==> {
            let digits = text::number(n);
            &&& digits.len() >= 1
            &&& digits.len() > 1 ==> digits[0] != '0'
            &&& forall|i: int| 0 <= i < digits.len() ==> '0' <= (#[trigger] digits[i]) <= '9'
            &&& digits.fold_left(0int, |sum: int, c: char| sum * 10 + (c as int - '0' as int)) == n
        },
    decreases if n < 0 {
        1 - n
    } else {
        n
    },
{
    reveal_strlit("-");
    if n < 0 {
        assert("-"@ =~= seq!['-']);
    } else {
        lemma_digit(n % 10);
        let last = text::digit(n % 10);
        let value = |sum: int, c: char| sum * 10 + (c as int - '0' as int);
        if n < 10 {
            assert(text::number(n) == last);
            assert(last.drop_last() =~= Seq::<char>::empty());
            assert(last.drop_last().fold_left(0int, value) == 0);
        } else {
            law_numbers_read_back(n / 10);
            let digits = text::number(n);
            let earlier = text::number(n / 10);
            assert(digits == earlier + last);
            assert(digits.drop_last() =~= earlier);
            assert(digits.last() == last[0]);
            assert(digits[0] == earlier[0]);
            lemma_leading_digit(n / 10);
        }
    }
}

proof fn lemma_leading_digit(n: int)
    requires
        n > 0,
    ensures
        text::number(n).len() >= 1,
        text::number(n)[0] != '0',
    decreases n,
{
    lemma_digit(n % 10);
    if n >= 10 {
        lemma_leading_digit(n / 10);
        assert(text::number(n)[0] == text::number(n / 10)[0]);
    }
}

/// A digit is one character, which tells which it is.
proof fn lemma_digit(d: int)
    requires
        0 <= d < 10,
    ensures
        text::digit(d).len() == 1,
        text::digit(d)[0] as int - '0' as int == d,
        '0' <= text::digit(d)[0] <= '9',
        text::digit(d)[0] == '0' <==> d == 0,
{
    reveal_strlit("0");
    reveal_strlit("1");
    reveal_strlit("2");
    reveal_strlit("3");
    reveal_strlit("4");
    reveal_strlit("5");
    reveal_strlit("6");
    reveal_strlit("7");
    reveal_strlit("8");
    reveal_strlit("9");
}

/// An Arrow type prints with all that it holds, as `{:?}` prints it.
pub proof fn law_arrow_types_print_in_full(arrow: ArrowType)
    ensures
        arrow.text() == match arrow {
            ArrowType::Boolean => "Boolean"@,
            ArrowType::Int8 => "Int8"@,
            ArrowType::Int16 => "Int16"@,
            ArrowType::Int32 => "Int32"@,
            ArrowType::Int64 => "Int64"@,
            ArrowType::Float32 => "Float32"@,
            ArrowType::Float64 => "Float64"@,
            ArrowType::Utf8 => "Utf8"@,
            ArrowType::LargeUtf8 => "LargeUtf8"@,
            ArrowType::Binary => "Binary"@,
            ArrowType::LargeBinary => "LargeBinary"@,
            ArrowType::Date32 => "Date32"@,
            ArrowType::FixedSizeBinary(width) => "FixedSizeBinary("@ + text::number(width as int)
                + ")"@,
            ArrowType::Decimal128(precision, scale) => "Decimal128("@ + text::number(
                precision as int,
            ) + ", "@ + text::number(scale as int) + ")"@,
            ArrowType::Time32(unit) => "Time32("@ + unit.text() + ")"@,
            ArrowType::Time64(unit) => "Time64("@ + unit.text() + ")"@,
            ArrowType::Timestamp(unit, zone) => "Timestamp("@ + unit.text() + ", "@ + (match zone {
                Some(zone) => "Some("@ + text::quoted(zone@) + ")"@,
                None => "None"@,
            }) + ")"@,
            ArrowType::List(item) => "List("@ + item.text() + ")"@,
            ArrowType::Struct(fields) => "Struct(["@ + ArrowField::list_text(
                fields@,
                fields@.len(),
            ) + "])"@,
            ArrowType::MapType(entries, sorted) => "Map("@ + entries.text() + ", "@ + (if sorted {
                "true"@
            } else {
                "false"@
            }) + ")"@,
            ArrowType::Other(text) => text@,
        },
{
}

/// A unit prints as its name.
pub proof fn law_units_print_as_their_names(unit: TimeUnit)
    ensures
        unit.text() == match unit {
            TimeUnit::Second => "Second"@,
            TimeUnit::Millisecond => "Millisecond"@,
            TimeUnit::Microsecond => "Microsecond"@,
            TimeUnit::Nanosecond => "Nanosecond"@,
        },
{
}

/// A field prints its name, unless that is the usual one of the elements of a list, its type, its
/// nullability where it is nullable, and its metadata where there is some. Fields are separated by
/// commas.
pub proof fn law_arrow_fields_print_in_full(field: ArrowField, fields: Seq<ArrowField>, n: nat)
    requires
        n < fields.len(),
    ensures
        field.text() == "Field { "@ + (if field.name@ == "item"@ {
            Seq::empty()
        } else {
            "name: "@ + text::quoted(field.name@) + ", "@
        }) + "data_type: "@ + field.data_type.text() + (if field.nullable {
            ", nullable: true"@
        } else {
            Seq::empty()
        }) + (if field.metadata@.len() == 0 {
            Seq::empty()
        } else {
            ", metadata: "@ + (text::metadata_text(field.metadata@, field.metadata@.len()) + "}"@)
        }) + " }"@,
        ArrowField::list_text(fields, 0) == Seq::<char>::empty(),
        ArrowField::list_text(fields, n + 1) == ArrowField::list_text(fields, n) + (if n == 0 {
            Seq::empty()
        } else {
            ", "@
        }) + fields[n as int].text(),
{
}

/// Metadata prints as keys and values, in order, separated by commas.
pub proof fn law_metadata_prints_in_full(metadata: Seq<(String, String)>, n: nat)
    requires
        n < metadata.len(),
    ensures
        text::metadata_text(metadata, 0) == "{"@,
        text::metadata_text(metadata, n + 1) == text::metadata_text(metadata, n) + (if n == 0 {
            Seq::empty()
        } else {
            ", "@
        }) + text::quoted(metadata[n as int].0@) + ": "@ + text::quoted(metadata[n as int].1@),
{
}

/// A logical type prints with all that it holds, as `{:?}` prints it.
pub proof fn law_logical_types_print_in_full(fluss: DataType)
    ensures
        fluss.text() == "DataType { nullable: "@ + (if fluss.nullable {
            "true"@
        } else {
            "false"@
        }) + ", root: "@ + fluss.root.text() + " }"@,
        fluss.root.text() == match fluss.root {
            TypeRoot::Boolean => "Boolean"@,
            TypeRoot::TinyInt => "TinyInt"@,
            TypeRoot::SmallInt => "SmallInt"@,
            TypeRoot::Int => "Int"@,
            TypeRoot::BigInt => "BigInt"@,
            TypeRoot::Float => "Float"@,
            TypeRoot::Double => "Double"@,
            TypeRoot::String => "String"@,
            TypeRoot::Bytes => "Bytes"@,
            TypeRoot::Date => "Date"@,
            TypeRoot::Char { length } => "Char { length: "@ + text::number(length as int) + " }"@,
            TypeRoot::Binary { width } => "Binary { width: "@ + text::number(width as int) + " }"@,
            TypeRoot::Decimal { precision, scale } => "Decimal { precision: "@ + text::number(
                precision as int,
            ) + ", scale: "@ + text::number(scale as int) + " }"@,
            TypeRoot::Time { precision } => "Time { precision: "@ + text::number(precision as int)
                + " }"@,
            TypeRoot::Timestamp { precision } => "Timestamp { precision: "@ + text::number(
                precision as int,
            ) + " }"@,
            TypeRoot::TimestampLTz { precision } => "TimestampLTz { precision: "@ + text::number(
                precision as int,
            ) + " }"@,
            TypeRoot::Array { element } => "Array { element: "@ + element.text() + " }"@,
            TypeRoot::Row { fields } => "Row { fields: ["@ + RowField::list_text(
                fields@,
                fields@.len(),
            ) + "] }"@,
            TypeRoot::MapType { key, value } => "MapType { key: "@ + key.text() + ", value: "@
                + value.text() + " }"@,
        },
{
}

/// A field of a row type prints its name and its type. Fields are separated by commas.
pub proof fn law_row_fields_print_in_full(field: RowField, fields: Seq<RowField>, n: nat)
    requires
        n < fields.len(),
    ensures
        field.text() == "RowField { name: "@ + text::quoted(field.name@) + ", data_type: "@
            + field.data_type.text() + " }"@,
        RowField::list_text(fields, 0) == Seq::<char>::empty(),
        RowField::list_text(fields, n + 1) == RowField::list_text(fields, n) + (if n == 0 {
            Seq::empty()
        } else {
            ", "@
        }) + fields[n as int].text(),
{
}

} // verus!
