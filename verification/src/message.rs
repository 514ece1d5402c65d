//! The wording of errors.
use crate::builders;
use crate::error::{Error, Failure, Fault, Refusal};
use crate::text;
use crate::types::{ArrowType, DataType};
use vstd::prelude::*;

verus! {

impl Refusal {
    /// Why the request was refused, in words.
    pub open spec fn text(self) -> Seq<char> {
        match self {
            Refusal::BinaryLength { length } => {
                "Binary length "@
                    + text::number(length as int)
                    + " exceeds Arrow's maximum (i32::MAX)"@
            },
            Refusal::NotDecimal128 { found } => {
                "Expected Decimal128 Arrow type for Decimal, got: "@
                    + found.text()
            },
            Refusal::NegativeDecimalScale { scale } => {
                "Negative decimal scale "@
                    + text::number(scale as int)
                    + " is not supported"@
            },
            Refusal::InvalidDecimal { precision, scale } => {
                "Invalid decimal precision "@
                    + text::number(precision as int)
                    + " or scale "@
                    + text::number(scale as int)
                    + ": "@
                    + builders::decimal_error(precision, scale)
            },
            Refusal::ArrowTypeForTime { found } => {
                "Unsupported Arrow type for Time: "@
                    + found.text()
            },
            Refusal::ArrowTypeForTimestamp { found } => {
                "Unsupported Arrow type for Timestamp: "@
                    + found.text()
            },
            Refusal::ArrowTypeForTimestampLtz { found } => {
                "Unsupported Arrow type for TimestampLTz: "@
                    + found.text()
            },
            Refusal::NotList { found } => {
                "Expected List Arrow type for Array, got: "@
                    + found.text()
            },
            Refusal::NotStruct { found } => {
                "Expected Struct Arrow type for Row, got: "@
                    + found.text()
            },
            Refusal::UnsupportedColumn { fluss } => {
                "Unsupported Fluss DataType (not yet implemented): "@
                    + fluss.text()
            },
            Refusal::ListElementType { found } => {
                "Unsupported Arrow type for List element: "@
                    + found.text()
            },
            Refusal::StructFieldType { found } => {
                "Unsupported Arrow type for struct field: "@
                    + found.text()
            },
            Refusal::NestedList => "Nested List type should use create_list_builder"@,
            Refusal::NestedStruct => "Nested Struct type should be handled separately"@,
            Refusal::BoxedBuilderType { found } => {
                "Unsupported Arrow type for boxed builder: "@
                    + found.text()
            },
            Refusal::MapFieldNull => "Map type in struct not supported"@,
            Refusal::FieldNull { index, type_text } => {
                "Failed to append null to field "@
                    + text::number(index as int)
                    + " with type "@
                    + type_text
            },
            Refusal::FieldNotDecimal => "Expected Decimal type"@,
            Refusal::ArrayField => "Nested arrays in structs not yet fully supported"@,
            Refusal::RowField => "Nested structs not yet fully supported"@,
            Refusal::MapField => "Map type in struct not yet supported"@,
            Refusal::NoMatchingBuilder { index, type_text } => {
                "Failed to write field "@
                    + text::number(index as int)
                    + " with type "@
                    + type_text
                    + " - no matching builder found"@
            },
            Refusal::ElementPosition { pos } => {
                "Array element row has only one field, got position "@
                    + text::number(pos as int)
            },
            Refusal::Position { pos } => {
                "Position "@
                    + text::number(pos as int)
                    + " is out of range"@
            },
            Refusal::ValueType { pos } => {
                "The value at position "@
                    + text::number(pos as int)
                    + " has another type"@
            },
        }
    }

    /// What the error says.
    pub open spec fn fault(self) -> Fault {
        Fault::IllegalArgument(self.text())
    }
}

impl Failure {
    /// Why the value did not convert, in words.
    pub open spec fn text(self) -> Seq<char> {
        match self {
            Failure::BinaryWidth => {
                "Failed to append binary value: "@
                    + "Invalid argument error: Byte slice does not have the same length as "@
                    + "FixedSizeBinaryBuilder value lengths"@
            },
            Failure::SubSecondTime { millis } => {
                "Time value "@
                    + text::number(millis as int)
                    + " ms has sub-second precision but schema expects seconds only"@
            },
            Failure::TimestampToMicros { epoch_millis } => {
                "Timestamp "@
                    + text::number(epoch_millis as int)
                    + " ms overflows when converting to microseconds"@
            },
            Failure::TimestampToNanos { epoch_millis } => {
                "Timestamp "@
                    + text::number(epoch_millis as int)
                    + " ms overflows when converting to nanoseconds"@
            },
            Failure::DecimalOverflow { precision } => {
                "Decimal does not fit precision "@
                    + text::number(precision as int)
            },
        }
    }

    /// What the error says.
    pub open spec fn fault(self) -> Fault {
        Fault::RowConvertError(self.text())
    }
}

impl Error {
    /// The length of a `BINARY` type exceeds Arrow's maximum, `i32::MAX`.
    pub(crate) fn binary_length(length: usize) -> (e: Error)
        ensures
            e@ == (Refusal::BinaryLength { length }).fault(),
    {
        let mut message = String::new();
        message.append("Binary length ");
        text::append_number(&mut message, length as i128);
        message.append(" exceeds Arrow's maximum (i32::MAX)");
        assert(message@ =~= (Refusal::BinaryLength { length }).text());
        Error::IllegalArgument { message }
    }

    /// A `DECIMAL` column needs the Arrow type `Decimal128`.
    pub(crate) fn not_decimal128(found: &ArrowType) -> (e: Error)
        ensures
            e@ == (Refusal::NotDecimal128 { found: *found }).fault(),
    {
        let mut message = String::new();
        message.append("Expected Decimal128 Arrow type for Decimal, got: ");
        found.append_text(&mut message);
        assert(message@ =~= (Refusal::NotDecimal128 { found: *found }).text());
        Error::IllegalArgument { message }
    }

    /// Negative decimal scales are not supported.
    pub(crate) fn negative_decimal_scale(scale: i8) -> (e: Error)
        ensures
            e@ == (Refusal::NegativeDecimalScale { scale }).fault(),
    {
        let mut message = String::new();
        message.append("Negative decimal scale ");
        text::append_number(&mut message, scale as i128);
        message.append(" is not supported");
        assert(message@ =~= (Refusal::NegativeDecimalScale { scale }).text());
        Error::IllegalArgument { message }
    }

    /// Arrow does not admit this pair of decimal precision and scale.
    pub(crate) fn invalid_decimal(precision: u8, scale: i8, reason: &str) -> (e: Error)
        requires
            reason@ == builders::decimal_error(precision, scale),
        ensures
            e@ == (Refusal::InvalidDecimal { precision, scale }).fault(),
    {
        let mut message = String::new();
        message.append("Invalid decimal precision ");
        text::append_number(&mut message, precision as i128);
        message.append(" or scale ");
        text::append_number(&mut message, scale as i128);
        message.append(": ");
        message.append(reason);
        assert(message@ =~= (Refusal::InvalidDecimal { precision, scale }).text());
        Error::IllegalArgument { message }
    }

    /// The Arrow type does not fit a `TIME` column.
    pub(crate) fn arrow_type_for_time(found: &ArrowType) -> (e: Error)
        ensures
            e@ == (Refusal::ArrowTypeForTime { found: *found }).fault(),
    {
        let mut message = String::new();
        message.append("Unsupported Arrow type for Time: ");
        found.append_text(&mut message);
        assert(message@ =~= (Refusal::ArrowTypeForTime { found: *found }).text());
        Error::IllegalArgument { message }
    }

    /// The Arrow type does not fit a `TIMESTAMP` column.
    pub(crate) fn arrow_type_for_timestamp(found: &ArrowType) -> (e: Error)
        ensures
            e@ == (Refusal::ArrowTypeForTimestamp { found: *found }).fault(),
    {
        let mut message = String::new();
        message.append("Unsupported Arrow type for Timestamp: ");
        found.append_text(&mut message);
        assert(message@ =~= (Refusal::ArrowTypeForTimestamp { found: *found }).text());
        Error::IllegalArgument { message }
    }

    /// The Arrow type does not fit a `TIMESTAMP_LTZ` column.
    pub(crate) fn arrow_type_for_timestamp_ltz(found: &ArrowType) -> (e: Error)
        ensures
            e@ == (Refusal::ArrowTypeForTimestampLtz { found: *found }).fault(),
    {
        let mut message = String::new();
        message.append("Unsupported Arrow type for TimestampLTz: ");
        found.append_text(&mut message);
        assert(message@ =~= (Refusal::ArrowTypeForTimestampLtz { found: *found }).text());
        Error::IllegalArgument { message }
    }

    /// An `ARRAY` column needs the Arrow type `List`.
    pub(crate) fn not_list(found: &ArrowType) -> (e: Error)
        ensures
            e@ == (Refusal::NotList { found: *found }).fault(),
    {
        let mut message = String::new();
        message.append("Expected List Arrow type for Array, got: ");
        found.append_text(&mut message);
        assert(message@ =~= (Refusal::NotList { found: *found }).text());
        Error::IllegalArgument { message }
    }

    /// A `ROW` column needs the Arrow type `Struct`.
    pub(crate) fn not_struct(found: &ArrowType) -> (e: Error)
        ensures
            e@ == (Refusal::NotStruct { found: *found }).fault(),
    {
        let mut message = String::new();
        message.append("Expected Struct Arrow type for Row, got: ");
        found.append_text(&mut message);
        assert(message@ =~= (Refusal::NotStruct { found: *found }).text());
        Error::IllegalArgument { message }
    }

    /// Columns of this logical type are not implemented.
    pub(crate) fn unsupported_column(fluss: &DataType) -> (e: Error)
        ensures
            e@ == (Refusal::UnsupportedColumn { fluss: *fluss }).fault(),
    {
        let mut message = String::new();
        message.append("Unsupported Fluss DataType (not yet implemented): ");
        fluss.append_text(&mut message);
        assert(message@ =~= (Refusal::UnsupportedColumn { fluss: *fluss }).text());
        Error::IllegalArgument { message }
    }

    /// No list builder holds elements of this Arrow type.
    pub(crate) fn list_element_type(found: &ArrowType) -> (e: Error)
        ensures
            e@ == (Refusal::ListElementType { found: *found }).fault(),
    {
        let mut message = String::new();
        message.append("Unsupported Arrow type for List element: ");
        found.append_text(&mut message);
        assert(message@ =~= (Refusal::ListElementType { found: *found }).text());
        Error::IllegalArgument { message }
    }

    /// No builder is made for a field of this Arrow type in a struct that is a list's element.
    pub(crate) fn struct_field_type(found: &ArrowType) -> (e: Error)
        ensures
            e@ == (Refusal::StructFieldType { found: *found }).fault(),
    {
        let mut message = String::new();
        message.append("Unsupported Arrow type for struct field: ");
        found.append_text(&mut message);
        assert(message@ =~= (Refusal::StructFieldType { found: *found }).text());
        Error::IllegalArgument { message }
    }

    /// A list inside a struct has no boxed builder.
    pub(crate) fn nested_list() -> (e: Error)
        ensures
            e@ == Refusal::NestedList.fault(),
    {
        let mut message = String::new();
        message.append("Nested List type should use create_list_builder");
        assert(message@ =~= Refusal::NestedList.text());
        Error::IllegalArgument { message }
    }

    /// A struct inside a struct has no boxed builder.
    pub(crate) fn nested_struct() -> (e: Error)
        ensures
            e@ == Refusal::NestedStruct.fault(),
    {
        let mut message = String::new();
        message.append("Nested Struct type should be handled separately");
        assert(message@ =~= Refusal::NestedStruct.text());
        Error::IllegalArgument { message }
    }

    /// No boxed builder exists for this Arrow type.
    pub(crate) fn boxed_builder_type(found: &ArrowType) -> (e: Error)
        ensures
            e@ == (Refusal::BoxedBuilderType { found: *found }).fault(),
    {
        let mut message = String::new();
        message.append("Unsupported Arrow type for boxed builder: ");
        found.append_text(&mut message);
        assert(message@ =~= (Refusal::BoxedBuilderType { found: *found }).text());
        Error::IllegalArgument { message }
    }

    /// A null of a `MAP` field cannot be appended to a struct.
    pub(crate) fn map_field_null() -> (e: Error)
        ensures
            e@ == Refusal::MapFieldNull.fault(),
    {
        let mut message = String::new();
        message.append("Map type in struct not supported");
        assert(message@ =~= Refusal::MapFieldNull.text());
        Error::IllegalArgument { message }
    }

    /// The struct field has no builder that takes a null of its data type.
    pub(crate) fn field_null(index: usize, type_text: &str) -> (e: Error)
        ensures
            e@ == (Refusal::FieldNull { index, type_text: type_text@ }).fault(),
    {
        let mut message = String::new();
        message.append("Failed to append null to field ");
        text::append_number(&mut message, index as i128);
        message.append(" with type ");
        message.append(type_text);
        assert(message@ =~= (Refusal::FieldNull { index, type_text: type_text@ }).text());
        Error::IllegalArgument { message }
    }

    /// A decimal builder sits under a struct field whose data type is not `DECIMAL`.
    pub(crate) fn field_not_decimal() -> (e: Error)
        ensures
            e@ == Refusal::FieldNotDecimal.fault(),
    {
        let mut message = String::new();
        message.append("Expected Decimal type");
        assert(message@ =~= Refusal::FieldNotDecimal.text());
        Error::IllegalArgument { message }
    }

    /// An array inside a struct is not supported.
    pub(crate) fn array_field() -> (e: Error)
        ensures
            e@ == Refusal::ArrayField.fault(),
    {
        let mut message = String::new();
        message.append("Nested arrays in structs not yet fully supported");
        assert(message@ =~= Refusal::ArrayField.text());
        Error::IllegalArgument { message }
    }

    /// A row inside a struct is not supported.
    pub(crate) fn row_field() -> (e: Error)
        ensures
            e@ == Refusal::RowField.fault(),
    {
        let mut message = String::new();
        message.append("Nested structs not yet fully supported");
        assert(message@ =~= Refusal::RowField.text());
        Error::IllegalArgument { message }
    }

    /// A map inside a struct is not supported.
    pub(crate) fn map_field() -> (e: Error)
        ensures
            e@ == Refusal::MapField.fault(),
    {
        let mut message = String::new();
        message.append("Map type in struct not yet supported");
        assert(message@ =~= Refusal::MapField.text());
        Error::IllegalArgument { message }
    }

    /// The struct field has no builder that takes a value of its data type.
    pub(crate) fn no_matching_builder(index: usize, type_text: &str) -> (e: Error)
        ensures
            e@ == (Refusal::NoMatchingBuilder { index, type_text: type_text@ }).fault(),
    {
        let mut message = String::new();
        message.append("Failed to write field ");
        text::append_number(&mut message, index as i128);
        message.append(" with type ");
        message.append(type_text);
        message.append(" - no matching builder found");
        assert(message@ =~= (Refusal::NoMatchingBuilder { index, type_text: type_text@ }).text());
        Error::IllegalArgument { message }
    }

    /// An array element, taken as a row, has the one position zero.
    pub(crate) fn element_position(pos: usize) -> (e: Error)
        ensures
            e@ == (Refusal::ElementPosition { pos }).fault(),
    {
        let mut message = String::new();
        message.append("Array element row has only one field, got position ");
        text::append_number(&mut message, pos as i128);
        assert(message@ =~= (Refusal::ElementPosition { pos }).text());
        Error::IllegalArgument { message }
    }

    /// The position lies outside the row or the array.
    pub(crate) fn position(pos: usize) -> (e: Error)
        ensures
            e@ == (Refusal::Position { pos }).fault(),
    {
        let mut message = String::new();
        message.append("Position ");
        text::append_number(&mut message, pos as i128);
        message.append(" is out of range");
        assert(message@ =~= (Refusal::Position { pos }).text());
        Error::IllegalArgument { message }
    }

    /// The value at the position is not of the type that was asked for.
    pub(crate) fn value_type(pos: usize) -> (e: Error)
        ensures
            e@ == (Refusal::ValueType { pos }).fault(),
    {
        let mut message = String::new();
        message.append("The value at position ");
        text::append_number(&mut message, pos as i128);
        message.append(" has another type");
        assert(message@ =~= (Refusal::ValueType { pos }).text());
        Error::IllegalArgument { message }
    }

    /// The number of bytes differs from the width of the column.
    pub(crate) fn binary_width() -> (e: Error)
        ensures
            e@ == Failure::BinaryWidth.fault(),
    {
        let mut message = String::new();
        message.append("Failed to append binary value: ");
        message.append("Invalid argument error: Byte slice does not have the same length as ");
        message.append("FixedSizeBinaryBuilder value lengths");
        assert(message@ =~= Failure::BinaryWidth.text());
        Error::RowConvertError { message }
    }

    /// The time has sub-second precision, and the column holds whole seconds.
    pub(crate) fn sub_second_time(millis: i32) -> (e: Error)
        ensures
            e@ == (Failure::SubSecondTime { millis }).fault(),
    {
        let mut message = String::new();
        message.append("Time value ");
        text::append_number(&mut message, millis as i128);
        message.append(" ms has sub-second precision but schema expects seconds only");
        assert(message@ =~= (Failure::SubSecondTime { millis }).text());
        Error::RowConvertError { message }
    }

    /// The timestamp overflows when it is converted to microseconds.
    pub(crate) fn timestamp_to_micros(epoch_millis: i64) -> (e: Error)
        ensures
            e@ == (Failure::TimestampToMicros { epoch_millis }).fault(),
    {
        let mut message = String::new();
        message.append("Timestamp ");
        text::append_number(&mut message, epoch_millis as i128);
        message.append(" ms overflows when converting to microseconds");
        assert(message@ =~= (Failure::TimestampToMicros { epoch_millis }).text());
        Error::RowConvertError { message }
    }

    /// The timestamp overflows when it is converted to nanoseconds.
    pub(crate) fn timestamp_to_nanos(epoch_millis: i64) -> (e: Error)
        ensures
            e@ == (Failure::TimestampToNanos { epoch_millis }).fault(),
    {
        let mut message = String::new();
        message.append("Timestamp ");
        text::append_number(&mut message, epoch_millis as i128);
        message.append(" ms overflows when converting to nanoseconds");
        assert(message@ =~= (Failure::TimestampToNanos { epoch_millis }).text());
        Error::RowConvertError { message }
    }

    /// The decimal, at the scale of the column, has more digits than the precision of the column,
    /// or lies outside the range of `i128`.
    pub(crate) fn decimal_overflow(precision: u32) -> (e: Error)
        ensures
            e@ == (Failure::DecimalOverflow { precision }).fault(),
    {
        let mut message = String::new();
        message.append("Decimal does not fit precision ");
        text::append_number(&mut message, precision as i128);
        assert(message@ =~= (Failure::DecimalOverflow { precision }).text());
        Error::RowConvertError { message }
    }
}

} // verus!
