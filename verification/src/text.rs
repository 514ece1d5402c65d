//! Numbers and types in words, as they stand in the messages of errors.
//!
//! A type is printed as `{:?}` prints it.
use crate::types::{ArrowField, ArrowType, DataType, RowField, TimeUnit, TypeRoot};
use vstd::prelude::*;

verus! {

/// A digit.
pub open spec fn digit(d: int) -> Seq<char> {
    if d == 0 {
        "0"@
    } else if d == 1 {
        "1"@
    } else if d == 2 {
        "2"@
    } else if d == 3 {
        "3"@
    } else if d == 4 {
        "4"@
    } else if d == 5 {
        "5"@
    } else if d == 6 {
        "6"@
    } else if d == 7 {
        "7"@
    } else if d == 8 {
        "8"@
    } else {
        "9"@
    }
}

/// A number that is not negative, in digits.
pub open spec fn digits(n: int) -> Seq<char>
    decreases n,
{
    if n < 10 {
        digit(n)
    } else {
        digits(n / 10) + digit(n % 10)
    }
}

/// A number in digits.
pub open spec fn number(n: int) -> Seq<char> {
    if n < 0 {
        "-"@ + digits(-n)
    } else {
        digits(n)
    }
}

/// A truth value.
pub open spec fn truth(b: bool) -> Seq<char> {
    if b {
        "true"@
    } else {
        "false"@
    }
}

/// A text as `{:?}` prints it: in quotes, with what does not print escaped.
pub uninterp spec fn quoted(text: Seq<char>) -> Seq<char>;

/// `{:?}` of a `str`: the text in quotes, with what does not print escaped. Nothing is claimed of
/// it but that it depends on the text alone.
#[verifier::external_body]
fn quote(text: &str) -> (r: String)
    ensures
        r@ == quoted(text@),
{
    format!("{text:?}")
}

fn append_digits(s: &mut String, n: i128)
    requires
        0 <= n,
    ensures
        final(s)@ == old(s)@ + digits(n as int),
    decreases n,
{
    if n >= 10 {
        append_digits(s, n / 10);
    }
    let d: i128 = n % 10;
    if d == 0 {
        s.append("0");
    } else if d == 1 {
        s.append("1");
    } else if d == 2 {
        s.append("2");
    } else if d == 3 {
        s.append("3");
    } else if d == 4 {
        s.append("4");
    } else if d == 5 {
        s.append("5");
    } else if d == 6 {
        s.append("6");
    } else if d == 7 {
        s.append("7");
    } else if d == 8 {
        s.append("8");
    } else {
        s.append("9");
    }
    assert(s@ =~= old(s)@ + digits(n as int));
}

/// Appends a number in digits.
pub(crate) fn append_number(s: &mut String, n: i128)
    requires
        i128::MIN < n,
    ensures
        final(s)@ == old(s)@ + number(n as int),
{
    if n < 0 {
        s.append("-");
        append_digits(s, -n);
        assert(s@ =~= old(s)@ + number(n as int));
    } else {
        append_digits(s, n);
    }
}

fn append_truth(s: &mut String, b: bool)
    ensures
        final(s)@ == old(s)@ + truth(b),
{
    if b {
        s.append("true");
    } else {
        s.append("false");
    }
}

fn append_quoted(s: &mut String, text: &str)
    ensures
        final(s)@ == old(s)@ + quoted(text@),
{
    s.append(quote(text).as_str());
}

impl TimeUnit {
    /// The name of the unit.
    pub open spec fn text(self) -> Seq<char> {
        match self {
            TimeUnit::Second => "Second"@,
            TimeUnit::Millisecond => "Millisecond"@,
            TimeUnit::Microsecond => "Microsecond"@,
            TimeUnit::Nanosecond => "Nanosecond"@,
        }
    }

    fn append_text(self, s: &mut String)
        ensures
            final(s)@ == old(s)@ + self.text(),
    {
        match self {
            TimeUnit::Second => s.append("Second"),
            TimeUnit::Millisecond => s.append("Millisecond"),
            TimeUnit::Microsecond => s.append("Microsecond"),
            TimeUnit::Nanosecond => s.append("Nanosecond"),
        }
    }
}

/// A time zone, where there is one.
pub open spec fn zone_text(zone: Option<String>) -> Seq<char> {
    match zone {
        Some(zone) => "Some("@ + quoted(zone@) + ")"@,
        None => "None"@,
    }
}

fn append_zone(s: &mut String, zone: &Option<String>)
    ensures
        final(s)@ == old(s)@ + zone_text(*zone),
{
    match zone {
        Some(zone) => {
            s.append("Some(");
            append_quoted(s, zone.as_str());
            s.append(")");
            assert(s@ =~= old(s)@ + ("Some("@ + quoted(zone@) + ")"@));
        },
        None => s.append("None"),
    }
}

/// The first `n` keys and values, in braces but for the closing one.
pub open spec fn metadata_text(metadata: Seq<(String, String)>, n: nat) -> Seq<char>
    decreases n,
{
    if n == 0 {
        "{"@
    } else {
        metadata_text(metadata, (n - 1) as nat) + (if n == 1 {
            Seq::empty()
        } else {
            ", "@
        }) + quoted(metadata[n - 1].0@) + ": "@ + quoted(metadata[n - 1].1@)
    }
}

fn append_metadata(s: &mut String, metadata: &Vec<(String, String)>)
    ensures
        final(s)@ == old(s)@ + (metadata_text(metadata@, metadata@.len()) + "}"@),
{
    s.append("{");
    let mut i: usize = 0;
    while i < metadata.len()
        invariant
            i <= metadata@.len(),
            s@ == old(s)@ + metadata_text(metadata@, i as nat),
        decreases metadata@.len() - i,
    {
        if i > 0 {
            s.append(", ");
        }
        append_quoted(s, metadata[i].0.as_str());
        s.append(": ");
        append_quoted(s, metadata[i].1.as_str());
        i = i + 1;
        assert(s@ =~= old(s)@ + metadata_text(metadata@, i as nat));
    }
    s.append("}");
    assert(s@ =~= old(s)@ + (metadata_text(metadata@, metadata@.len()) + "}"@));
}

impl ArrowType {
    /// The whole type, with what is nested in it.
    pub open spec fn text(self) -> Seq<char>
        decreases self, 0nat,
    {
        match self {
            ArrowType::Boolean => "Boolean"@,
            ArrowType::Int8 => "Int8"@,
            ArrowType::Int16 => "Int16"@,
            ArrowType::Int32 => "Int32"@,
            ArrowType::Int64 => "Int64"@,
            ArrowType::Float32 => "Float32"@,
            ArrowType::Float64 => "Float64"@,
            ArrowType::Utf8 => "Utf8"@,
            ArrowType::LargeUtf8 => "LargeUtf8"@,
            ArrowType::Binary => "Binary"@,
            ArrowType::LargeBinary => "LargeBinary"@,
            ArrowType::FixedSizeBinary(width) => "FixedSizeBinary("@ + number(width as int) + ")"@,
            ArrowType::Decimal128(precision, scale) => "Decimal128("@ + number(precision as int)
                + ", "@ + number(scale as int) + ")"@,
            ArrowType::Date32 => "Date32"@,
            ArrowType::Time32(unit) => "Time32("@ + unit.text() + ")"@,
            ArrowType::Time64(unit) => "Time64("@ + unit.text() + ")"@,
            ArrowType::Timestamp(unit, zone) => "Timestamp("@ + unit.text() + ", "@ + zone_text(
                zone,
            ) + ")"@,
            ArrowType::List(item) => "List("@ + item.text() + ")"@,
            ArrowType::Struct(fields) => "Struct(["@ + ArrowField::list_text(
                fields@,
                fields@.len(),
            ) + "])"@,
            ArrowType::MapType(entries, sorted) => "Map("@ + entries.text() + ", "@ + truth(sorted)
                + ")"@,
            ArrowType::Other(text) => text@,
        }
    }

    /// Appends the whole type, with what is nested in it.
    pub(crate) fn append_text(&self, s: &mut String)
        ensures
            final(s)@ == old(s)@ + self.text(),
        decreases *self, 0nat,
    {
        match self {
            ArrowType::Boolean => s.append("Boolean"),
            ArrowType::Int8 => s.append("Int8"),
            ArrowType::Int16 => s.append("Int16"),
            ArrowType::Int32 => s.append("Int32"),
            ArrowType::Int64 => s.append("Int64"),
            ArrowType::Float32 => s.append("Float32"),
            ArrowType::Float64 => s.append("Float64"),
            ArrowType::Utf8 => s.append("Utf8"),
            ArrowType::LargeUtf8 => s.append("LargeUtf8"),
            ArrowType::Binary => s.append("Binary"),
            ArrowType::LargeBinary => s.append("LargeBinary"),
            ArrowType::FixedSizeBinary(width) => {
                s.append("FixedSizeBinary(");
                append_number(s, *width as i128);
                s.append(")");
            },
            ArrowType::Decimal128(precision, scale) => {
                s.append("Decimal128(");
                append_number(s, *precision as i128);
                s.append(", ");
                append_number(s, *scale as i128);
                s.append(")");
            },
            ArrowType::Date32 => s.append("Date32"),
            ArrowType::Time32(unit) => {
                s.append("Time32(");
                unit.append_text(s);
                s.append(")");
            },
            ArrowType::Time64(unit) => {
                s.append("Time64(");
                unit.append_text(s);
                s.append(")");
            },
            ArrowType::Timestamp(unit, zone) => {
                s.append("Timestamp(");
                unit.append_text(s);
                s.append(", ");
                append_zone(s, zone);
                s.append(")");
            },
            ArrowType::List(item) => {
                s.append("List(");
                item.append_text(s);
                s.append(")");
            },
            ArrowType::Struct(fields) => {
                s.append("Struct([");
                ArrowField::append_list(fields, fields.len(), s);
                s.append("])");
            },
            ArrowType::MapType(entries, sorted) => {
                s.append("Map(");
                entries.append_text(s);
                s.append(", ");
                append_truth(s, *sorted);
                s.append(")");
            },
            ArrowType::Other(text) => s.append(text.as_str()),
        }
        assert(s@ =~= old(s)@ + self.text());
    }
}

impl ArrowField {
    /// The field. The name is left out where it is the usual one of the elements of a list, and so
    /// are the nullability of a field that is not nullable and metadata that is not there.
    pub open spec fn text(self) -> Seq<char>
        decreases self, 0nat,
    {
        "Field { "@ + (if self.name@ == "item"@ {
            Seq::empty()
        } else {
            "name: "@ + quoted(self.name@) + ", "@
        }) + "data_type: "@ + self.data_type.text() + (if self.nullable {
            ", nullable: true"@
        } else {
            Seq::empty()
        }) + (if self.metadata@.len() == 0 {
            Seq::empty()
        } else {
            ", metadata: "@ + (metadata_text(self.metadata@, self.metadata@.len()) + "}"@)
        }) + " }"@
    }

    /// The first `n` fields.
    pub open spec fn list_text(fields: Seq<ArrowField>, n: nat) -> Seq<char>
        decreases fields, n,
    {
        if 0 < n <= fields.len() {
            ArrowField::list_text(fields, (n - 1) as nat) + (if n == 1 {
                Seq::empty()
            } else {
                ", "@
            }) + fields[n - 1].text()
        } else {
            Seq::empty()
        }
    }

    fn append_text(&self, s: &mut String)
        ensures
            final(s)@ == old(s)@ + self.text(),
        decreases *self, 0nat,
    {
        s.append("Field { ");
        let usual = "item".to_owned();
        if !(self.name == usual) {
            s.append("name: ");
            append_quoted(s, self.name.as_str());
            s.append(", ");
        }
        s.append("data_type: ");
        self.data_type.append_text(s);
        if self.nullable {
            s.append(", nullable: true");
        }
        if self.metadata.len() > 0 {
            s.append(", metadata: ");
            append_metadata(s, &self.metadata);
        }
        s.append(" }");
        assert(s@ =~= old(s)@ + self.text());
    }

    fn append_list(fields: &Vec<ArrowField>, n: usize, s: &mut String)
        requires
            n <= fields@.len(),
        ensures
            final(s)@ == old(s)@ + ArrowField::list_text(fields@, n as nat),
        decreases fields@, n as nat,
    {
        if n > 0 {
            ArrowField::append_list(fields, n - 1, s);
            if n > 1 {
                s.append(", ");
            }
            fields[n - 1].append_text(s);
        }
        assert(s@ =~= old(s)@ + ArrowField::list_text(fields@, n as nat));
    }
}

impl DataType {
    /// The whole type, with what is nested in it.
    pub open spec fn text(self) -> Seq<char>
        decreases self, 0nat,
    {
        "DataType { nullable: "@ + truth(self.nullable) + ", root: "@ + self.root.text() + " }"@
    }

    /// Appends the whole type, with what is nested in it.
    pub(crate) fn append_text(&self, s: &mut String)
        ensures
            final(s)@ == old(s)@ + self.text(),
        decreases *self, 0nat,
    {
        s.append("DataType { nullable: ");
        append_truth(s, self.nullable);
        s.append(", root: ");
        self.root.append_text(s);
        s.append(" }");
        assert(s@ =~= old(s)@ + self.text());
    }
}

impl TypeRoot {
    /// What the type holds, with what is nested in it.
    pub open spec fn text(self) -> Seq<char>
        decreases self, 0nat,
    {
        match self {
            TypeRoot::Boolean => "Boolean"@,
            TypeRoot::TinyInt => "TinyInt"@,
            TypeRoot::SmallInt => "SmallInt"@,
            TypeRoot::Int => "Int"@,
            TypeRoot::BigInt => "BigInt"@,
            TypeRoot::Float => "Float"@,
            TypeRoot::Double => "Double"@,
            TypeRoot::Char { length } => "Char { length: "@ + number(length as int) + " }"@,
            TypeRoot::String => "String"@,
            TypeRoot::Bytes => "Bytes"@,
            TypeRoot::Binary { width } => "Binary { width: "@ + number(width as int) + " }"@,
            TypeRoot::Decimal { precision, scale } => "Decimal { precision: "@ + number(
                precision as int,
            ) + ", scale: "@ + number(scale as int) + " }"@,
            TypeRoot::Date => "Date"@,
            TypeRoot::Time { precision } => "Time { precision: "@ + number(precision as int)
                + " }"@,
            TypeRoot::Timestamp { precision } => "Timestamp { precision: "@ + number(
                precision as int,
            ) + " }"@,
            TypeRoot::TimestampLTz { precision } => "TimestampLTz { precision: "@ + number(
                precision as int,
            ) + " }"@,
            TypeRoot::Array { element } => "Array { element: "@ + element.text() + " }"@,
            TypeRoot::Row { fields } => "Row { fields: ["@ + RowField::list_text(
                fields@,
                fields@.len(),
            ) + "] }"@,
            TypeRoot::MapType { key, value } => "MapType { key: "@ + key.text() + ", value: "@
                + value.text() + " }"@,
        }
    }

    fn append_text(&self, s: &mut String)
        ensures
            final(s)@ == old(s)@ + self.text(),
        decreases *self, 0nat,
    {
        match self {
            TypeRoot::Boolean => s.append("Boolean"),
            TypeRoot::TinyInt => s.append("TinyInt"),
            TypeRoot::SmallInt => s.append("SmallInt"),
            TypeRoot::Int => s.append("Int"),
            TypeRoot::BigInt => s.append("BigInt"),
            TypeRoot::Float => s.append("Float"),
            TypeRoot::Double => s.append("Double"),
            TypeRoot::Char { length } => {
                s.append("Char { length: ");
                append_number(s, *length as i128);
                s.append(" }");
            },
            TypeRoot::String => s.append("String"),
            TypeRoot::Bytes => s.append("Bytes"),
            TypeRoot::Binary { width } => {
                s.append("Binary { width: ");
                append_number(s, *width as i128);
                s.append(" }");
            },
            TypeRoot::Decimal { precision, scale } => {
                s.append("Decimal { precision: ");
                append_number(s, *precision as i128);
                s.append(", scale: ");
                append_number(s, *scale as i128);
                s.append(" }");
            },
            TypeRoot::Date => s.append("Date"),
            TypeRoot::Time { precision } => {
                s.append("Time { precision: ");
                append_number(s, *precision as i128);
                s.append(" }");
            },
            TypeRoot::Timestamp { precision } => {
                s.append("Timestamp { precision: ");
                append_number(s, *precision as i128);
                s.append(" }");
            },
            TypeRoot::TimestampLTz { precision } => {
                s.append("TimestampLTz { precision: ");
                append_number(s, *precision as i128);
                s.append(" }");
            },
            TypeRoot::Array { element } => {
                s.append("Array { element: ");
                element.append_text(s);
                s.append(" }");
            },
            TypeRoot::Row { fields } => {
                s.append("Row { fields: [");
                RowField::append_list(fields, fields.len(), s);
                s.append("] }");
            },
            TypeRoot::MapType { key, value } => {
                s.append("MapType { key: ");
                key.append_text(s);
                s.append(", value: ");
                value.append_text(s);
                s.append(" }");
            },
        }
        assert(s@ =~= old(s)@ + self.text());
    }
}

impl RowField {
    /// The field.
    pub open spec fn text(self) -> Seq<char>
        decreases self, 0nat,
    {
        "RowField { name: "@ + quoted(self.name@) + ", data_type: "@ + self.data_type.text()
            + " }"@
    }

    /// The first `n` fields.
    pub open spec fn list_text(fields: Seq<RowField>, n: nat) -> Seq<char>
        decreases fields, n,
    {
        if 0 < n <= fields.len() {
            RowField::list_text(fields, (n - 1) as nat) + (if n == 1 {
                Seq::empty()
            } else {
                ", "@
            }) + fields[n - 1].text()
        } else {
            Seq::empty()
        }
    }

    fn append_text(&self, s: &mut String)
        ensures
            final(s)@ == old(s)@ + self.text(),
        decreases *self, 0nat,
    {
        s.append("RowField { name: ");
        append_quoted(s, self.name.as_str());
        s.append(", data_type: ");
        self.data_type.append_text(s);
        s.append(" }");
        assert(s@ =~= old(s)@ + self.text());
    }

    fn append_list(fields: &Vec<RowField>, n: usize, s: &mut String)
        requires
            n <= fields@.len(),
        ensures
            final(s)@ == old(s)@ + RowField::list_text(fields@, n as nat),
        decreases fields@, n as nat,
    {
        if n > 0 {
            RowField::append_list(fields, n - 1, s);
            if n > 1 {
                s.append(", ");
            }
            fields[n - 1].append_text(s);
        }
        assert(s@ =~= old(s)@ + RowField::list_text(fields@, n as nat));
    }
}

} // verus!
