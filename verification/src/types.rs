//! Logical column types, and the part of an Arrow type that decides how a column is written.
use vstd::prelude::*;

verus! {

/// A logical column type with its nullability.
#[derive(Debug)]
pub struct DataType {
    /// Whether the column admits nulls.
    pub nullable: bool,
    /// What the column holds.
    pub root: TypeRoot,
}

/// What a column of a logical type holds.
#[derive(Debug)]
pub enum TypeRoot {
    Boolean,
    TinyInt,
    SmallInt,
    Int,
    BigInt,
    Float,
    Double,
    Char { length: u32 },
    String,
    Bytes,
    Binary { width: usize },
    Decimal { precision: u32, scale: u32 },
    Date,
    Time { precision: u32 },
    Timestamp { precision: u32 },
    TimestampLTz { precision: u32 },
    Array { element: Box<DataType> },
    Row { fields: Vec<RowField> },
    MapType { key: Box<DataType>, value: Box<DataType> },
}

/// A field of a `ROW` type.
#[derive(Debug)]
pub struct RowField {
    pub name: String,
    pub data_type: DataType,
}

/// A logical type without what is nested in it.
#[derive(Clone, Copy, Debug, PartialEq, Eq, Structural)]
pub enum TypeKind {
    Boolean,
    TinyInt,
    SmallInt,
    Int,
    BigInt,
    Float,
    Double,
    Char,
    String,
    Bytes,
    Binary,
    Decimal { precision: u32, scale: u32 },
    Date,
    Time,
    Timestamp,
    TimestampLTz,
    Array,
    Row,
    MapType,
}

impl TypeRoot {
    /// The type without what is nested in it.
    pub open spec fn spec_kind(self) -> TypeKind {
        match self {
            TypeRoot::Boolean => TypeKind::Boolean,
            TypeRoot::TinyInt => TypeKind::TinyInt,
            TypeRoot::SmallInt => TypeKind::SmallInt,
            TypeRoot::Int => TypeKind::Int,
            TypeRoot::BigInt => TypeKind::BigInt,
            TypeRoot::Float => TypeKind::Float,
            TypeRoot::Double => TypeKind::Double,
            TypeRoot::Char { .. } => TypeKind::Char,
            TypeRoot::String => TypeKind::String,
            TypeRoot::Bytes => TypeKind::Bytes,
            TypeRoot::Binary { .. } => TypeKind::Binary,
            TypeRoot::Decimal { precision, scale } => TypeKind::Decimal { precision, scale },
            TypeRoot::Date => TypeKind::Date,
            TypeRoot::Time { .. } => TypeKind::Time,
            TypeRoot::Timestamp { .. } => TypeKind::Timestamp,
            TypeRoot::TimestampLTz { .. } => TypeKind::TimestampLTz,
            TypeRoot::Array { .. } => TypeKind::Array,
            TypeRoot::Row { .. } => TypeKind::Row,
            TypeRoot::MapType { .. } => TypeKind::MapType,
        }
    }

    /// The type without what is nested in it.
    pub fn kind(&self) -> (k: TypeKind)
        ensures
            k == self.spec_kind(),
    {
        match self {
            TypeRoot::Boolean => TypeKind::Boolean,
            TypeRoot::TinyInt => TypeKind::TinyInt,
            TypeRoot::SmallInt => TypeKind::SmallInt,
            TypeRoot::Int => TypeKind::Int,
            TypeRoot::BigInt => TypeKind::BigInt,
            TypeRoot::Float => TypeKind::Float,
            TypeRoot::Double => TypeKind::Double,
            TypeRoot::Char { .. } => TypeKind::Char,
            TypeRoot::String => TypeKind::String,
            TypeRoot::Bytes => TypeKind::Bytes,
            TypeRoot::Binary { .. } => TypeKind::Binary,
            TypeRoot::Decimal { precision, scale } => TypeKind::Decimal {
                precision: *precision,
                scale: *scale,
            },
            TypeRoot::Date => TypeKind::Date,
            TypeRoot::Time { .. } => TypeKind::Time,
            TypeRoot::Timestamp { .. } => TypeKind::Timestamp,
            TypeRoot::TimestampLTz { .. } => TypeKind::TimestampLTz,
            TypeRoot::Array { .. } => TypeKind::Array,
            TypeRoot::Row { .. } => TypeKind::Row,
            TypeRoot::MapType { .. } => TypeKind::MapType,
        }
    }
}

/// The unit of an Arrow time or timestamp.
#[derive(Clone, Copy, Debug, PartialEq, Eq, Structural)]
pub enum TimeUnit {
    Second,
    Millisecond,
    Microsecond,
    Nanosecond,
}

/// The part of an Arrow data type that decides how a column is written.
#[derive(Debug)]
pub enum ArrowType {
    Boolean,
    Int8,
    Int16,
    Int32,
    Int64,
    Float32,
    Float64,
    Utf8,
    LargeUtf8,
    Binary,
    LargeBinary,
    /// Values of this many bytes each.
    FixedSizeBinary(i32),
    /// A precision and a scale.
    Decimal128(u8, i8),
    Date32,
    Time32(TimeUnit),
    Time64(TimeUnit),
    /// A unit and, where there is one, a time zone.
    Timestamp(TimeUnit, Option<String>),
    List(Box<ArrowField>),
    Struct(Vec<ArrowField>),
    /// The entries, and whether their keys are sorted.
    MapType(Box<ArrowField>, bool),
    /// Any Arrow type that no column is written to, as it prints.
    Other(String),
}

/// A named field of a nested Arrow type.
#[derive(Debug)]
pub struct ArrowField {
    pub name: String,
    pub data_type: ArrowType,
    pub nullable: bool,
    /// Keys and values, in the order in which they print. No key stands there twice.
    pub metadata: Vec<(String, String)>,
}

impl ArrowField {
    /// A field without metadata.
    pub fn new(name: String, data_type: ArrowType, nullable: bool) -> (f: Self)
        ensures
            f.name == name,
            f.data_type == data_type,
            f.nullable == nullable,
            f.metadata@ == Seq::<(String, String)>::empty(),
    {
        ArrowField { name, data_type, nullable, metadata: Vec::new() }
    }
}

/// Whether no key stands in metadata twice.
pub open spec fn distinct_keys(metadata: Seq<(String, String)>) -> bool {
    forall|i: int, j: int|
        0 <= i < j < metadata.len() ==> (#[trigger] metadata[i]).0@ != (#[trigger] metadata[j]).0@
}

/// The pairs of a key and a value that metadata holds.
pub open spec fn metadata_pairs(metadata: Seq<(String, String)>) -> Set<(Seq<char>, Seq<char>)> {
    metadata.map_values(|pair: (String, String)| (pair.0@, pair.1@)).to_set()
}

} // verus!
