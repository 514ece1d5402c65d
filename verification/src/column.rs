//! The model of a column: what a writer was made for, what it holds, and how each operation changes
//! that.
use crate::builders;
use crate::builders::{ArrayContents, Cell, ScalarType, StructField};
use crate::error::{Fault, Refusal};
use crate::kind;
use crate::kind::ScalarKind;
use crate::nested;
use crate::row::{FlussArray, Request, Value};
use crate::scalar;
use crate::types;
use crate::types::{ArrowField, ArrowType, DataType, RowField, TimeUnit, TypeKind, TypeRoot};
use crate::values;
use vstd::prelude::*;

verus! {

/// The number of bytes that room is made for per text or byte string of a column.
pub const VARIABLE_WIDTH_AVG_BYTES: usize = 8;

/// How a field of a struct is written: by its logical type, which prints as `type_text`, and its
/// builder.
pub ghost struct StructColumn {
    pub kind: TypeKind,
    pub ty: ScalarType,
    pub type_text: Seq<char>,
}

/// A field of a struct column.
pub ghost struct FieldShape {
    pub name: Seq<char>,
    pub nullable: bool,
    /// Pairs of a key and a value.
    pub metadata: Set<(Seq<char>, Seq<char>)>,
    pub column: StructColumn,
    /// Whether the builder makes arrays of the very Arrow type that was asked for.
    pub exact: bool,
}

/// What a writer was made for.
#[verifier::ext_equal]
pub ghost enum Shape {
    Scalar { nullable: bool, kind: ScalarKind },
    List { nullable: bool, item: Box<Shape> },
    Struct {
        nullable: bool,
        fields: Seq<FieldShape>,
        /// Whether the Arrow type has no fields beyond these.
        complete: bool,
    },
}

/// What a writer holds.
#[verifier::ext_equal]
pub ghost enum Data {
    Scalar(Seq<Option<Cell>>),
    /// The elements of all rows, where each row ends among them, and whether it is valid.
    List { values: Box<Data>, offsets: Seq<int>, rows: Seq<bool> },
    /// The cells of each field, and whether each row is valid.
    Struct { columns: Seq<Seq<Option<Cell>>>, rows: Seq<bool> },
}

/// The scalar column that a logical type makes of an Arrow type. Only decimals, times and
/// timestamps look at the Arrow type.
pub open spec fn scalar_kind(fluss: DataType, arrow: ArrowType) -> Result<ScalarKind, Fault> {
    match fluss.root {
        TypeRoot::Boolean => Ok(ScalarKind::Bool),
        TypeRoot::TinyInt => Ok(ScalarKind::Int8),
        TypeRoot::SmallInt => Ok(ScalarKind::Int16),
        TypeRoot::Int => Ok(ScalarKind::Int32),
        TypeRoot::BigInt => Ok(ScalarKind::Int64),
        TypeRoot::Float => Ok(ScalarKind::Float32),
        TypeRoot::Double => Ok(ScalarKind::Float64),
        TypeRoot::Char { length } => Ok(ScalarKind::Char { len: length as usize }),
        TypeRoot::String => Ok(ScalarKind::String),
        TypeRoot::Bytes => Ok(ScalarKind::Bytes),
        TypeRoot::Binary { width } => if width <= i32::MAX {
            Ok(ScalarKind::Binary { width: width as i32 })
        } else {
            Err((Refusal::BinaryLength { length: width }).fault())
        },
        TypeRoot::Decimal { precision, scale } => match arrow {
            ArrowType::Decimal128(target_precision, target_scale) => if target_scale < 0 {
                Err((Refusal::NegativeDecimalScale { scale: target_scale }).fault())
            } else {
                Ok(
                    ScalarKind::Decimal128 {
                        src_precision: precision as usize,
                        src_scale: scale as usize,
                        target_precision,
                        target_scale,
                    },
                )
            },
            _ => Err((Refusal::NotDecimal128 { found: arrow }).fault()),
        },
        TypeRoot::Date => Ok(ScalarKind::Date32),
        TypeRoot::Time { .. } => match arrow {
            ArrowType::Time32(TimeUnit::Second) => Ok(ScalarKind::Time32Second),
            ArrowType::Time32(TimeUnit::Millisecond) => Ok(ScalarKind::Time32Millisecond),
            ArrowType::Time64(TimeUnit::Microsecond) => Ok(ScalarKind::Time64Microsecond),
            ArrowType::Time64(TimeUnit::Nanosecond) => Ok(ScalarKind::Time64Nanosecond),
            _ => Err((Refusal::ArrowTypeForTime { found: arrow }).fault()),
        },
        TypeRoot::Timestamp { precision } => match arrow {
            ArrowType::Timestamp(TimeUnit::Second, _) => Ok(
                ScalarKind::TimestampNtzSecond { precision },
            ),
            ArrowType::Timestamp(TimeUnit::Millisecond, _) => Ok(
                ScalarKind::TimestampNtzMillisecond { precision },
            ),
            ArrowType::Timestamp(TimeUnit::Microsecond, _) => Ok(
                ScalarKind::TimestampNtzMicrosecond { precision },
            ),
            ArrowType::Timestamp(TimeUnit::Nanosecond, _) => Ok(
                ScalarKind::TimestampNtzNanosecond { precision },
            ),
            _ => Err((Refusal::ArrowTypeForTimestamp { found: arrow }).fault()),
        },
        TypeRoot::TimestampLTz { precision } => match arrow {
            ArrowType::Timestamp(TimeUnit::Second, _) => Ok(
                ScalarKind::TimestampLtzSecond { precision },
            ),
            ArrowType::Timestamp(TimeUnit::Millisecond, _) => Ok(
                ScalarKind::TimestampLtzMillisecond { precision },
            ),
            ArrowType::Timestamp(TimeUnit::Microsecond, _) => Ok(
                ScalarKind::TimestampLtzMicrosecond { precision },
            ),
            ArrowType::Timestamp(TimeUnit::Nanosecond, _) => Ok(
                ScalarKind::TimestampLtzNanosecond { precision },
            ),
            _ => Err((Refusal::ArrowTypeForTimestampLtz { found: arrow }).fault()),
        },
        TypeRoot::Array { .. } | TypeRoot::Row { .. } | TypeRoot::MapType { .. } => Err(
            (Refusal::UnsupportedColumn { fluss }).fault(),
        ),
    }
}

/// Whether the builder for an Arrow type without children makes arrays of that very type.
pub open spec fn builder_is_exact(arrow: ArrowType) -> bool {
    match arrow {
        ArrowType::LargeUtf8 | ArrowType::LargeBinary => false,
        ArrowType::Timestamp(_, zone) => zone is None,
        _ => true,
    }
}

/// The fields of a struct column, or the error of the first field that has no builder. The fields
/// of the row type and those of the Arrow type are in the same order.
pub open spec fn row_fields(fields: Seq<RowField>, arrow: Seq<ArrowField>) -> Result<
    Seq<FieldShape>,
    Fault,
>
    decreases fields.len(),
{
    if fields.len() == 0 {
        Ok(Seq::empty())
    } else {
        match row_fields(fields.drop_last(), arrow) {
            Ok(shapes) => match nested::boxed_type(arrow[fields.len() - 1].data_type) {
                Ok(ty) => Ok(
                    shapes.push(
                        FieldShape {
                            name: arrow[fields.len() - 1].name@,
                            nullable: arrow[fields.len() - 1].nullable,
                            metadata: types::metadata_pairs(
                                arrow[fields.len() - 1].metadata@,
                            ),
                            column: StructColumn {
                                kind: fields.last().data_type.root.spec_kind(),
                                ty,
                                type_text: fields.last().data_type.text(),
                            },
                            exact: builder_is_exact(arrow[fields.len() - 1].data_type),
                        },
                    ),
                ),
                Err(e) => Err(e),
            },
            Err(e) => Err(e),
        }
    }
}

/// How a value of a field of a struct is read: like a column of some kind, or as a decimal of the
/// given precision and scale.
#[derive(Clone, Copy, Debug, PartialEq, Eq, Structural)]
pub enum FieldReader {
    Kind(ScalarKind),
    Decimal { precision: u32, scale: u32 },
}

impl StructColumn {
    /// Whether the builder takes a null of the logical type. A time is expected in a builder of
    /// 32-bit integers, and a timestamp in one of milliseconds.
    pub open spec fn takes_null(self) -> bool {
        match self.kind {
            TypeKind::Boolean => self.ty is Boolean,
            TypeKind::TinyInt => self.ty is Int8,
            TypeKind::SmallInt => self.ty is Int16,
            TypeKind::Int => self.ty is Int32,
            TypeKind::BigInt => self.ty is Int64,
            TypeKind::Float => self.ty is Float32,
            TypeKind::Double => self.ty is Float64,
            TypeKind::String | TypeKind::Char => self.ty is Utf8,
            TypeKind::Bytes | TypeKind::Binary => self.ty is Binary,
            TypeKind::Date => self.ty is Date32,
            TypeKind::Decimal { .. } => self.ty is Decimal128,
            TypeKind::Time => self.ty is Int32,
            TypeKind::Timestamp | TypeKind::TimestampLTz => self.ty is TimestampMillisecond,
            TypeKind::Array | TypeKind::Row | TypeKind::MapType => false,
        }
    }

    /// What is appended for a null in the field at `index`.
    pub open spec fn null_cell(self, index: usize) -> Result<Option<Cell>, Fault> {
        if self.takes_null() {
            Ok(None)
        } else if self.kind is MapType {
            Err(Refusal::MapFieldNull.fault())
        } else {
            Err((Refusal::FieldNull { index, type_text: self.type_text }).fault())
        }
    }

    /// How a value of the field at `index` is read. The builder decides, except that a decimal has
    /// the precision and the scale of the logical type, and a timestamp is read with local time
    /// zone where the logical type has one.
    pub open spec fn reader(self, index: usize) -> Result<FieldReader, Fault> {
        match self.ty {
            ScalarType::Boolean => Ok(FieldReader::Kind(ScalarKind::Bool)),
            ScalarType::Int8 => Ok(FieldReader::Kind(ScalarKind::Int8)),
            ScalarType::Int16 => Ok(FieldReader::Kind(ScalarKind::Int16)),
            ScalarType::Int32 => Ok(FieldReader::Kind(ScalarKind::Int32)),
            ScalarType::Int64 => Ok(FieldReader::Kind(ScalarKind::Int64)),
            ScalarType::Float32 => Ok(FieldReader::Kind(ScalarKind::Float32)),
            ScalarType::Float64 => Ok(FieldReader::Kind(ScalarKind::Float64)),
            ScalarType::Utf8 => Ok(FieldReader::Kind(ScalarKind::String)),
            ScalarType::Binary => Ok(FieldReader::Kind(ScalarKind::Bytes)),
            ScalarType::Date32 => Ok(FieldReader::Kind(ScalarKind::Date32)),
            ScalarType::Decimal128 { .. } => match self.kind {
                TypeKind::Decimal { precision, scale } => Ok(
                    FieldReader::Decimal { precision, scale },
                ),
                _ => Err(Refusal::FieldNotDecimal.fault()),
            },
            ScalarType::TimestampMillisecond => Ok(
                FieldReader::Kind(
                    if self.kind is TimestampLTz {
                        ScalarKind::TimestampLtzMillisecond { precision: 3 }
                    } else {
                        ScalarKind::TimestampNtzMillisecond { precision: 3 }
                    },
                ),
            ),
            ScalarType::TimestampMicrosecond => Ok(
                FieldReader::Kind(
                    if self.kind is TimestampLTz {
                        ScalarKind::TimestampLtzMicrosecond { precision: 6 }
                    } else {
                        ScalarKind::TimestampNtzMicrosecond { precision: 6 }
                    },
                ),
            ),
            _ => Err(
                (match self.kind {
                    TypeKind::Array => Refusal::ArrayField,
                    TypeKind::Row => Refusal::RowField,
                    TypeKind::MapType => Refusal::MapField,
                    _ => Refusal::NoMatchingBuilder { index, type_text: self.type_text },
                }).fault(),
            ),
        }
    }

    /// What is stored of the value in the field at `index`.
    pub open spec fn value_cell(self, array: FlussArray, index: usize) -> Result<Cell, Fault> {
        match self.reader(index) {
            Ok(FieldReader::Kind(kind)) => kind.cell(array.value_at(index, kind.request())),
            Ok(FieldReader::Decimal { precision, scale }) => match array.value_at(
                index,
                Request::Decimal { precision: precision as usize, scale: scale as usize },
            ) {
                Ok(value) => kind::int_cell(
                    values::spec_decimal_to_unscaled(value->Decimal_0, precision, scale as i64),
                ),
                Err(e) => Err(e),
            },
            Err(e) => Err(e),
        }
    }

    /// What is appended to the field at `index` for the row that the array stands for.
    pub open spec fn cell(self, array: FlussArray, index: usize) -> Result<Option<Cell>, Fault> {
        if array.null_at(index) {
            self.null_cell(index)
        } else {
            match self.value_cell(array, index) {
                Ok(cell) => Ok(Some(cell)),
                Err(e) => Err(e),
            }
        }
    }
}

/// Whether the first `n` fields of a row can be written, or the error of the first that cannot.
pub open spec fn check_fields(fields: Seq<StructColumn>, array: FlussArray, n: nat) -> Result<
    (),
    Fault,
>
    decreases n,
{
    if n == 0 {
        Ok(())
    } else {
        match check_fields(fields, array, (n - 1) as nat) {
            Ok(()) => match fields[n - 1].cell(array, (n - 1) as usize) {
                Ok(_) => Ok(()),
                Err(e) => Err(e),
            },
            Err(e) => Err(e),
        }
    }
}

/// The cells after the fields of a row have been written, one to each column.
pub open spec fn append_fields(
    fields: Seq<StructColumn>,
    columns: Seq<Seq<Option<Cell>>>,
    array: FlussArray,
) -> Seq<Seq<Option<Cell>>> {
    Seq::new(
        columns.len(),
        |i: int| columns[i].push(fields[i].cell(array, i as usize)->Ok_0),
    )
}

/// The number of bytes of the buffers of the first `n` fields.
pub open spec fn fields_bytes(
    fields: Seq<StructColumn>,
    columns: Seq<Seq<Option<Cell>>>,
    n: nat,
) -> nat
    decreases n,
{
    if n == 0 {
        0
    } else {
        fields_bytes(fields, columns, (n - 1) as nat) + fields[n - 1].ty.buffer_bytes(
            columns[n - 1],
        )
    }
}

impl Shape {
    /// What a writer for the logical type and the Arrow type is made for, or why there is none.
    pub open spec fn plan(fluss: DataType, arrow: ArrowType) -> Result<Shape, Fault>
        decreases fluss,
    {
        match fluss.root {
            TypeRoot::Array { element } => match arrow {
                ArrowType::List(item) => match Shape::plan(*element, item.data_type) {
                    Ok(shape) => match nested::element_shape(item.data_type) {
                        Ok(_) => Ok(
                            Shape::List { nullable: fluss.nullable, item: Box::new(shape) },
                        ),
                        Err(e) => Err(e),
                    },
                    Err(e) => Err(e),
                },
                _ => Err((Refusal::NotList { found: arrow }).fault()),
            },
            TypeRoot::Row { fields } => match arrow {
                ArrowType::Struct(arrow_fields) => match row_fields(fields@, arrow_fields@) {
                    Ok(shapes) => Ok(
                        Shape::Struct {
                            nullable: fluss.nullable,
                            fields: shapes,
                            complete: arrow_fields@.len() == fields@.len(),
                        },
                    ),
                    Err(e) => Err(e),
                },
                _ => Err((Refusal::NotStruct { found: arrow }).fault()),
            },
            _ => match scalar_kind(fluss, arrow) {
                Ok(kind) => match kind.spec_ty().admitted() {
                    Ok(_) => Ok(Shape::Scalar { nullable: fluss.nullable, kind }),
                    Err(e) => Err(e),
                },
                Err(e) => Err(e),
            },
        }
    }

    /// Whether a writer for the logical type and the Arrow type can be asked for with this
    /// capacity: every builder that is made for it can, and the Arrow type has a field for every
    /// field of a row.
    pub open spec fn can_create(fluss: DataType, arrow: ArrowType, capacity: usize) -> bool
        decreases fluss,
    {
        match fluss.root {
            TypeRoot::Array { element } => arrow matches ArrowType::List(item) ==> {
                &&& Shape::can_create(*element, item.data_type, capacity)
                &&& Shape::plan(*element, item.data_type) is Ok ==> nested::can_reserve_elements(
                    item.data_type,
                    capacity,
                )
            },
            TypeRoot::Row { fields } => arrow matches ArrowType::Struct(arrow_fields) ==> (forall|
                i: int,
            |
                0 <= i < fields@.len() && row_fields(
                    #[trigger] fields@.take(i),
                    arrow_fields@,
                ) is Ok ==> i < arrow_fields@.len() && (nested::builder_type(
                    arrow_fields@[i].data_type,
                ) matches Some(ty) ==> nested::can_reserve_nested(ty, capacity)
                    && types::distinct_keys(arrow_fields@[i].metadata@))),
            _ => scalar_kind(fluss, arrow) matches Ok(kind) ==> kind.spec_ty().can_reserve(
                capacity,
                capacity * VARIABLE_WIDTH_AVG_BYTES,
            ),
        }
    }

    /// Whether the widths of the values are ones that values can have.
    pub open spec fn wf(self) -> bool
        decreases self,
    {
        match self {
            Shape::Scalar { kind, .. } => kind.wf(),
            Shape::List { item, .. } => item.wf(),
            Shape::Struct { fields, .. } => forall|i: int|
                0 <= i < fields.len() ==> (#[trigger] fields[i]).column.ty.wf(),
        }
    }

    /// Whether the column admits nulls.
    pub open spec fn nullable(self) -> bool {
        match self {
            Shape::Scalar { nullable, .. } => nullable,
            Shape::List { nullable, .. } => nullable,
            Shape::Struct { nullable, .. } => nullable,
        }
    }

    /// What the column asks a row for.
    pub open spec fn request(self) -> Request {
        match self {
            Shape::Scalar { kind, .. } => kind.request(),
            _ => Request::Array,
        }
    }

    /// What a new writer holds.
    pub open spec fn empty(self) -> Data
        decreases self,
    {
        match self {
            Shape::Scalar { .. } => Data::Scalar(Seq::empty()),
            Shape::List { item, .. } => Data::List {
                values: Box::new(item.empty()),
                offsets: seq![0],
                rows: Seq::empty(),
            },
            Shape::Struct { fields, .. } => Data::Struct {
                columns: Seq::new(fields.len(), |i: int| Seq::empty()),
                rows: Seq::empty(),
            },
        }
    }

    /// Whether `data` is what a writer of this shape can hold. The offsets of a list start at zero,
    /// do not fall, and end with the elements. Each field of a struct has a cell per row.
    pub open spec fn holds(self, data: Data) -> bool
        decreases self,
    {
        match (self, data) {
            (Shape::Scalar { kind, .. }, Data::Scalar(_)) => kind.wf(),
            (Shape::List { item, .. }, Data::List { values, offsets, rows }) => {
                &&& item.holds(*values)
                &&& offsets.len() == rows.len() + 1
                &&& offsets[0] == 0
                &&& forall|i: int, j: int|
                    0 <= i <= j < offsets.len() ==> #[trigger] offsets[i] <= #[trigger] offsets[j]
                &&& offsets.last() == values.len()
            },
            (Shape::Struct { fields, .. }, Data::Struct { columns, rows }) => {
                &&& self.wf()
                &&& columns.len() == fields.len()
                &&& forall|i: int|
                    0 <= i < columns.len() ==> (#[trigger] columns[i]).len() == rows.len()
            },
            _ => false,
        }
    }

    /// Whether `data` stays within what 32-bit offsets reach.
    pub open spec fn fits(self, data: Data) -> bool
        decreases self,
    {
        match (self, data) {
            (Shape::Scalar { kind, .. }, Data::Scalar(cells)) => kind.spec_ty().fits(cells),
            (Shape::List { item, .. }, Data::List { values, offsets, .. }) => {
                &&& item.fits(*values)
                &&& offsets.last() <= i32::MAX
            },
            (Shape::Struct { fields, .. }, Data::Struct { columns, .. }) => forall|i: int|
                0 <= i < fields.len() ==> (#[trigger] fields[i]).column.ty.fits(columns[i]),
            _ => false,
        }
    }

    /// The data after a null has been appended. A null in a struct is a null in each of its fields.
    pub open spec fn append_null(self, data: Data) -> Data {
        match data {
            Data::Scalar(cells) => Data::Scalar(cells.push(None)),
            Data::List { values, offsets, rows } => Data::List {
                values,
                offsets: offsets.push(offsets.last()),
                rows: rows.push(false),
            },
            Data::Struct { columns, rows } => Data::Struct {
                columns: columns.map_values(|c: Seq<Option<Cell>>| c.push(None)),
                rows: rows.push(false),
            },
        }
    }

    /// Whether what a row answers can be written, or why not. It does not depend on what has been
    /// written before.
    pub open spec fn check(self, answer: Result<Value, Fault>) -> Result<(), Fault>
        decreases self, 0nat,
    {
        match (self, answer) {
            (_, Err(e)) => Err(e),
            (Shape::Scalar { kind, .. }, Ok(value)) => match kind.convert(value) {
                Ok(_) => Ok(()),
                Err(e) => Err(e),
            },
            (Shape::List { item, .. }, Ok(Value::Array(array))) => item.check_elements(
                array,
                array.elements@.len(),
            ),
            (Shape::Struct { fields, .. }, Ok(Value::Array(array))) => check_fields(
                Shape::struct_columns(fields),
                array,
                fields.len(),
            ),
            _ => arbitrary(),
        }
    }

    /// Whether the first `n` elements of an array can be written, or the error of the first that
    /// cannot. A null always can, whether or not the column admits nulls.
    pub open spec fn check_elements(self, array: FlussArray, n: nat) -> Result<(), Fault>
        decreases self, n,
    {
        if n == 0 {
            Ok(())
        } else {
            let i = (n - 1) as nat;
            match self.check_elements(array, i) {
                Ok(()) => if array.null_at(i as usize) {
                    Ok(())
                } else {
                    self.check(array.value_at(i as usize, self.request()))
                },
                Err(e) => Err(e),
            }
        }
    }

    /// The data after a value that can be written has been appended.
    pub open spec fn append_value(self, data: Data, value: Value) -> Data
        decreases self, 0nat,
    {
        match (self, data, value) {
            (Shape::Scalar { kind, .. }, Data::Scalar(cells), _) => Data::Scalar(
                cells.push(Some(kind.convert(value)->Ok_0)),
            ),
            (
                Shape::List { item, .. },
                Data::List { values, offsets, rows },
                Value::Array(array),
            ) => Data::List {
                values: Box::new(item.append_elements(*values, array, array.elements@.len())),
                offsets: offsets.push(offsets.last() + array.elements@.len()),
                rows: rows.push(true),
            },
            (
                Shape::Struct { fields, .. },
                Data::Struct { columns, rows },
                Value::Array(array),
            ) => Data::Struct {
                columns: append_fields(Shape::struct_columns(fields), columns, array),
                rows: rows.push(true),
            },
            _ => arbitrary(),
        }
    }

    /// The data after the first `n` elements of an array, which can be written, have been appended.
    pub open spec fn append_elements(self, data: Data, array: FlussArray, n: nat) -> Data
        decreases self, n,
    {
        if n == 0 {
            data
        } else {
            let i = (n - 1) as nat;
            let before = self.append_elements(data, array, i);
            if array.null_at(i as usize) {
                self.append_null(before)
            } else {
                self.append_value(before, array.value_at(i as usize, self.request())->Ok_0)
            }
        }
    }

    /// The data after a value that is not null has been written, by what the row answers, and how
    /// that went. Where it fails, nothing is written.
    pub open spec fn write_value(self, data: Data, answer: Result<Value, Fault>) -> (
        Data,
        Result<(), Fault>,
    ) {
        match self.check(answer) {
            Ok(()) => (self.append_value(data, answer->Ok_0), Ok(())),
            Err(e) => (data, Err(e)),
        }
    }

    /// The data after a value has been written, by whether the row has a null there and by what it
    /// answers, and how that went. A column that does not admit nulls does not ask for one.
    pub open spec fn write(
        self,
        data: Data,
        null: Result<bool, Fault>,
        answer: Result<Value, Fault>,
    ) -> (Data, Result<(), Fault>) {
        if self.nullable() {
            match null {
                Ok(true) => (self.append_null(data), Ok(())),
                Ok(false) => self.write_value(data, answer),
                Err(e) => (data, Err(e)),
            }
        } else {
            self.write_value(data, answer)
        }
    }

    /// How the fields of a struct column are written.
    pub open spec fn struct_columns(fields: Seq<FieldShape>) -> Seq<StructColumn> {
        fields.map_values(|f: FieldShape| f.column)
    }

    /// The fields of the array of a struct column.
    pub open spec fn array_fields(fields: Seq<FieldShape>) -> Seq<StructField> {
        fields.map_values(
            |f: FieldShape| StructField {
                    name: f.name,
                    nullable: f.nullable,
                    ty: f.column.ty,
                    metadata: f.metadata,
                },
        )
    }

    /// The array of what a writer holds.
    pub open spec fn array(self, data: Data) -> ArrayContents
        decreases self,
    {
        match (self, data) {
            (Shape::Scalar { kind, .. }, Data::Scalar(cells)) => ArrayContents::Scalar {
                ty: kind.spec_ty(),
                cells,
            },
            (
                Shape::List { item, .. },
                Data::List { values, offsets, rows },
            ) => ArrayContents::List {
                item_nullable: item.nullable(),
                values: Box::new(item.array(*values)),
                offsets,
                rows,
            },
            (
                Shape::Struct { fields, .. },
                Data::Struct { columns, rows },
            ) => ArrayContents::Struct {
                fields: Shape::array_fields(fields),
                columns,
                rows,
            },
            _ => arbitrary(),
        }
    }

    /// Whether `data` stays within what arrays reach: beyond what fits, values of a fixed width
    /// have no more bytes in all than 32-bit positions reach.
    pub open spec fn within_reach(self, data: Data) -> bool
        decreases self,
    {
        match (self, data) {
            (Shape::Scalar { kind, .. }, Data::Scalar(cells)) => builders::within_reach(
                kind.spec_ty(),
                cells,
            ),
            (Shape::List { item, .. }, Data::List { values, .. }) => item.within_reach(*values),
            (Shape::Struct { fields, .. }, Data::Struct { columns, .. }) => forall|i: int|
                0 <= i < fields.len() ==> builders::within_reach(
                    (#[trigger] fields[i]).column.ty,
                    columns[i],
                ),
            _ => false,
        }
    }

    /// Whether Arrow makes an array of what a writer holds. It is within reach. The elements of a
    /// list that does not admit nulls have none. Each field of a struct has a builder of the Arrow
    /// type that was asked for, there are no further fields, and a field that does not admit nulls
    /// has none in a valid row.
    pub open spec fn can_finish(self, data: Data) -> bool
        decreases self,
    {
        match (self, data) {
            (Shape::Scalar { .. }, Data::Scalar(_)) => self.within_reach(data),
            (Shape::List { item, .. }, Data::List { values, .. }) => {
                &&& item.can_finish(*values)
                &&& item.nullable() || !values.has_null()
            },
            (Shape::Struct { fields, complete, .. }, Data::Struct { columns, rows }) => {
                &&& self.within_reach(data)
                &&& complete
                &&& forall|i: int| 0 <= i < fields.len() ==> (#[trigger] fields[i]).exact
                &&& forall|i: int, j: int|
                    0 <= i < fields.len() && 0 <= j < rows.len() && !fields[i].nullable && rows[j]
                        ==> (#[trigger] columns[i][j]) is Some
            },
            _ => false,
        }
    }

    /// The number of bytes of the buffers of a column, each padded by itself. A list has a validity
    /// bitmap whether or not it has a null.
    pub open spec fn buffer_bytes(self, data: Data) -> nat
        decreases self,
    {
        match (self, data) {
            (Shape::Scalar { kind, .. }, Data::Scalar(cells)) => kind.spec_ty().buffer_bytes(cells),
            (Shape::List { item, .. }, Data::List { values, offsets, rows }) => scalar::padded(
                builders::bitmap_bytes(rows.len()),
            ) + scalar::padded(offsets.len() * 4) + item.buffer_bytes(*values),
            (Shape::Struct { fields, .. }, Data::Struct { columns, rows }) => scalar::padded(
                scalar::bitmap_size(rows.contains(false), rows.len()),
            ) + fields_bytes(Shape::struct_columns(fields), columns, fields.len()),
            _ => arbitrary(),
        }
    }
}

impl Data {
    /// The number of rows.
    pub open spec fn len(self) -> nat {
        match self {
            Data::Scalar(cells) => cells.len(),
            Data::List { rows, .. } => rows.len(),
            Data::Struct { rows, .. } => rows.len(),
        }
    }

    /// Whether a row is null.
    pub open spec fn has_null(self) -> bool {
        match self {
            Data::Scalar(cells) => cells.contains(None),
            Data::List { rows, .. } => rows.contains(false),
            Data::Struct { rows, .. } => rows.contains(false),
        }
    }

    /// Whether `self` is what is left of `later` when the ends of its sequences are cut off.
    pub open spec fn is_prefix_of(self, later: Data) -> bool
        decreases self,
    {
        match (self, later) {
            (Data::Scalar(a), Data::Scalar(b)) => a.is_prefix_of(b),
            (
                Data::List { values: v, offsets: o, rows: r },
                Data::List { values: w, offsets: p, rows: s },
            ) => v.is_prefix_of(*w) && o.is_prefix_of(p) && r.is_prefix_of(s),
            (
                Data::Struct { columns: c, rows: r },
                Data::Struct { columns: d, rows: s },
            ) => {
                &&& c.len() == d.len()
                &&& forall|i: int| 0 <= i < c.len() ==> (#[trigger] c[i]).is_prefix_of(d[i])
                &&& r.is_prefix_of(s)
            },
            _ => false,
        }
    }
}

} // verus!
