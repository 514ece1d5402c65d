//! Writers that read one column of rows and append it to Arrow builders.
use crate::builders;
use crate::builders::{ArrayContents, BoxedBuilder, BuilderShape, Cell, ScalarType};
use crate::column;
use crate::column::{Data, FieldShape, Shape, StructColumn, VARIABLE_WIDTH_AVG_BYTES};
use crate::error;
use crate::error::{Error, Fault};
use crate::growth;
use crate::kind;
use crate::kind::ScalarKind;
use crate::nested;
use crate::nested::{
    append_null_to_builder, create_boxed_builder, create_list_builder, BuilderForm,
};
use crate::row::{ArrayElementRow, FlussArray, InternalRow};
use crate::scalar;
use crate::struct_writer;
use crate::struct_writer::{
    append_null_row, check_struct_fields, FieldWriter, write_fluss_array_to_struct_builder,
};
use crate::types;
use crate::types::{ArrowField, ArrowType, DataType, RowField, TimeUnit, TypeRoot};
use arrow::array::{ArrayData, StructBuilder};
use arrow_schema::Field;
use vstd::prelude::*;

verus! {

/// A writer that reads one column of rows and appends it to Arrow builders.
pub struct ColumnWriter {
    pos: usize,
    nullable: bool,
    inner: TypedWriter,
}

/// The builders of a column.
enum TypedWriter {
    Scalar { kind: ScalarKind, builder: BoxedBuilder },
    /// The elements of all rows, where each row ends among them, and whether it is valid.
    List { element_writer: Box<ColumnWriter>, offsets: Vec<i32>, validity: Vec<bool> },
    Struct(StructWriter),
}

/// The builders of a struct column.
struct StructWriter {
    columns: Vec<FieldWriter>,
    types: Vec<ScalarType>,
    builder: StructBuilder,
    /// Takes the place of a field's builder while that is appended to.
    spare: BoxedBuilder,
    fields: Ghost<Seq<FieldShape>>,
    complete: Ghost<bool>,
}

impl StructWriter {
    /// Whether the builders are those of the fields.
    spec fn wf(self) -> bool {
        &&& builders::builder_shape(self.spare) is Scalar
        &&& struct_writer::viewed(self.columns@) == Shape::struct_columns(self.fields@)
        &&& self.types@ == struct_writer::viewed(self.columns@).map_values(
            |c: StructColumn| c.ty,
        )
        &&& struct_writer::struct_wf(
            struct_writer::viewed(self.columns@),
            builders::struct_state(self.builder),
        )
        &&& builders::struct_state(self.builder).fields == Shape::array_fields(self.fields@)
    }

    /// Empty builders for the fields of a row, by the fields of the Arrow type, which are in the
    /// same order.
    fn create(
        fields: &Vec<RowField>,
        arrow_fields: &Vec<ArrowField>,
        capacity: usize,
    ) -> (r: Result<Self, Error>)
        requires
            forall|i: int|
                0 <= i < fields@.len() && column::row_fields(
                    #[trigger] fields@.take(i),
                    arrow_fields@,
                ) is Ok ==> i < arrow_fields@.len() && (nested::builder_type(
                    arrow_fields@[i].data_type,
                ) matches Some(ty) ==> nested::can_reserve_nested(ty, capacity)
                    && types::distinct_keys(arrow_fields@[i].metadata@)),
        ensures
            match r {
                Ok(s) => {
                    &&& s.wf()
                    &&& column::row_fields(fields@, arrow_fields@) == Ok::<Seq<FieldShape>, Fault>(
                        s.fields@,
                    )
                    &&& s.complete@ == (arrow_fields@.len() == fields@.len())
                    &&& forall|i: int|
                        0 <= i < s.fields@.len() ==> (#[trigger] s.fields@[i]).column.ty.wf()
                    &&& builders::struct_state(s.builder).rows == Seq::<bool>::empty()
                    &&& builders::struct_state(s.builder).cells == Seq::new(
                        s.fields@.len(),
                        |i: int| Seq::<Option<Cell>>::empty(),
                    )
                },
                Err(e) => column::row_fields(fields@, arrow_fields@) == Err::<
                    Seq<FieldShape>,
                    Fault,
                >(e@),
            },
    {
        let mut columns: Vec<FieldWriter> = Vec::new();
        let mut types: Vec<ScalarType> = Vec::new();
        let mut struct_fields: Vec<Field> = Vec::new();
        let mut field_builders: Vec<BoxedBuilder> = Vec::new();
        let ghost mut shapes: Seq<FieldShape> = Seq::empty();
        let mut i: usize = 0;
        while i < fields.len()
            invariant
                i <= fields@.len(),
                column::row_fields(fields@.take(i as int), arrow_fields@) == Ok::<
                    Seq<FieldShape>,
                    Fault,
                >(shapes),
                struct_writer::viewed(columns@) == Shape::struct_columns(shapes),
                columns@.len() == i,
                types@ == struct_writer::viewed(columns@).map_values(|c: StructColumn| c.ty),
                shapes.len() == i,
                forall|j: int| 0 <= j < i ==> (#[trigger] shapes[j]).column.ty.wf(),
                struct_fields@.len() == i,
                forall|j: int|
                    0 <= j < i ==> (#[trigger] builders::field_parts(struct_fields@[j]))
                        == Shape::array_fields(shapes)[j],
                field_builders@.len() == i,
                forall|j: int|
                    0 <= j < i ==> {
                        &&& (#[trigger] builders::builder_shape(field_builders@[j]))
                            == BuilderShape::Scalar(columns@[j].ty)
                        &&& builders::builder_cells(field_builders@[j]) == Seq::<
                            Option<Cell>,
                        >::empty()
                    },
                forall|i: int|
                    0 <= i < fields@.len() && column::row_fields(
                        #[trigger] fields@.take(i),
                        arrow_fields@,
                    ) is Ok ==> i < arrow_fields@.len() && (nested::builder_type(
                        arrow_fields@[i].data_type,
                    ) matches Some(ty) ==> nested::can_reserve_nested(ty, capacity)
                        && types::distinct_keys(arrow_fields@[i].metadata@)),
            decreases fields@.len() - i,
        {
            proof {
                assert(fields@.take(i + 1).drop_last() =~= fields@.take(i as int));
                assert(fields@.take(i as int).len() == i);
            }
            let arrow_field = &arrow_fields[i];
            match create_boxed_builder(&arrow_field.data_type, capacity) {
                Ok((ty, b)) => {
                    let mut type_text = String::new();
                    fields[i].data_type.append_text(&mut type_text);
                    assert(type_text@ =~= fields[i as int].data_type.text());
                    let column = FieldWriter {
                        kind: fields[i].data_type.root.kind(),
                        ty,
                        type_text,
                    };
                    struct_fields.push(
                        builders::field_for(
                            arrow_field.name.as_str(),
                            &b,
                            arrow_field.nullable,
                            &arrow_field.metadata,
                        ),
                    );
                    field_builders.push(b);
                    types.push(ty);
                    proof {
                        shapes = shapes.push(
                            FieldShape {
                                name: arrow_field.name@,
                                nullable: arrow_field.nullable,
                                metadata: types::metadata_pairs(arrow_field.metadata@),
                                column: column@,
                                exact: column::builder_is_exact(arrow_field.data_type),
                            },
                        );
                    }
                    let ghost viewed = struct_writer::viewed(columns@).push(column@);
                    columns.push(column);
                    assert(struct_writer::viewed(columns@) =~= viewed);
                    assert(Shape::struct_columns(shapes) =~= viewed);
                },
                Err(e) => {
                    proof {
                        lemma_first_row_field_error(fields@, arrow_fields@, i as int);
                    }
                    return Err(e);
                },
            }
            i = i + 1;
        }
        proof {
            assert(fields@.take(i as int) =~= fields@);
        }
        let ghost made = field_builders@;
        let builder = builders::struct_builder(struct_fields, field_builders);
        let spare = builders::boolean_builder(0);
        assert(builders::struct_state(builder).builders =~= struct_writer::viewed(
            columns@,
        ).map_values(|c: StructColumn| c.ty));
        assert(builders::struct_state(builder).fields =~= Shape::array_fields(shapes));
        assert(builders::struct_state(builder).cells =~= Seq::new(
            shapes.len(),
            |j: int| Seq::<Option<Cell>>::empty(),
        )) by {
            assert forall|j: int| 0 <= j < made.len() implies builders::builder_cells(made[j])
                == Seq::<Option<Cell>>::empty() by {
                assert(builders::builder_shape(made[j]) is Scalar);
            }
        }
        Ok(
            StructWriter {
                columns,
                types,
                builder,
                spare,
                fields: Ghost(shapes),
                complete: Ghost(arrow_fields@.len() == fields@.len()),
            },
        )
    }
}

/// The error of a field, where the fields before it have none, is the error of all the fields.
proof fn lemma_first_row_field_error(fields: Seq<RowField>, arrow: Seq<ArrowField>, i: int)
    requires
        0 <= i < fields.len(),
        column::row_fields(fields.take(i + 1), arrow) is Err,
    ensures
        column::row_fields(fields, arrow) == column::row_fields(fields.take(i + 1), arrow),
    decreases fields.len(),
{
    if i + 1 == fields.len() {
        assert(fields.take(i + 1) =~= fields);
    } else {
        assert(fields.drop_last().take(i + 1) =~= fields.take(i + 1));
        lemma_first_row_field_error(fields.drop_last(), arrow, i);
    }
}

impl ColumnWriter {
    /// The position in a row that the writer reads.
    pub closed spec fn pos(self) -> usize {
        self.pos
    }

    /// What the writer was made for.
    pub closed spec fn shape(self) -> Shape
        decreases self,
    {
        match self.inner {
            TypedWriter::Scalar { kind, .. } => Shape::Scalar { nullable: self.nullable, kind },
            TypedWriter::List { element_writer, .. } => Shape::List {
                nullable: self.nullable,
                item: Box::new(element_writer.shape()),
            },
            TypedWriter::Struct(s) => Shape::Struct {
                nullable: self.nullable,
                fields: s.fields@,
                complete: s.complete@,
            },
        }
    }

    /// What the writer holds.
    pub closed spec fn data(self) -> Data
        decreases self,
    {
        match self.inner {
            TypedWriter::Scalar { builder, .. } => Data::Scalar(builders::builder_cells(builder)),
            TypedWriter::List { element_writer, offsets, validity } => Data::List {
                values: Box::new(element_writer.data()),
                offsets: offsets@.map_values(|o: i32| o as int),
                rows: validity@,
            },
            TypedWriter::Struct(s) => Data::Struct {
                columns: builders::struct_state(s.builder).cells,
                rows: builders::struct_state(s.builder).rows,
            },
        }
    }

    /// Whether the builders are those of the shape.
    spec fn builders_wf(self) -> bool
        decreases self,
    {
        match self.inner {
            TypedWriter::Scalar { kind, builder } => builders::builder_shape(builder)
                == BuilderShape::Scalar(kind.spec_ty()),
            TypedWriter::List { element_writer, .. } => element_writer.builders_wf(),
            TypedWriter::Struct(s) => s.wf(),
        }
    }

    /// The invariant of a writer.
    pub closed spec fn wf(self) -> bool {
        &&& self.builders_wf()
        &&& self.shape().holds(self.data())
        &&& self.shape().fits(self.data())
    }

    /// What a writer holds is always what its shape admits, and within the reach of offsets.
    pub proof fn law_shape_holds_data(self)
        requires
            self.wf(),
        ensures
            self.shape().wf(),
            self.shape().holds(self.data()),
            self.shape().fits(self.data()),
            self.shape() matches Shape::Struct { fields, .. } ==> fields.len() <= usize::MAX,
    {
        growth::lemma_holds_wf(self.shape(), self.data());
        if let TypedWriter::Struct(s) = self.inner {
            assert(Shape::struct_columns(s.fields@).len() == s.columns.len());
        }
    }

    /// What the writer holds, and the result, after the value at `pos` in `row` has been written.
    pub open spec fn written<R: InternalRow + ?Sized>(self, row: &R, pos: usize) -> (
        Data,
        Result<(), Fault>,
    ) {
        self.shape().write(
            self.data(),
            row.null_at(pos),
            row.value_at(pos, self.shape().request()),
        )
    }

    /// Whether writing the value at `pos` in `row` turns this writer into `after`, with result `r`.
    pub open spec fn writes<R: InternalRow + ?Sized>(
        self,
        row: &R,
        pos: usize,
        after: ColumnWriter,
        r: Result<(), Error>,
    ) -> bool {
        &&& after.wf()
        &&& after.pos() == self.pos()
        &&& after.shape() == self.shape()
        &&& (after.data(), error::told(r)) == self.written(row, pos)
    }

    /// Whether finishing turns this writer into `after`, and hands out an array with `contents`.
    pub open spec fn finishes(self, after: ColumnWriter, contents: ArrayContents) -> bool {
        &&& after.wf()
        &&& after.pos() == self.pos()
        &&& after.shape() == self.shape()
        &&& after.data() == self.shape().empty()
        &&& contents == self.shape().array(self.data())
    }

    /// A writer of a column of the given logical type, stored as the given Arrow type, that reads
    /// position `pos` of rows and has room for `capacity` of them.
    pub fn create(
        fluss_type: &DataType,
        arrow_type: &ArrowType,
        pos: usize,
        capacity: usize,
    ) -> (r: Result<Self, Error>)
        requires
            Shape::can_create(*fluss_type, *arrow_type, capacity),
        ensures
            match r {
                Ok(w) => {
                    &&& w.wf()
                    &&& w.pos() == pos
                    &&& Shape::plan(*fluss_type, *arrow_type) == Ok::<Shape, Fault>(w.shape())
                    &&& w.data() == w.shape().empty()
                },
                Err(e) => Shape::plan(*fluss_type, *arrow_type) == Err::<Shape, Fault>(e@),
            },
        decreases *fluss_type,
    {
        let nullable = fluss_type.nullable;
        let inner = match &fluss_type.root {
            TypeRoot::Array { element } => {
                let item = match arrow_type {
                    ArrowType::List(item) => item,
                    _ => {
                        return Err(Error::not_list(arrow_type));
                    },
                };
                let element_writer = ColumnWriter::create(element, &item.data_type, 0, capacity)?;
                // Elements that Arrow has no list builder for are refused.
                create_list_builder(&item.data_type, capacity)?;
                let offsets: Vec<i32> = vec![0];
                proof {
                    growth::lemma_holds_wf(element_writer.shape(), element_writer.data());
                    assert(offsets@.map_values(|o: i32| o as int) =~= seq![0int]);
                }
                TypedWriter::List {
                    element_writer: Box::new(element_writer),
                    offsets,
                    validity: Vec::new(),
                }
            },
            TypeRoot::Row { fields } => {
                let arrow_fields = match arrow_type {
                    ArrowType::Struct(arrow_fields) => arrow_fields,
                    _ => {
                        return Err(Error::not_struct(arrow_type));
                    },
                };
                TypedWriter::Struct(StructWriter::create(fields, arrow_fields, capacity)?)
            },
            root => {
                let kind = find_scalar_kind(fluss_type, arrow_type)?;
                let builder = scalar::new_builder(
                    kind.ty(),
                    capacity,
                    variable_width_bytes(capacity),
                )?;
                TypedWriter::Scalar { kind, builder }
            },
        };
        let writer = ColumnWriter { pos, nullable, inner };
        proof {
            assert(writer.data() =~= writer.shape().empty());
            growth::lemma_empty_holds(writer.shape());
        }
        Ok(writer)
    }

    /// Reads the value at this writer's position in `row` and appends it. Where that fails, nothing
    /// is appended.
    pub fn write_field(&mut self, row: &dyn InternalRow) -> (r: Result<(), Error>)
        requires
            old(self).wf(),
            old(self).shape().fits(old(self).written(row, old(self).pos()).0),
        ensures
            old(self).writes(row, old(self).pos(), *final(self), r),
    {
        let pos: usize = self.pos;
        self.write_row(row, pos)
    }

    /// Reads the value at `pos` in `row` and appends it. Where that fails, nothing is appended.
    pub fn write_field_at(&mut self, row: &dyn InternalRow, pos: usize) -> (r: Result<(), Error>)
        requires
            old(self).wf(),
            old(self).shape().fits(old(self).written(row, pos).0),
        ensures
            old(self).writes(row, pos, *final(self), r),
    {
        self.write_row(row, pos)
    }

    /// Reads the value at `pos` in `row` and appends it. A column that admits nulls asks for one
    /// first.
    fn write_row<R: InternalRow + ?Sized>(&mut self, row: &R, pos: usize) -> (r: Result<(), Error>)
        requires
            old(self).wf(),
            old(self).shape().fits(old(self).written(row, pos).0),
        ensures
            old(self).writes(row, pos, *final(self), r),
    {
        if self.nullable {
            let null = row.is_null_at(pos)?;
            if null {
                self.append_null();
                return Ok(());
            }
        }
        self.write_non_null_at(row, pos)
    }

    /// The array of what has been written. The writer is as new afterwards.
    pub fn finish(&mut self) -> (array: ArrayData)
        requires
            old(self).wf(),
            old(self).shape().can_finish(old(self).data()),
        ensures
            old(self).finishes(*final(self), builders::array_contents(array)),
        decreases old(self).shape(),
    {
        let ghost shape = self.shape();
        let ghost data = self.data();
        let array = match &mut self.inner {
            TypedWriter::Scalar { builder, .. } => builders::finish_builder(builder),
            TypedWriter::List { element_writer, offsets, validity } => {
                let item_nullable = element_writer.nullable;
                let values = element_writer.finish();
                let mut taken_offsets: Vec<i32> = vec![0];
                std::mem::swap(offsets, &mut taken_offsets);
                let mut taken_validity: Vec<bool> = Vec::new();
                std::mem::swap(validity, &mut taken_validity);
                proof {
                    let model = data->offsets;
                    assert(model =~= taken_offsets@.map_values(|o: i32| o as int));
                    assert forall|i: int, j: int|
                        0 <= i <= j < taken_offsets@.len() implies taken_offsets@[i]
                        <= taken_offsets@[j] by {
                        assert(model[i] <= model[j]);
                    }
                }
                builders::list_array(values, item_nullable, taken_offsets, taken_validity)
            },
            TypedWriter::Struct(s) => builders::finish_struct(&mut s.builder),
        };
        proof {
            growth::lemma_holds_wf(shape, data);
            growth::lemma_empty_holds(shape);
            assert(self.data() =~= shape.empty());
            assert(builders::array_contents(array) =~= shape.array(data));
        }
        array
    }

    /// The number of bytes of the buffers of what has been written, each padded to a multiple of 8.
    /// The lengths are read off the builders, which stay as they are.
    pub fn buffer_size(&self) -> (size: usize)
        requires
            self.wf(),
            self.shape().buffer_bytes(self.data()) <= usize::MAX,
        ensures
            size == self.shape().buffer_bytes(self.data()),
        decreases self.shape(),
    {
        match &self.inner {
            TypedWriter::Scalar { kind, builder } => {
                scalar::scalar_buffer_size(&builders::view_builder(builder), kind.ty())
            },
            TypedWriter::List { element_writer, offsets, validity } => {
                let validity_bytes: usize = scalar::round_up_to_8(bitmap_length(validity.len()));
                let offsets_bytes: usize = scalar::round_up_to_8(offsets.len() * 4);
                validity_bytes + offsets_bytes + element_writer.buffer_size()
            },
            TypedWriter::Struct(s) => struct_writer::struct_buffer_size(&s.columns, &s.builder),
        }
    }

    /// Appends a null.
    fn append_null(&mut self)
        requires
            old(self).wf(),
            old(self).shape().fits(old(self).shape().append_null(old(self).data())),
        ensures
            final(self).wf(),
            final(self).pos() == old(self).pos(),
            final(self).shape() == old(self).shape(),
            final(self).data() == old(self).shape().append_null(old(self).data()),
    {
        let ghost shape = self.shape();
        let ghost data = self.data();
        proof {
            growth::lemma_append_null(shape, data);
            growth::lemma_fits_before(shape, data, shape.append_null(data));
        }
        match &mut self.inner {
            TypedWriter::Scalar { kind, builder } => {
                append_null_to_builder(builder, &BuilderForm::Scalar(kind.ty()));
            },
            TypedWriter::List { offsets, validity, .. } => {
                let last: i32 = offsets[offsets.len() - 1];
                offsets.push(last);
                validity.push(false);
            },
            TypedWriter::Struct(s) => {
                append_null_row(&s.types, &mut s.builder, &mut s.spare);
            },
        }
        assert(self.data() =~= shape.append_null(data));
    }

    /// Reads the value at `pos` in `row`, without asking whether it is null, and appends it.
    fn write_non_null_at<R: InternalRow + ?Sized>(&mut self, row: &R, pos: usize) -> (r: Result<
        (),
        Error,
    >)
        requires
            old(self).wf(),
            old(self).shape().fits(
                old(self).shape().write_value(
                    old(self).data(),
                    row.value_at(pos, old(self).shape().request()),
                ).0,
            ),
        ensures
            final(self).wf(),
            final(self).pos() == old(self).pos(),
            final(self).shape() == old(self).shape(),
            (final(self).data(), error::told(r)) == old(self).shape().write_value(
                old(self).data(),
                row.value_at(pos, old(self).shape().request()),
            ),
    {
        if let TypedWriter::Scalar { kind, builder } = &mut self.inner {
            return kind::write_scalar(*kind, builder, row, pos);
        }
        self.check_value(row, pos)?;
        self.append_value(row, pos);
        Ok(())
    }

    /// Whether the value at `pos` in `row` can be written, or why not.
    fn check_value<R: InternalRow + ?Sized>(&self, row: &R, pos: usize) -> (r: Result<(), Error>)
        requires
            self.wf(),
        ensures
            error::told(r) == self.shape().check(row.value_at(pos, self.shape().request())),
            r is Ok ==> growth::answers(
                self.shape().request(),
                row.value_at(pos, self.shape().request()),
            ),
        decreases self.shape(), 1nat,
    {
        match &self.inner {
            TypedWriter::Scalar { kind, .. } => {
                match kind::read_scalar(*kind, row, pos) {
                    Ok(_) => Ok(()),
                    Err(e) => Err(e),
                }
            },
            TypedWriter::List { element_writer, .. } => {
                let array = row.get_array(pos)?;
                element_writer.check_elements(array)
            },
            TypedWriter::Struct(s) => {
                let array = row.get_array(pos)?;
                check_struct_fields(array, &s.columns)
            },
        }
    }

    /// Whether the elements of an array can be written, or the error of the first that cannot.
    fn check_elements(&self, array: &FlussArray) -> (r: Result<(), Error>)
        requires
            self.wf(),
        ensures
            error::told(r) == self.shape().check_elements(*array, array.elements@.len()),
        decreases self.shape(), 2nat,
    {
        let ghost shape = self.shape();
        let mut i: usize = 0;
        while i < array.size()
            invariant
                i <= array.elements@.len(),
                self.wf(),
                shape == self.shape(),
                shape.check_elements(*array, i as nat) == Ok::<(), Fault>(()),
            decreases array.elements@.len() - i,
        {
            proof {
                growth::lemma_check_elements_before(
                    shape,
                    *array,
                    (i + 1) as nat,
                    array.elements@.len(),
                );
            }
            if !array.is_null_at(i) {
                let element = ArrayElementRow::new(array, i);
                self.check_value(&element, 0)?;
            }
            i = i + 1;
        }
        Ok(())
    }

    /// Appends the value at `pos` in `row`, which can be written.
    fn append_value<R: InternalRow + ?Sized>(&mut self, row: &R, pos: usize)
        requires
            old(self).wf(),
            old(self).shape().check(row.value_at(pos, old(self).shape().request())) is Ok,
            growth::answers(
                old(self).shape().request(),
                row.value_at(pos, old(self).shape().request()),
            ),
            old(self).shape().fits(
                old(self).shape().append_value(
                    old(self).data(),
                    row.value_at(pos, old(self).shape().request())->Ok_0,
                ),
            ),
        ensures
            final(self).wf(),
            final(self).pos() == old(self).pos(),
            final(self).shape() == old(self).shape(),
            final(self).data() == old(self).shape().append_value(
                old(self).data(),
                row.value_at(pos, old(self).shape().request())->Ok_0,
            ),
        decreases old(self).shape(), 1nat,
    {
        let ghost shape = self.shape();
        let ghost data = self.data();
        let ghost value = row.value_at(pos, shape.request())->Ok_0;
        proof {
            growth::lemma_append_value(shape, data, value);
        }
        match &mut self.inner {
            TypedWriter::Scalar { kind, builder } => {
                let written = kind::write_scalar(*kind, builder, row, pos);
                assert(written is Ok);
            },
            TypedWriter::List { element_writer, offsets, validity } => {
                if let Ok(array) = row.get_array(pos) {
                    element_writer.append_elements(array);
                    let last: i32 = offsets[offsets.len() - 1];
                    offsets.push(last + array.size() as i32);
                    validity.push(true);
                }
            },
            TypedWriter::Struct(s) => {
                if let Ok(array) = row.get_array(pos) {
                    proof {
                        let fields = s.fields@;
                        assert forall|i: int| 0 <= i < s.columns@.len() implies (
                        #[trigger] s.columns@[i]).ty == fields[i].column.ty by {
                            assert(struct_writer::viewed(s.columns@)[i] == s.columns@[i]@);
                            assert(Shape::struct_columns(fields)[i] == fields[i].column);
                        }
                    }
                    let written = write_fluss_array_to_struct_builder(
                        array,
                        &s.columns,
                        &mut s.builder,
                        &mut s.spare,
                    );
                    assert(written is Ok);
                }
            },
        }
        assert(self.data() =~= shape.append_value(data, value));
    }

    /// Appends the elements of an array, which can be written, in order. A null is appended as
    /// such, whether or not the column admits nulls.
    fn append_elements(&mut self, array: &FlussArray)
        requires
            old(self).wf(),
            old(self).shape().check_elements(*array, array.elements@.len()) is Ok,
            old(self).shape().fits(
                old(self).shape().append_elements(
                    old(self).data(),
                    *array,
                    array.elements@.len(),
                ),
            ),
        ensures
            final(self).wf(),
            final(self).pos() == old(self).pos(),
            final(self).shape() == old(self).shape(),
            final(self).data() == old(self).shape().append_elements(
                old(self).data(),
                *array,
                array.elements@.len(),
            ),
        decreases old(self).shape(), 2nat,
    {
        let ghost shape = self.shape();
        let ghost data = self.data();
        let mut i: usize = 0;
        while i < array.size()
            invariant
                i <= array.elements@.len(),
                shape == old(self).shape(),
                data == old(self).data(),
                shape.holds(data),
                shape.check_elements(*array, array.elements@.len()) is Ok,
                shape.fits(shape.append_elements(data, *array, array.elements@.len())),
                self.wf(),
                self.pos() == old(self).pos(),
                self.shape() == shape,
                self.data() == shape.append_elements(data, *array, i as nat),
            decreases array.elements@.len() - i,
        {
            proof {
                let n = array.elements@.len();
                let next = (i + 1) as nat;
                growth::lemma_check_elements_before(shape, *array, next, n);
                growth::lemma_check_elements_before(shape, *array, i as nat, n);
                growth::lemma_append_elements(shape, data, *array, next);
                growth::lemma_append_elements(shape, data, *array, n);
                growth::lemma_append_elements_grows(shape, data, *array, next, n);
                growth::lemma_fits_before(
                    shape,
                    shape.append_elements(data, *array, next),
                    shape.append_elements(data, *array, n),
                );
                growth::lemma_array_answers(*array, i, shape.request());
            }
            if array.is_null_at(i) {
                self.append_null();
            } else {
                let element = ArrayElementRow::new(array, i);
                self.append_value(&element, 0);
            }
            i = i + 1;
        }
    }
}

/// The scalar column that a logical type makes of an Arrow type.
fn find_scalar_kind(fluss: &DataType, arrow: &ArrowType) -> (r: Result<ScalarKind, Error>)
    ensures
        error::told(r) == column::scalar_kind(*fluss, *arrow),
        r matches Ok(kind) ==> kind.wf(),
{
    match &fluss.root {
        TypeRoot::Boolean => Ok(ScalarKind::Bool),
        TypeRoot::TinyInt => Ok(ScalarKind::Int8),
        TypeRoot::SmallInt => Ok(ScalarKind::Int16),
        TypeRoot::Int => Ok(ScalarKind::Int32),
        TypeRoot::BigInt => Ok(ScalarKind::Int64),
        TypeRoot::Float => Ok(ScalarKind::Float32),
        TypeRoot::Double => Ok(ScalarKind::Float64),
        TypeRoot::Char { length } => Ok(ScalarKind::Char { len: *length as usize }),
        TypeRoot::String => Ok(ScalarKind::String),
        TypeRoot::Bytes => Ok(ScalarKind::Bytes),
        TypeRoot::Binary { width } => if *width <= i32::MAX as usize {
            Ok(ScalarKind::Binary { width: *width as i32 })
        } else {
            Err(Error::binary_length(*width))
        },
        TypeRoot::Decimal { precision, scale } => match arrow {
            ArrowType::Decimal128(target_precision, target_scale) => if *target_scale < 0 {
                Err(Error::negative_decimal_scale(*target_scale))
            } else {
                Ok(
                    ScalarKind::Decimal128 {
                        src_precision: *precision as usize,
                        src_scale: *scale as usize,
                        target_precision: *target_precision,
                        target_scale: *target_scale,
                    },
                )
            },
            _ => Err(Error::not_decimal128(arrow)),
        },
        TypeRoot::Date => Ok(ScalarKind::Date32),
        TypeRoot::Time { .. } => match arrow {
            ArrowType::Time32(TimeUnit::Second) => Ok(ScalarKind::Time32Second),
            ArrowType::Time32(TimeUnit::Millisecond) => Ok(ScalarKind::Time32Millisecond),
            ArrowType::Time64(TimeUnit::Microsecond) => Ok(ScalarKind::Time64Microsecond),
            ArrowType::Time64(TimeUnit::Nanosecond) => Ok(ScalarKind::Time64Nanosecond),
            _ => Err(Error::arrow_type_for_time(arrow)),
        },
        TypeRoot::Timestamp { precision } => match arrow {
            ArrowType::Timestamp(TimeUnit::Second, _) => Ok(
                ScalarKind::TimestampNtzSecond { precision: *precision },
            ),
            ArrowType::Timestamp(TimeUnit::Millisecond, _) => Ok(
                ScalarKind::TimestampNtzMillisecond { precision: *precision },
            ),
            ArrowType::Timestamp(TimeUnit::Microsecond, _) => Ok(
                ScalarKind::TimestampNtzMicrosecond { precision: *precision },
            ),
            ArrowType::Timestamp(TimeUnit::Nanosecond, _) => Ok(
                ScalarKind::TimestampNtzNanosecond { precision: *precision },
            ),
            _ => Err(Error::arrow_type_for_timestamp(arrow)),
        },
        TypeRoot::TimestampLTz { precision } => match arrow {
            ArrowType::Timestamp(TimeUnit::Second, _) => Ok(
                ScalarKind::TimestampLtzSecond { precision: *precision },
            ),
            ArrowType::Timestamp(TimeUnit::Millisecond, _) => Ok(
                ScalarKind::TimestampLtzMillisecond { precision: *precision },
            ),
            ArrowType::Timestamp(TimeUnit::Microsecond, _) => Ok(
                ScalarKind::TimestampLtzMicrosecond { precision: *precision },
            ),
            ArrowType::Timestamp(TimeUnit::Nanosecond, _) => Ok(
                ScalarKind::TimestampLtzNanosecond { precision: *precision },
            ),
            _ => Err(Error::arrow_type_for_timestamp_ltz(arrow)),
        },
        TypeRoot::Array { .. } | TypeRoot::Row { .. } | TypeRoot::MapType { .. } => Err(
            Error::unsupported_column(fluss),
        ),
    }
}

/// The number of bytes that room is made for in a column of texts or byte strings.
fn variable_width_bytes(capacity: usize) -> (r: usize)
    ensures
        r == if capacity * VARIABLE_WIDTH_AVG_BYTES <= usize::MAX {
            capacity * VARIABLE_WIDTH_AVG_BYTES
        } else {
            usize::MAX as int
        },
{
    match capacity.checked_mul(VARIABLE_WIDTH_AVG_BYTES) {
        Some(bytes) => bytes,
        None => usize::MAX,
    }
}

/// The number of bytes that hold `n` bits.
fn bitmap_length(n: usize) -> (r: usize)
    ensures
        r == builders::bitmap_bytes(n as nat),
{
    if n % 8 == 0 {
        n / 8
    } else {
        n / 8 + 1
    }
}

} // verus!
