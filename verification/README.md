# fluss_columns

Typed column writers for Arrow, verified with Verus.

A `ColumnWriter` is made for a logical column type and the Arrow type that it is stored as. It reads
one position of rows (`InternalRow`), appends what it reads to Arrow builders, reports the size of
the buffers (`buffer_size`), and hands out the array (`finish`).

```rust
let ty = DataType { nullable: true, root: TypeRoot::Int };
let mut writer = ColumnWriter::create(&ty, &ArrowType::Int32, 0, 1024)?;
writer.write_field(&GenericRow::from_data(vec![Datum::Int32(42)]))?;
let array = arrow::array::make_array(writer.finish());
```

## How it is specified

- `column.rs` is the model: the `Shape` that a writer was made for, the `Data` that it holds, and
  spec functions for every operation on them. The contracts of `ColumnWriter` are equations over
  these: `create` gives the planned shape or the planned error, a write gives exactly the written
  data and result, `finish` gives the array of the data and leaves the writer empty.
- `laws.rs` states what holds of all writers: every row reads back as it was written, a write that
  fails changes nothing, outcomes do not depend on earlier rows, buffers grow in multiples of 8,
  and more.
- `error.rs` models what an error says and why it comes, and `message.rs` and `text.rs` hold the
  wording. Types are printed in full, as `{:?}` prints them.
- `builders.rs` is the boundary to the `arrow` crate. Its functions are trusted; each says in its doc
  comment which Arrow function it calls and what is claimed of it.

## What a caller has to see to

- `create`: the buffers for the capacity must be ones that can be allocated, and the Arrow struct
  must have a field for every field of a row type, none of which has a key twice in its metadata
  (`Shape::can_create`).
- writes: the texts, byte strings and elements of lists in one array must stay within 32-bit offsets
  (`Shape::fits`).
- `finish`: Arrow must make an array of what was written (`Shape::can_finish`). The elements of a
  list that admits no nulls must have none, and so must the fields of a struct that admit none,
  except in null rows. The builders of a struct must be those of the Arrow type that was asked for:
  they are not for large texts and byte strings, timestamps with a time zone, and Arrow structs
  with more fields than the row type. Values of a fixed width must have no more than `i32::MAX`
  bytes in all. Other scalar columns can always be finished.
