//! Typed column writers: each reads one column of rows and appends it to Arrow builders.
//!
//! [`column_writer::ColumnWriter`] is the writer. [`column`] models it: what a writer was made for
//! (`Shape`), what it holds (`Data`), and what each operation does to that. The contracts of the
//! writer's methods are stated in those terms, and [`laws`] says what follows of all writers.
//! [`meaning`] says what writing is for, from the values of a row to the array; [`room`],
//! [`limits`], [`reading`] and [`wording`] say the same of sizes, preconditions, rows and
//! messages.
//!
//! * [`types`], [`values`], [`row`], [`error`], [`message`] and [`text`]: what comes in, and how it
//!   is refused.
//! * [`builders`]: the functions of Arrow that the writers rest on.
//! * [`scalar`] and [`kind`]: columns without nested values.
//! * [`nested`] and [`struct_writer`]: builders for the elements of lists and the fields of
//!   structs.
//! * [`growth`] and [`entries`]: how the data of a column grows, and its rows one by one.
pub mod builders;
pub mod column;
pub mod column_writer;
pub mod entries;
pub mod error;
pub mod growth;
pub mod kind;
pub mod laws;
pub mod limits;
pub mod meaning;
pub mod message;
pub mod nested;
pub mod reading;
pub mod room;
pub mod row;
pub mod scalar;
pub mod struct_writer;
pub mod text;
pub mod types;
pub mod values;
pub mod wording;
