//! Schema inference and column materialisation for streams of loosely typed
//! documents.
//!
//! A bounded sample of documents fixes one type for each field
//! ([`schema::infer_schema`]). One typed buffer for each field
//! ([`buffer::Buffer`]) then takes every document of the stream in arrival
//! order, coercing each value to the kind of its column or storing a null
//! ([`registry::parse_line`]). At the end the buffers are closed into the
//! columns of a table ([`registry::finalize_all`]). [`reader::Materializer`]
//! holds the state of one such pass, step by step; [`reader::read`] runs a
//! whole pass over documents that are at hand.
//!
//! Floating point numbers are carried, never computed with: a document value
//! holds one by its bit pattern, and a floating point column keeps the
//! numbers that it admitted for whoever renders the column.
pub mod buffer;
pub mod cell;
pub mod coerce;
pub mod column;
pub mod conversion;
pub mod error;
pub mod field_type;
pub mod laws;
pub mod numeric;
pub mod reader;
pub mod registry;
pub mod schema;
pub mod temporal;
pub mod text;
pub mod value;

pub use buffer::{Buffer, Column, ColumnData};
pub use cell::{ColumnKind, Number};
pub use conversion::{classify, Wrap};
pub use error::ComputeError;
pub use field_type::{FieldType, FieldTypeView, TimeUnit};
pub use reader::{read, Materializer, Stage};
pub use registry::{finalize_all, init_buffers, parse_line, parse_lines, Table};
pub use schema::{infer_schema, Schema};
pub use value::{Document, Double, RawValue, Regex, Timestamp};
