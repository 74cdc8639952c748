//! Schema compiler for EBML-style binary tag formats.
//!
//! A schema is an ordered list of tag declarations (name, numeric id, data
//! kind).  Compiling the list validates it (unique ids, known data kinds,
//! well-formed attributes) and yields a [`schema::Schema`], which provides the
//! two dispatch interfaces a generic codec needs: schema-level lookup and
//! typed construction of [`value::TagValue`]s, and value-level accessors that
//! recover each payload.  Unknown ids never fail at dispatch time: lookup
//! degrades to `Binary` and construction to the synthesized `RawTag` case.

pub mod compile;
pub mod kind;
pub use compile::{compile_schema, CompileError, TagDeclaration};
pub use kind::TagDataType;
pub use schema::{Schema, TagDefinition};
pub use value::{Master, TagValue};
pub mod laws;
pub mod literal;
pub mod schema;
pub mod text;
pub mod value;
