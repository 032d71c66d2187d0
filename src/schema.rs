//! Typed row schemas: one per event class.

use vstd::prelude::*;

verus! {

/// The type of a column.
#[derive(Debug)]
pub enum ColumnType {
    Int32,
    Int64,
    Float64,
    Boolean,
    Utf8,
    Binary,
    /// Milliseconds since the epoch.
    TimestampMs,
    /// A group of named child columns.
    Struct(Vec<Field>),
    /// A list whose items have the child's type.
    List(Box<Field>),
    /// A type that rows cannot be converted into.
    Other,
}

/// A named, typed column.
#[derive(Debug)]
pub struct Field {
    pub name: String,
    pub nullable: bool,
    pub ty: ColumnType,
}

/// The row schema of one event class, with the metadata written beside its files.
#[derive(Debug)]
pub struct ClassSchema {
    pub fields: Vec<Field>,
    /// The schema's own name: the class name.
    pub description: String,
    /// The schema file's path under the schema root.
    pub schema_file: String,
}

} // verus!
