//! Description of the columns of a query result.

use vstd::prelude::*;

verus! {

/// Data type of a result column.
#[derive(Debug, Clone, Copy, PartialEq, Eq, Structural)]
pub enum DataType {
    /// Integer type.
    Int,
    /// Floating point type.
    Float,
    /// String type.
    String,
    /// Boolean type.
    Bool,
    /// Binary data type.
    Bytes,
    /// Timestamp type.
    Timestamp,
    /// Null type.
    Null,
}

/// Column metadata describing a result column.
#[derive(Debug, Clone)]
pub struct ColumnMetadata {
    /// Column name.
    pub name: String,
    /// Column data type.
    pub data_type: DataType,
    /// Whether the column is nullable.
    pub nullable: bool,
    /// Column ordinal position (0-based).
    pub ordinal: usize,
}

} // verus!
