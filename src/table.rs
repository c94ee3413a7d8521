//! The fixed table from a reported column type name to the way its values
//! are decoded.
use vstd::prelude::*;

verus! {

/// How the values of one family of column types are decoded.
#[derive(Clone, Copy, Debug, PartialEq, Eq, Structural)]
pub enum Strategy {
    /// Character and enumerated text, decoded as a string.
    Text,
    /// Single-precision float, widened to a JSON number.
    Float32,
    /// Double-precision float.
    Float64,
    /// Signed integers of every width, as a 64-bit signed integer.
    Signed,
    /// Unsigned integers of every width and years, as a 64-bit unsigned integer.
    Unsigned,
    /// A boolean.
    Boolean,
    /// A calendar date, as its canonical text.
    Date,
    /// A time of day, as its canonical text.
    Time,
    /// A date and time without time zone, as its canonical text.
    DateTime,
    /// A date and time with its offset, as its canonical text.
    Timestamp,
    /// A JSON document, parsed and embedded.
    Json,
    /// Binary data, as an array of byte values.
    Blob,
    /// The explicit null type: always JSON null.
    NullMarker,
}

/// The strategy for the type name `name`, or `None` for a name outside the
/// table. Names match exactly, case included.
pub open spec fn strategy_of(name: Seq<char>) -> Option<Strategy> {
    if name == "CHAR"@ || name == "VARCHAR"@ || name == "TINYTEXT"@ || name == "TEXT"@
        || name == "MEDIUMTEXT"@ || name == "LONGTEXT"@ || name == "ENUM"@ {
        Some(Strategy::Text)
    } else if name == "FLOAT"@ {
        Some(Strategy::Float32)
    } else if name == "DOUBLE"@ {
        Some(Strategy::Float64)
    } else if name == "TINYINT"@ || name == "SMALLINT"@ || name == "INT"@ || name == "MEDIUMINT"@
        || name == "BIGINT"@ {
        Some(Strategy::Signed)
    } else if name == "TINYINT UNSIGNED"@ || name == "SMALLINT UNSIGNED"@ || name
        == "INT UNSIGNED"@ || name == "MEDIUMINT UNSIGNED"@ || name == "BIGINT UNSIGNED"@ || name
        == "YEAR"@ {
        Some(Strategy::Unsigned)
    } else if name == "BOOLEAN"@ {
        Some(Strategy::Boolean)
    } else if name == "DATE"@ {
        Some(Strategy::Date)
    } else if name == "TIME"@ {
        Some(Strategy::Time)
    } else if name == "DATETIME"@ {
        Some(Strategy::DateTime)
    } else if name == "TIMESTAMP"@ {
        Some(Strategy::Timestamp)
    } else if name == "JSON"@ {
        Some(Strategy::Json)
    } else if name == "TINYBLOB"@ || name == "MEDIUMBLOB"@ || name == "BLOB"@ || name
        == "LONGBLOB"@ {
        Some(Strategy::Blob)
    } else if name == "NULL"@ {
        Some(Strategy::NullMarker)
    } else {
        None
    }
}

/// Whether `name` is exactly `lit`.
fn is_name(name: &String, lit: &str) -> (r: bool)
    ensures
        r == (name@ == lit@),
{
    *name == String::from_str(lit)
}

/// Looks `name` up in the table.
pub fn strategy_for(name: &str) -> (r: Option<Strategy>)
    ensures
        r == strategy_of(name@),
{
    let n = String::from_str(name);
    if is_name(&n, "CHAR") || is_name(&n, "VARCHAR") || is_name(&n, "TINYTEXT") || is_name(
        &n,
        "TEXT",
    ) || is_name(&n, "MEDIUMTEXT") || is_name(&n, "LONGTEXT") || is_name(&n, "ENUM") {
        Some(Strategy::Text)
    } else if is_name(&n, "FLOAT") {
        Some(Strategy::Float32)
    } else if is_name(&n, "DOUBLE") {
        Some(Strategy::Float64)
    } else if is_name(&n, "TINYINT") || is_name(&n, "SMALLINT") || is_name(&n, "INT") || is_name(
        &n,
        "MEDIUMINT",
    ) || is_name(&n, "BIGINT") {
        Some(Strategy::Signed)
    } else if is_name(&n, "TINYINT UNSIGNED") || is_name(&n, "SMALLINT UNSIGNED") || is_name(
        &n,
        "INT UNSIGNED",
    ) || is_name(&n, "MEDIUMINT UNSIGNED") || is_name(&n, "BIGINT UNSIGNED") || is_name(
        &n,
        "YEAR",
    ) {
        Some(Strategy::Unsigned)
    } else if is_name(&n, "BOOLEAN") {
        Some(Strategy::Boolean)
    } else if is_name(&n, "DATE") {
        Some(Strategy::Date)
    } else if is_name(&n, "TIME") {
        Some(Strategy::Time)
    } else if is_name(&n, "DATETIME") {
        Some(Strategy::DateTime)
    } else if is_name(&n, "TIMESTAMP") {
        Some(Strategy::Timestamp)
    } else if is_name(&n, "JSON") {
        Some(Strategy::Json)
    } else if is_name(&n, "TINYBLOB") || is_name(&n, "MEDIUMBLOB") || is_name(&n, "BLOB")
        || is_name(&n, "LONGBLOB") {
        Some(Strategy::Blob)
    } else if is_name(&n, "NULL") {
        Some(Strategy::NullMarker)
    } else {
        None
    }
}

} // verus!
