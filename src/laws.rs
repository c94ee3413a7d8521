//! Properties of decoding that hold for every input.
use vstd::prelude::*;

use crate::decode::{
    cell_result, decoded, row_result, rows_model, rows_result, unsupported_message, Column,
    RawValue, Reading,
};
use crate::json::JsonModel;
use crate::table::{strategy_of, Strategy};

verus! {

/// No integer type name is a name of the text or float families.
proof fn lemma_integer_names_distinct(name: Seq<char>)
    requires
        name == "TINYINT"@
            || name == "SMALLINT"@
            || name == "INT"@
            || name == "MEDIUMINT"@
            || name == "BIGINT"@
            || name == "TINYINT UNSIGNED"@
            || name == "SMALLINT UNSIGNED"@
            || name == "INT UNSIGNED"@
            || name == "MEDIUMINT UNSIGNED"@
            || name == "BIGINT UNSIGNED"@
            || name == "YEAR"@,
    ensures
        name != "CHAR"@,
        name != "VARCHAR"@,
        name != "TINYTEXT"@,
        name != "TEXT"@,
        name != "MEDIUMTEXT"@,
        name != "LONGTEXT"@,
        name != "ENUM"@,
        name != "FLOAT"@,
        name != "DOUBLE"@,
{
    reveal_strlit("CHAR");
    assert("CHAR"@.len() == 4 && "CHAR"@[0] == 'C');
    reveal_strlit("VARCHAR");
    assert("VARCHAR"@.len() == 7 && "VARCHAR"@[0] == 'V');
    reveal_strlit("TINYTEXT");
    assert("TINYTEXT"@.len() == 8 && "TINYTEXT"@[0] == 'T');
    reveal_strlit("TEXT");
    assert("TEXT"@.len() == 4 && "TEXT"@[0] == 'T');
    reveal_strlit("MEDIUMTEXT");
    assert("MEDIUMTEXT"@.len() == 10 && "MEDIUMTEXT"@[0] == 'M');
    reveal_strlit("LONGTEXT");
    assert("LONGTEXT"@.len() == 8 && "LONGTEXT"@[0] == 'L');
    reveal_strlit("ENUM");
    assert("ENUM"@.len() == 4 && "ENUM"@[0] == 'E');
    reveal_strlit("FLOAT");
    assert("FLOAT"@.len() == 5 && "FLOAT"@[0] == 'F');
    reveal_strlit("DOUBLE");
    assert("DOUBLE"@.len() == 6 && "DOUBLE"@[0] == 'D');
    reveal_strlit("TINYINT");
    assert("TINYINT"@.len() == 7 && "TINYINT"@[0] == 'T');
    reveal_strlit("SMALLINT");
    assert("SMALLINT"@.len() == 8 && "SMALLINT"@[0] == 'S');
    reveal_strlit("INT");
    assert("INT"@.len() == 3 && "INT"@[0] == 'I');
    reveal_strlit("MEDIUMINT");
    assert("MEDIUMINT"@.len() == 9 && "MEDIUMINT"@[0] == 'M');
    reveal_strlit("BIGINT");
    assert("BIGINT"@.len() == 6 && "BIGINT"@[0] == 'B');
    reveal_strlit("TINYINT UNSIGNED");
    assert("TINYINT UNSIGNED"@.len() == 16 && "TINYINT UNSIGNED"@[0] == 'T');
    reveal_strlit("SMALLINT UNSIGNED");
    assert("SMALLINT UNSIGNED"@.len() == 17 && "SMALLINT UNSIGNED"@[0] == 'S');
    reveal_strlit("INT UNSIGNED");
    assert("INT UNSIGNED"@.len() == 12 && "INT UNSIGNED"@[0] == 'I');
    reveal_strlit("MEDIUMINT UNSIGNED");
    assert("MEDIUMINT UNSIGNED"@.len() == 18 && "MEDIUMINT UNSIGNED"@[0] == 'M');
    reveal_strlit("BIGINT UNSIGNED");
    assert("BIGINT UNSIGNED"@.len() == 15 && "BIGINT UNSIGNED"@[0] == 'B');
    reveal_strlit("YEAR");
    assert("YEAR"@.len() == 4 && "YEAR"@[0] == 'Y');
}

/// No unsigned or year type name is a signed integer type name.
proof fn lemma_unsigned_names_not_signed(name: Seq<char>)
    requires
        name == "TINYINT UNSIGNED"@
            || name == "SMALLINT UNSIGNED"@
            || name == "INT UNSIGNED"@
            || name == "MEDIUMINT UNSIGNED"@
            || name == "BIGINT UNSIGNED"@
            || name == "YEAR"@,
    ensures
        name != "TINYINT"@,
        name != "SMALLINT"@,
        name != "INT"@,
        name != "MEDIUMINT"@,
        name != "BIGINT"@,
{
    reveal_strlit("TINYINT");
    assert("TINYINT"@.len() == 7 && "TINYINT"@[0] == 'T');
    reveal_strlit("SMALLINT");
    assert("SMALLINT"@.len() == 8 && "SMALLINT"@[0] == 'S');
    reveal_strlit("INT");
    assert("INT"@.len() == 3 && "INT"@[0] == 'I');
    reveal_strlit("MEDIUMINT");
    assert("MEDIUMINT"@.len() == 9 && "MEDIUMINT"@[0] == 'M');
    reveal_strlit("BIGINT");
    assert("BIGINT"@.len() == 6 && "BIGINT"@[0] == 'B');
    reveal_strlit("TINYINT UNSIGNED");
    assert("TINYINT UNSIGNED"@.len() == 16 && "TINYINT UNSIGNED"@[0] == 'T');
    reveal_strlit("SMALLINT UNSIGNED");
    assert("SMALLINT UNSIGNED"@.len() == 17 && "SMALLINT UNSIGNED"@[0] == 'S');
    reveal_strlit("INT UNSIGNED");
    assert("INT UNSIGNED"@.len() == 12 && "INT UNSIGNED"@[0] == 'I');
    reveal_strlit("MEDIUMINT UNSIGNED");
    assert("MEDIUMINT UNSIGNED"@.len() == 18 && "MEDIUMINT UNSIGNED"@[0] == 'M');
    reveal_strlit("BIGINT UNSIGNED");
    assert("BIGINT UNSIGNED"@.len() == 15 && "BIGINT UNSIGNED"@[0] == 'B');
    reveal_strlit("YEAR");
    assert("YEAR"@.len() == 4 && "YEAR"@[0] == 'Y');
}

/// A null value decodes to JSON null, whatever type name it reports.
pub proof fn null_decodes_to_null(raw: RawValue)
    requires
        raw.is_null,
    ensures
        decoded(raw) == Ok::<JsonModel, Seq<char>>(JsonModel::Null),
{
}

/// A signed integer type keeps the decoded 64-bit value exactly.
pub proof fn signed_integers_round_trip(name: Seq<char>, i: i64, reported: String)
    requires
        name == "TINYINT"@
            || name == "SMALLINT"@
            || name == "INT"@
            || name == "MEDIUMINT"@
            || name == "BIGINT"@,
        reported@ == name,
    ensures
        decoded(
            RawValue { is_null: false, reported_type: reported, reading: Some(Reading::Signed(i)) },
        ) == Ok::<JsonModel, Seq<char>>(JsonModel::Int(i)),
{
    lemma_integer_names_distinct(name);
    assert(strategy_of(name) == Some(Strategy::Signed));
}

/// An unsigned integer or year type keeps the decoded 64-bit value exactly,
/// up to the largest one.
pub proof fn unsigned_integers_round_trip(name: Seq<char>, u: u64, reported: String)
    requires
        name == "TINYINT UNSIGNED"@
            || name == "SMALLINT UNSIGNED"@
            || name == "INT UNSIGNED"@
            || name == "MEDIUMINT UNSIGNED"@
            || name == "BIGINT UNSIGNED"@
            || name == "YEAR"@,
        reported@ == name,
    ensures
        decoded(
            RawValue { is_null: false, reported_type: reported, reading: Some(Reading::Unsigned(u)) },
        ) == Ok::<JsonModel, Seq<char>>(JsonModel::UInt(u)),
{
    lemma_integer_names_distinct(name);
    lemma_unsigned_names_not_signed(name);
    assert(strategy_of(name) == Some(Strategy::Unsigned));
}

/// A non-null value whose type name is outside the table fails with the
/// error that names the type.
pub proof fn unknown_type_fails(raw: RawValue)
    requires
        !raw.is_null,
        strategy_of(raw.reported_type@) is None,
    ensures
        decoded(raw) == Err::<JsonModel, Seq<char>>(unsupported_message(raw.reported_type@)),
{
}

/// A non-null value of a type in the table whose typed decode failed
/// degrades to JSON null.
pub proof fn failed_decode_degrades_to_null(raw: RawValue)
    requires
        !raw.is_null,
        strategy_of(raw.reported_type@) is Some,
        raw.reading is None,
    ensures
        decoded(raw) == Ok::<JsonModel, Seq<char>>(JsonModel::Null),
{
}

/// A row decodes the same when one column is replaced by another of the same
/// name that decodes to the same result: no column's outcome reaches another.
pub proof fn columns_decode_independently(cols: Seq<Column>, i: int, c: Column)
    requires
        0 <= i < cols.len(),
        c.name@ == cols[i].name@,
        cell_result(c.value) == cell_result(cols[i].value),
    ensures
        row_result(cols.update(i, c)) == row_result(cols),
    decreases cols.len(),
{
    let up = cols.update(i, c);
    if i == cols.len() - 1 {
        assert(up.drop_last() =~= cols.drop_last());
    } else {
        assert(up.drop_last() =~= cols.drop_last().update(i, c));
        columns_decode_independently(cols.drop_last(), i, c);
    }
}

/// A column whose typed decode failed yields null in its row, exactly as a
/// null value under the same name would, and leaves every other column of
/// the row as it was.
pub proof fn failed_decode_is_isolated(cols: Seq<Column>, i: int, null_col: Column)
    requires
        0 <= i < cols.len(),
        cols[i].value matches Ok(raw) && !raw.is_null && strategy_of(raw.reported_type@) is Some
            && raw.reading is None,
        null_col.name@ == cols[i].name@,
        null_col.value matches Ok(n) && n.is_null,
    ensures
        row_result(cols.update(i, null_col)) == row_result(cols),
{
    columns_decode_independently(cols, i, null_col);
}

proof fn lemma_failing_cell_fails_row(cols: Seq<Column>, j: int)
    requires
        0 <= j < cols.len(),
        cell_result(cols[j].value) is Err,
    ensures
        row_result(cols) is Err,
    decreases cols.len(),
{
    if j < cols.len() - 1 {
        lemma_failing_cell_fails_row(cols.drop_last(), j);
    }
}

proof fn lemma_failing_row_fails_all(rows: Seq<Vec<Column>>, i: int)
    requires
        0 <= i < rows.len(),
        row_result(rows[i]@) is Err,
    ensures
        rows_result(rows) is Err,
    decreases rows.len(),
{
    if i < rows.len() - 1 {
        lemma_failing_row_fails_all(rows.drop_last(), i);
    }
}

/// A non-null value of a type outside the table anywhere in the rows makes
/// the whole conversion fail, with no mappings returned.
pub proof fn unknown_type_fails_conversion(rows: Seq<Vec<Column>>, i: int, j: int)
    requires
        0 <= i < rows.len(),
        0 <= j < rows[i]@.len(),
        rows[i]@[j].value matches Ok(raw) && !raw.is_null && strategy_of(raw.reported_type@) is None,
    ensures
        rows_result(rows) is Err,
{
    lemma_failing_cell_fails_row(rows[i]@, j);
    lemma_failing_row_fails_all(rows, i);
}

/// Converting the same rows twice gives the same outcome: conversion depends
/// on its input alone.
pub proof fn conversion_is_deterministic(
    rows: Seq<Vec<Column>>,
    r1: Result<Vec<crate::row_map::RowMap>, String>,
    r2: Result<Vec<crate::row_map::RowMap>, String>,
)
    requires
        rows_model(r1) == rows_result(rows),
        rows_model(r2) == rows_result(rows),
    ensures
        rows_model(r1) == rows_model(r2),
{
}

/// No rows convert to no mappings, without error.
pub proof fn empty_result_is_empty()
    ensures
        rows_result(Seq::<Vec<Column>>::empty()) == Ok::<Seq<Map<Seq<char>, JsonModel>>, Seq<char>>(
            Seq::empty(),
        ),
{
}

} // verus!
