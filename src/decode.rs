//! Decoding one raw column value, and a whole result, from plain values.
use vstd::prelude::*;

use crate::json::{bytes_to_array, byte_array, JsonModel, JsonValue};
use crate::row_map::RowMap;
use crate::table::{strategy_for, strategy_of, Strategy};

verus! {

/// The outcome of the driver's typed decode attempt on a non-null value.
#[derive(Debug, PartialEq)]
pub enum Reading {
    /// Text, or the canonical text of a date or time value.
    Text(String),
    Signed(i64),
    Unsigned(u64),
    Bool(bool),
    /// A finite floating-point number.
    Float(serde_json::Number),
    /// A parsed JSON document.
    Document(serde_json::Value),
    Bytes(Vec<u8>),
}

/// One raw column value: its null flag, the type name the driver reports,
/// and what the typed decode attempt for that type gave (`None` where it
/// failed or was not made).
pub struct RawValue {
    pub is_null: bool,
    pub reported_type: String,
    pub reading: Option<Reading>,
}

/// One column of a row: its name, and its raw value or the driver's error
/// on reading it.
pub struct Column {
    pub name: String,
    pub value: Result<RawValue, String>,
}

/// The JSON value of a reading under a strategy. A failed attempt, or a
/// reading of another kind than the strategy expects, degrades to null.
pub open spec fn value_of(strategy: Strategy, reading: Option<Reading>) -> JsonModel {
    match reading {
        None => JsonModel::Null,
        Some(rd) => match (strategy, rd) {
            (Strategy::Text, Reading::Text(t)) => JsonModel::Text(t@),
            (Strategy::Date, Reading::Text(t)) => JsonModel::Text(t@),
            (Strategy::Time, Reading::Text(t)) => JsonModel::Text(t@),
            (Strategy::DateTime, Reading::Text(t)) => JsonModel::Text(t@),
            (Strategy::Timestamp, Reading::Text(t)) => JsonModel::Text(t@),
            (Strategy::Float32, Reading::Float(n)) => JsonModel::Float(n),
            (Strategy::Float64, Reading::Float(n)) => JsonModel::Float(n),
            (Strategy::Signed, Reading::Signed(i)) => JsonModel::Int(i),
            (Strategy::Unsigned, Reading::Unsigned(u)) => JsonModel::UInt(u),
            (Strategy::Boolean, Reading::Bool(b)) => JsonModel::Bool(b),
            (Strategy::Json, Reading::Document(d)) => JsonModel::Document(d),
            (Strategy::Blob, Reading::Bytes(b)) => JsonModel::Array(byte_array(b@)),
            _ => JsonModel::Null,
        },
    }
}

/// The error text for a type name outside the table.
pub open spec fn unsupported_message(name: Seq<char>) -> Seq<char> {
    "Unsupported type: "@ + name
}

/// What a raw value decodes to: null when it is null, whatever its type;
/// an error naming the type when the type is outside the table; else the
/// value of its reading.
pub open spec fn decoded(raw: RawValue) -> Result<JsonModel, Seq<char>> {
    if raw.is_null {
        Ok(JsonModel::Null)
    } else {
        match strategy_of(raw.reported_type@) {
            None => Err(unsupported_message(raw.reported_type@)),
            Some(s) => Ok(value_of(s, raw.reading)),
        }
    }
}

/// A decode result as values of the model.
pub open spec fn result_model(r: Result<JsonValue, String>) -> Result<JsonModel, Seq<char>> {
    match r {
        Ok(j) => Ok(j@),
        Err(e) => Err(e@),
    }
}

/// A row's decode result as values of the model.
pub open spec fn row_model(r: Result<RowMap, String>) -> Result<Map<Seq<char>, JsonModel>, Seq<char>> {
    match r {
        Ok(m) => Ok(m@),
        Err(e) => Err(e@),
    }
}

/// A result's decode outcome as values of the model.
pub open spec fn rows_model(r: Result<Vec<RowMap>, String>) -> Result<Seq<Map<Seq<char>, JsonModel>>, Seq<char>> {
    match r {
        Ok(ms) => Ok(ms@.map_values(|m: RowMap| m@)),
        Err(e) => Err(e@),
    }
}

/// Every mapping in the result is well formed.
pub open spec fn rows_wf(r: Result<Vec<RowMap>, String>) -> bool {
    r matches Ok(ms) ==> forall|i: int| 0 <= i < ms@.len() ==> #[trigger] ms@[i].wf()
}

/// Builds the JSON value of a reading under a strategy.
pub fn json_of(strategy: Strategy, reading: Option<Reading>) -> (r: JsonValue)
    ensures
        r@ == value_of(strategy, reading),
{
    match reading {
        None => JsonValue::Null,
        Some(rd) => match (strategy, rd) {
            (Strategy::Text, Reading::Text(t)) => JsonValue::Text(t),
            (Strategy::Date, Reading::Text(t)) => JsonValue::Text(t),
            (Strategy::Time, Reading::Text(t)) => JsonValue::Text(t),
            (Strategy::DateTime, Reading::Text(t)) => JsonValue::Text(t),
            (Strategy::Timestamp, Reading::Text(t)) => JsonValue::Text(t),
            (Strategy::Float32, Reading::Float(n)) => JsonValue::Float(n),
            (Strategy::Float64, Reading::Float(n)) => JsonValue::Float(n),
            (Strategy::Signed, Reading::Signed(i)) => JsonValue::Int(i),
            (Strategy::Unsigned, Reading::Unsigned(u)) => JsonValue::UInt(u),
            (Strategy::Boolean, Reading::Bool(b)) => JsonValue::Bool(b),
            (Strategy::Json, Reading::Document(d)) => JsonValue::Document(d),
            (Strategy::Blob, Reading::Bytes(b)) => bytes_to_array(&b),
            _ => JsonValue::Null,
        },
    }
}

/// Builds the error text for the type name `name`.
pub fn unsupported_type(name: &str) -> (r: String)
    ensures
        r@ == unsupported_message(name@),
{
    String::from_str("Unsupported type: ").concat(name)
}

/// Decodes one raw value.
pub fn decode_raw(raw: RawValue) -> (r: Result<JsonValue, String>)
    ensures
        result_model(r) == decoded(raw),
{
    if raw.is_null {
        return Ok(JsonValue::Null);
    }
    match strategy_for(raw.reported_type.as_str()) {
        None => Err(unsupported_type(raw.reported_type.as_str())),
        Some(s) => Ok(json_of(s, raw.reading)),
    }
}

} // verus!

verus! {

/// What reading one column gives: the driver's error, or its decoded value.
pub open spec fn cell_result(value: Result<RawValue, String>) -> Result<JsonModel, Seq<char>> {
    match value {
        Err(e) => Err(e@),
        Ok(raw) => decoded(raw),
    }
}

/// The mapping of a row, built column by column; the first column that
/// fails makes the whole row fail with its error.
pub open spec fn row_result(cols: Seq<Column>) -> Result<Map<Seq<char>, JsonModel>, Seq<char>>
    decreases cols.len(),
{
    if cols.len() == 0 {
        Ok(Map::empty())
    } else {
        match row_result(cols.drop_last()) {
            Err(e) => Err(e),
            Ok(m) => match cell_result(cols.last().value) {
                Err(e) => Err(e),
                Ok(j) => Ok(m.insert(cols.last().name@, j)),
            },
        }
    }
}

/// The mappings of all rows, in row order; the first row that fails makes
/// the whole result fail with its error.
pub open spec fn rows_result(rows: Seq<Vec<Column>>) -> Result<Seq<Map<Seq<char>, JsonModel>>, Seq<char>>
    decreases rows.len(),
{
    if rows.len() == 0 {
        Ok(Seq::empty())
    } else {
        match rows_result(rows.drop_last()) {
            Err(e) => Err(e),
            Ok(ms) => match row_result(rows.last()@) {
                Err(e) => Err(e),
                Ok(m) => Ok(ms.push(m)),
            },
        }
    }
}

proof fn lemma_row_error_persists(cols: Seq<Column>, k: int)
    requires
        0 <= k <= cols.len(),
        row_result(cols.take(k)) is Err,
    ensures
        row_result(cols) == row_result(cols.take(k)),
    decreases cols.len() - k,
{
    if k < cols.len() {
        assert(cols.take(k + 1).drop_last() =~= cols.take(k));
        lemma_row_error_persists(cols, k + 1);
    } else {
        assert(cols.take(k) =~= cols);
    }
}

proof fn lemma_rows_error_persists(rows: Seq<Vec<Column>>, k: int)
    requires
        0 <= k <= rows.len(),
        rows_result(rows.take(k)) is Err,
    ensures
        rows_result(rows) == rows_result(rows.take(k)),
    decreases rows.len() - k,
{
    if k < rows.len() {
        assert(rows.take(k + 1).drop_last() =~= rows.take(k));
        lemma_rows_error_persists(rows, k + 1);
    } else {
        assert(rows.take(k) =~= rows);
    }
}

/// The items of `v` in reverse order.
fn reversed<T>(v: Vec<T>) -> (r: Vec<T>)
    ensures
        r@ == v@.reverse(),
{
    let ghost orig = v@;
    let mut v = v;
    let mut r: Vec<T> = Vec::with_capacity(v.len());
    while v.len() > 0
        invariant
            orig == v@ + r@.reverse(),
        decreases v@.len(),
    {
        let x = v.pop().unwrap();
        r.push(x);
        assert(orig =~= v@ + r@.reverse());
    }
    assert(r@.reverse().reverse() =~= r@);
    assert(orig =~= r@.reverse());
    assert(orig.reverse() =~= r@);
    r
}

/// Decodes a row into its mapping, or the error of its first failing column.
pub fn decode_row(cols: Vec<Column>) -> (r: Result<RowMap, String>)
    ensures
        row_model(r) == row_result(cols@),
        r matches Ok(m) ==> m.wf(),
{
    let ghost orig = cols@;
    let n = cols.len();
    let mut rest = reversed(cols);
    let mut map = RowMap::new();
    let mut k: usize = 0;
    while k < n
        invariant
            n == orig.len(),
            orig == cols@,
            k <= n,
            rest@ == orig.subrange(k as int, n as int).reverse(),
            map.wf(),
            row_result(orig.take(k as int)) == Ok::<_, Seq<char>>(map@),
        decreases n - k,
    {
        assert(rest@.len() == n - k);
        let col = rest.pop().unwrap();
        assert(col == orig[k as int]);
        assert(rest@ =~= orig.subrange(k + 1, n as int).reverse());
        assert(orig.take(k + 1).drop_last() =~= orig.take(k as int));
        let Column { name, value } = col;
        match value {
            Err(e) => {
                assert(orig.take(k + 1).last() == orig[k as int]);
                assert(row_result(orig.take(k + 1)) is Err);
                proof {
                    lemma_row_error_persists(orig, k + 1);
                }
                assert(row_result(orig) == Err::<Map<Seq<char>, JsonModel>, Seq<char>>(e@));
                return Err(e);
            },
            Ok(raw) => match decode_raw(raw) {
                Err(e) => {
                    assert(orig.take(k + 1).last() == orig[k as int]);
                    assert(row_result(orig.take(k + 1)) is Err);
                    proof {
                        lemma_row_error_persists(orig, k + 1);
                    }
                    assert(row_result(orig) == Err::<Map<Seq<char>, JsonModel>, Seq<char>>(e@));
                    return Err(e);
                },
                Ok(j) => {
                    map.insert(name, j);
                },
            },
        }
        k = k + 1;
    }
    assert(orig.take(n as int) =~= orig);
    Ok(map)
}

/// Decodes every row, in order, or gives the error of the first failing
/// column. An empty sequence of rows gives an empty sequence of mappings.
pub fn decode_rows(rows: Vec<Vec<Column>>) -> (r: Result<Vec<RowMap>, String>)
    ensures
        rows_model(r) == rows_result(rows@),
        rows_wf(r),
        rows@.len() == 0 ==> (r matches Ok(ms) && ms@.len() == 0),
{
    let ghost orig = rows@;
    let n = rows.len();
    let mut out: Vec<RowMap> = Vec::with_capacity(n);
    if n == 0 {
        assert(out@.map_values(|m: RowMap| m@) =~= Seq::empty());
        return Ok(out);
    }
    let mut rest = reversed(rows);
    let mut k: usize = 0;
    assert(orig.take(0) =~= Seq::<Vec<Column>>::empty());
    assert(out@.map_values(|m: RowMap| m@) =~= Seq::empty());
    while k < n
        invariant
            n == orig.len(),
            orig == rows@,
            k <= n,
            rest@ == orig.subrange(k as int, n as int).reverse(),
            rows_result(orig.take(k as int)) == Ok::<_, Seq<char>>(
                out@.map_values(|m: RowMap| m@),
            ),
            forall|i: int| 0 <= i < out@.len() ==> #[trigger] out@[i].wf(),
        decreases n - k,
    {
        assert(rest@.len() == n - k);
        let row = rest.pop().unwrap();
        assert(row == orig[k as int]);
        assert(rest@ =~= orig.subrange(k + 1, n as int).reverse());
        assert(orig.take(k + 1).drop_last() =~= orig.take(k as int));
        let ghost before = out@;
        match decode_row(row) {
            Err(e) => {
                assert(orig.take(k + 1).last() == orig[k as int]);
                assert(rows_result(orig.take(k + 1)) is Err);
                proof {
                    lemma_rows_error_persists(orig, k + 1);
                }
                assert(rows_result(orig) == Err::<Seq<Map<Seq<char>, JsonModel>>, Seq<char>>(e@));
                return Err(e);
            },
            Ok(m) => {
                out.push(m);
                assert(out@.map_values(|m: RowMap| m@) =~= before.map_values(|m: RowMap| m@).push(
                    m@,
                ));
            },
        }
        k = k + 1;
    }
    assert(orig.take(n as int) =~= orig);
    Ok(out)
}

} // verus!
