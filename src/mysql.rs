//! Reading the rows and values of the MySQL driver.
use vstd::prelude::*;

use sqlx::mysql::{MySqlRow, MySqlValue, MySqlValueRef};

use crate::decode::{
    decode_raw, decode_rows, decoded, result_model, rows_model, rows_result, rows_wf,
    unsupported_message, Column, RawValue, Reading,
};
use crate::json::{JsonModel, JsonValue};
use crate::row_map::RowMap;
use crate::table::{strategy_for, strategy_of, Strategy};

verus! {

#[verifier::external_type_specification]
#[verifier::external_body]
pub struct ExMySqlRow(MySqlRow);

#[verifier::external_type_specification]
#[verifier::external_body]
pub struct ExMySqlValue(MySqlValue);

#[verifier::external_type_specification]
#[verifier::external_body]
pub struct ExMySqlValueRef<'r>(MySqlValueRef<'r>);

/// The owned copy of a borrowed driver value.
pub uninterp spec fn owned_of(v: MySqlValueRef) -> MySqlValue;

/// Whether the driver reports the value as null.
pub uninterp spec fn null_flag_of(v: MySqlValue) -> bool;

/// The type name the driver reports for the value.
pub uninterp spec fn reported_name_of(v: MySqlValue) -> Seq<char>;

/// The value's raw payload, where it has one.
pub uninterp spec fn payload_of(v: MySqlValue) -> Option<Seq<u8>>;

/// The value decoded as text.
pub uninterp spec fn text_of(v: MySqlValue) -> Option<Seq<char>>;

/// The value decoded as a 64-bit signed integer.
pub uninterp spec fn signed_of(v: MySqlValue) -> Option<i64>;

/// The value decoded as a 64-bit unsigned integer.
pub uninterp spec fn unsigned_of(v: MySqlValue) -> Option<u64>;

/// The value decoded as a boolean.
pub uninterp spec fn bool_of(v: MySqlValue) -> Option<bool>;

/// The canonical text of the value decoded as a date.
pub uninterp spec fn date_text_of(v: MySqlValue) -> Option<Seq<char>>;

/// The canonical text of the value decoded as a time of day.
pub uninterp spec fn time_text_of(v: MySqlValue) -> Option<Seq<char>>;

/// The canonical text of the value decoded as a date and time.
pub uninterp spec fn datetime_text_of(v: MySqlValue) -> Option<Seq<char>>;

/// The canonical text of the value decoded as a date and time with offset.
pub uninterp spec fn timestamp_text_of(v: MySqlValue) -> Option<Seq<char>>;

/// Whether the value decodes as a JSON document.
pub uninterp spec fn document_parses(v: MySqlValue) -> bool;

/// The value decoded as bytes.
pub uninterp spec fn bytes_of(v: MySqlValue) -> Option<Seq<u8>>;

/// The names of the row's columns, in column order.
pub uninterp spec fn column_names_of(row: MySqlRow) -> Seq<Seq<char>>;

/// The owned value of column `i` of the row.
pub uninterp spec fn cell_of(row: MySqlRow, i: usize) -> MySqlValue;

/// An optional string as an optional character sequence.
pub open spec fn text_opt(r: Option<String>) -> Option<Seq<char>> {
    match r {
        Some(t) => Some(t@),
        None => None,
    }
}

/// An optional byte vector as an optional byte sequence.
pub open spec fn bytes_opt(r: Option<Vec<u8>>) -> Option<Seq<u8>> {
    match r {
        Some(b) => Some(b@),
        None => None,
    }
}

/// A payload that cannot be a binary-protocol value, or whose binary layout
/// the date decoder reads without running past its end. In a binary row the
/// driver slices a temporal value as its length byte plus that many bytes.
pub open spec fn date_payload_ok(b: Seq<u8>) -> bool {
    b.len() == 0 || b.len() != b[0] as int + 1 || b.len() == 1 || b.len() >= 5
}

/// As `date_payload_ok`, for the date-and-time decoder: a date part of four
/// bytes and, where the length byte asks for a time, three bytes of time and
/// at most eight of microseconds.
pub open spec fn datetime_payload_ok(b: Seq<u8>) -> bool {
    b.len() == 0 || b.len() != b[0] as int + 1 || b.len() == 1 || (b.len() >= 5 && (b[0] <= 4 || (
    8 <= b.len() <= 16)))
}

/// Relies on sqlx's `ValueRef::to_owned`.
#[verifier::external_body]
fn to_owned_value(v: &MySqlValueRef) -> (r: MySqlValue)
    ensures
        r == owned_of(*v),
{
    sqlx::ValueRef::to_owned(v)
}

/// Relies on sqlx's `Value::is_null` for MySQL values.
#[verifier::external_body]
fn value_is_null(v: &MySqlValue) -> (r: bool)
    ensures
        r == null_flag_of(*v),
{
    sqlx::Value::is_null(v)
}

/// Relies on sqlx's `TypeInfo::name` of the value's type information.
#[verifier::external_body]
fn reported_type_of(v: &MySqlValue) -> (r: String)
    ensures
        r@ == reported_name_of(*v),
{
    sqlx::TypeInfo::name(&*sqlx::Value::type_info(v)).to_string()
}

/// Relies on sqlx's `Value::try_decode_unchecked` into `Vec<u8>`: the raw
/// payload, without a check of the column type.
#[verifier::external_body]
fn raw_payload(v: &MySqlValue) -> (r: Option<Vec<u8>>)
    ensures
        bytes_opt(r) == payload_of(*v),
{
    sqlx::Value::try_decode_unchecked::<Vec<u8>>(v).ok()
}

/// Relies on sqlx's `Value::try_decode` into `String`.
#[verifier::external_body]
fn decode_text(v: &MySqlValue) -> (r: Option<String>)
    ensures
        text_opt(r) == text_of(*v),
{
    sqlx::Value::try_decode::<String>(v).ok()
}

/// Relies on sqlx's `Value::try_decode` into `i64`.
#[verifier::external_body]
fn decode_signed(v: &MySqlValue) -> (r: Option<i64>)
    ensures
        r == signed_of(*v),
{
    sqlx::Value::try_decode::<i64>(v).ok()
}

/// Relies on sqlx's `Value::try_decode` into `u64`.
#[verifier::external_body]
fn decode_unsigned(v: &MySqlValue) -> (r: Option<u64>)
    ensures
        r == unsigned_of(*v),
{
    sqlx::Value::try_decode::<u64>(v).ok()
}

/// Relies on sqlx's `Value::try_decode` into `bool`.
#[verifier::external_body]
fn decode_bool(v: &MySqlValue) -> (r: Option<bool>)
    ensures
        r == bool_of(*v),
{
    sqlx::Value::try_decode::<bool>(v).ok()
}

/// Relies on sqlx's `Value::try_decode` into `time::Date`, rendered by its
/// `Display` (`2024-01-15`). The binary decoder indexes the payload
/// unchecked, so the payload's layout is checked first.
#[verifier::external_body]
fn decode_date(v: &MySqlValue) -> (r: Option<String>)
    requires
        payload_of(*v) matches Some(b) ==> date_payload_ok(b),
    ensures
        text_opt(r) == date_text_of(*v),
{
    sqlx::Value::try_decode::<time::Date>(v).ok().map(|d| d.to_string())
}

/// Relies on sqlx's `Value::try_decode` into `time::Time`, rendered by its
/// `Display`.
#[verifier::external_body]
fn decode_time(v: &MySqlValue) -> (r: Option<String>)
    ensures
        text_opt(r) == time_text_of(*v),
{
    sqlx::Value::try_decode::<time::Time>(v).ok().map(|t| t.to_string())
}

/// Relies on sqlx's `Value::try_decode` into `time::PrimitiveDateTime`,
/// rendered by its `Display`. The binary decoder indexes the payload
/// unchecked, so the payload's layout is checked first.
#[verifier::external_body]
fn decode_datetime(v: &MySqlValue) -> (r: Option<String>)
    requires
        payload_of(*v) matches Some(b) ==> datetime_payload_ok(b),
    ensures
        text_opt(r) == datetime_text_of(*v),
{
    sqlx::Value::try_decode::<time::PrimitiveDateTime>(v).ok().map(|t| t.to_string())
}

/// Relies on sqlx's `Value::try_decode` into `time::OffsetDateTime`, rendered
/// by its `Display`. It decodes as the date-and-time decoder does.
#[verifier::external_body]
fn decode_timestamp(v: &MySqlValue) -> (r: Option<String>)
    requires
        payload_of(*v) matches Some(b) ==> datetime_payload_ok(b),
    ensures
        text_opt(r) == timestamp_text_of(*v),
{
    sqlx::Value::try_decode::<time::OffsetDateTime>(v).ok().map(|t| t.to_string())
}

/// Relies on sqlx's `Value::try_decode` into `serde_json::Value`, which
/// parses the column's JSON text.
#[verifier::external_body]
fn decode_document(v: &MySqlValue) -> (r: Option<serde_json::Value>)
    ensures
        r is Some <==> document_parses(*v),
{
    sqlx::Value::try_decode::<serde_json::Value>(v).ok()
}

/// Relies on sqlx's `Value::try_decode` into `Vec<u8>`.
#[verifier::external_body]
fn decode_bytes(v: &MySqlValue) -> (r: Option<Vec<u8>>)
    ensures
        bytes_opt(r) == bytes_of(*v),
{
    sqlx::Value::try_decode::<Vec<u8>>(v).ok()
}

/// Relies on sqlx's `Row::columns` and `Column::name`: the names of the
/// row's columns, in column order.
#[verifier::external_body]
fn column_names(row: &MySqlRow) -> (r: Vec<String>)
    ensures
        r@.map_values(|s: String| s@) == column_names_of(*row),
{
    sqlx::Row::columns(row).iter().map(|c| sqlx::Column::name(c).to_string()).collect()
}

/// Relies on sqlx's `Row::try_get_raw`, which fails only for an index past
/// the last column, and `ValueRef::to_owned`: the owned value of column `i`,
/// or the driver's error as text.
#[verifier::external_body]
fn raw_at(row: &MySqlRow, i: usize) -> (r: Result<MySqlValue, String>)
    ensures
        r matches Ok(v) ==> v == cell_of(*row, i),
        r is Err ==> i >= column_names_of(*row).len(),
{
    sqlx::Row::try_get_raw(row, i).map(|v| sqlx::ValueRef::to_owned(&v)).map_err(|e| e.to_string())
}

} // verus!

verus! {

/// A text reading that agrees with what the driver gives.
pub open spec fn text_read(rd: Option<Reading>, expected: Option<Seq<char>>) -> bool {
    match rd {
        Some(Reading::Text(t)) => expected == Some(t@),
        None => expected is None,
        _ => false,
    }
}

/// The date text of a value, where its payload is safe to decode.
pub open spec fn guarded_date_text(v: MySqlValue) -> Option<Seq<char>> {
    if payload_of(v) matches Some(b) && date_payload_ok(b) {
        date_text_of(v)
    } else {
        None
    }
}

/// The date-and-time text of a value, where its payload is safe to decode.
pub open spec fn guarded_datetime_text(v: MySqlValue) -> Option<Seq<char>> {
    if payload_of(v) matches Some(b) && datetime_payload_ok(b) {
        datetime_text_of(v)
    } else {
        None
    }
}

/// The timestamp text of a value, where its payload is safe to decode.
pub open spec fn guarded_timestamp_text(v: MySqlValue) -> Option<Seq<char>> {
    if payload_of(v) matches Some(b) && datetime_payload_ok(b) {
        timestamp_text_of(v)
    } else {
        None
    }
}

/// The reading is the driver's typed decode attempt for `strategy` on `v`.
/// A floating-point reading, made outside the library, is a number or none.
pub open spec fn reading_matches(strategy: Strategy, v: MySqlValue, rd: Option<Reading>) -> bool {
    match strategy {
        Strategy::Text => text_read(rd, text_of(v)),
        Strategy::Date => text_read(rd, guarded_date_text(v)),
        Strategy::Time => text_read(rd, time_text_of(v)),
        Strategy::DateTime => text_read(rd, guarded_datetime_text(v)),
        Strategy::Timestamp => text_read(rd, guarded_timestamp_text(v)),
        Strategy::Signed => match rd {
            Some(Reading::Signed(i)) => signed_of(v) == Some(i),
            None => signed_of(v) is None,
            _ => false,
        },
        Strategy::Unsigned => match rd {
            Some(Reading::Unsigned(u)) => unsigned_of(v) == Some(u),
            None => unsigned_of(v) is None,
            _ => false,
        },
        Strategy::Boolean => match rd {
            Some(Reading::Bool(b)) => bool_of(v) == Some(b),
            None => bool_of(v) is None,
            _ => false,
        },
        Strategy::Json => match rd {
            Some(Reading::Document(_)) => document_parses(v),
            None => !document_parses(v),
            _ => false,
        },
        Strategy::Blob => match rd {
            Some(Reading::Bytes(b)) => bytes_of(v) == Some(b@),
            None => bytes_of(v) is None,
            _ => false,
        },
        Strategy::Float32 | Strategy::Float64 => rd is None || rd matches Some(Reading::Float(_)),
        Strategy::NullMarker => rd is None,
    }
}

/// The raw value is what the driver reports of `v`: its null flag, its type
/// name and, for a non-null value of a type in the table, the typed decode
/// attempt for that type.
pub open spec fn raw_reads(raw: RawValue, v: MySqlValue) -> bool {
    &&& raw.is_null == null_flag_of(v)
    &&& raw.reported_type@ == reported_name_of(v)
    &&& if !raw.is_null && strategy_of(raw.reported_type@) is Some {
        reading_matches(strategy_of(raw.reported_type@)->0, v, raw.reading)
    } else {
        raw.reading is None
    }
}

/// The columns are those of the driver row, in order, each read as
/// `raw_reads` says.
pub open spec fn columns_read(cols: Seq<Column>, row: MySqlRow) -> bool {
    &&& cols.len() == column_names_of(row).len()
    &&& forall|i: int|
        0 <= i < cols.len() ==> {
            &&& (#[trigger] cols[i]).name@ == column_names_of(row)[i]
            &&& cols[i].value matches Ok(raw) && raw_reads(raw, cell_of(row, i as usize))
        }
}

/// Whether a payload is safe for the date decoder.
pub fn date_payload_safe(b: &Vec<u8>) -> (r: bool)
    ensures
        r == date_payload_ok(b@),
{
    let n = b.len();
    n == 0 || n - 1 != b[0] as usize || n == 1 || n >= 5
}

/// Whether a payload is safe for the date-and-time decoder.
pub fn datetime_payload_safe(b: &Vec<u8>) -> (r: bool)
    ensures
        r == datetime_payload_ok(b@),
{
    let n = b.len();
    n == 0 || n - 1 != b[0] as usize || n == 1 || (n >= 5 && (b[0] <= 4 || (8 <= n && n <= 16)))
}

/// The typed decode attempt for `strategy` on a non-null value. Floating-point
/// values are read by `read_float`, with `true` for double precision.
pub fn read_value<F>(strategy: Strategy, v: &MySqlValue, read_float: &F) -> (r: Option<Reading>)
    where
        F: Fn(&MySqlValue, bool) -> Option<serde_json::Number>,
    requires
        forall|x: &MySqlValue, double: bool| read_float.requires((x, double)),
    ensures
        reading_matches(strategy, *v, r),
{
    match strategy {
        Strategy::Text => match decode_text(v) {
            Some(t) => Some(Reading::Text(t)),
            None => None,
        },
        Strategy::Float32 => match read_float(v, false) {
            Some(n) => Some(Reading::Float(n)),
            None => None,
        },
        Strategy::Float64 => match read_float(v, true) {
            Some(n) => Some(Reading::Float(n)),
            None => None,
        },
        Strategy::Signed => match decode_signed(v) {
            Some(i) => Some(Reading::Signed(i)),
            None => None,
        },
        Strategy::Unsigned => match decode_unsigned(v) {
            Some(u) => Some(Reading::Unsigned(u)),
            None => None,
        },
        Strategy::Boolean => match decode_bool(v) {
            Some(b) => Some(Reading::Bool(b)),
            None => None,
        },
        Strategy::Date => match raw_payload(v) {
            Some(b) => if date_payload_safe(&b) {
                match decode_date(v) {
                    Some(t) => Some(Reading::Text(t)),
                    None => None,
                }
            } else {
                None
            },
            None => None,
        },
        Strategy::Time => match decode_time(v) {
            Some(t) => Some(Reading::Text(t)),
            None => None,
        },
        Strategy::DateTime => match raw_payload(v) {
            Some(b) => if datetime_payload_safe(&b) {
                match decode_datetime(v) {
                    Some(t) => Some(Reading::Text(t)),
                    None => None,
                }
            } else {
                None
            },
            None => None,
        },
        Strategy::Timestamp => match raw_payload(v) {
            Some(b) => if datetime_payload_safe(&b) {
                match decode_timestamp(v) {
                    Some(t) => Some(Reading::Text(t)),
                    None => None,
                }
            } else {
                None
            },
            None => None,
        },
        Strategy::Json => match decode_document(v) {
            Some(d) => Some(Reading::Document(d)),
            None => None,
        },
        Strategy::Blob => match decode_bytes(v) {
            Some(b) => Some(Reading::Bytes(b)),
            None => None,
        },
        Strategy::NullMarker => None,
    }
}

/// Reads a driver value into plain values.
pub fn raw_value_of<F>(v: &MySqlValue, read_float: &F) -> (r: RawValue)
    where
        F: Fn(&MySqlValue, bool) -> Option<serde_json::Number>,
    requires
        forall|x: &MySqlValue, double: bool| read_float.requires((x, double)),
    ensures
        raw_reads(r, *v),
{
    let is_null = value_is_null(v);
    let reported_type = reported_type_of(v);
    let reading = if is_null {
        None
    } else {
        match strategy_for(reported_type.as_str()) {
            None => None,
            Some(s) => read_value(s, v, read_float),
        }
    };
    RawValue { is_null, reported_type, reading }
}

/// Decodes one driver value into JSON: null for a null value, an error
/// naming the type for a type outside the table, else the value of the
/// typed decode attempt for its type, null where that failed.
pub fn row_value_to_json<F>(row_value: MySqlValueRef, read_float: &F) -> (r: Result<JsonValue, String>)
    where
        F: Fn(&MySqlValue, bool) -> Option<serde_json::Number>,
    requires
        forall|x: &MySqlValue, double: bool| read_float.requires((x, double)),
    ensures
        null_flag_of(owned_of(row_value)) ==> result_model(r) == Ok::<JsonModel, Seq<char>>(
            JsonModel::Null,
        ),
        !null_flag_of(owned_of(row_value)) && strategy_of(reported_name_of(owned_of(row_value)))
            is None ==> result_model(r) == Err::<JsonModel, Seq<char>>(
            unsupported_message(reported_name_of(owned_of(row_value))),
        ),
        exists|raw: RawValue|
            raw_reads(raw, owned_of(row_value)) && #[trigger] decoded(raw) == result_model(r),
{
    let owned = to_owned_value(&row_value);
    let raw = raw_value_of(&owned, read_float);
    let ghost seen = raw;
    let r = decode_raw(raw);
    assert(raw_reads(seen, owned_of(row_value)) && decoded(seen) == result_model(r));
    r
}

/// Reads the columns of a driver row into plain values, in column order.
pub fn columns_of<F>(row: &MySqlRow, read_float: &F) -> (r: Vec<Column>)
    where
        F: Fn(&MySqlValue, bool) -> Option<serde_json::Number>,
    requires
        forall|x: &MySqlValue, double: bool| read_float.requires((x, double)),
    ensures
        columns_read(r@, *row),
{
    let names = column_names(row);
    let ghost shown = names@.map_values(|s: String| s@);
    assert(shown.len() == names@.len());
    let mut cols: Vec<Column> = Vec::with_capacity(names.len());
    let mut i: usize = 0;
    while i < names.len()
        invariant
            forall|x: &MySqlValue, double: bool| read_float.requires((x, double)),
            shown == column_names_of(*row),
            shown == names@.map_values(|s: String| s@),
            i <= names@.len(),
            cols@.len() == i,
            forall|j: int|
                0 <= j < i ==> {
                    &&& (#[trigger] cols@[j]).name@ == column_names_of(*row)[j]
                    &&& cols@[j].value matches Ok(raw) && raw_reads(raw, cell_of(*row, j as usize))
                },
        decreases names@.len() - i,
    {
        assert(shown[i as int] == names@[i as int]@);
        let value = match raw_at(row, i) {
            Ok(v) => Ok(raw_value_of(&v, read_float)),
            Err(e) => Err(e),
        };
        cols.push(Column { name: names[i].clone(), value });
        i = i + 1;
    }
    cols
}

/// Converts a query result into one JSON mapping per row, in row order, or
/// the first error met (in row order, then column order). An empty result
/// gives an empty sequence.
pub fn rows_to_json<F>(rows: Vec<MySqlRow>, read_float: &F) -> (r: Result<Vec<RowMap>, String>)
    where
        F: Fn(&MySqlValue, bool) -> Option<serde_json::Number>,
    requires
        forall|x: &MySqlValue, double: bool| read_float.requires((x, double)),
    ensures
        rows@.len() == 0 ==> (r matches Ok(ms) && ms@.len() == 0),
        rows_wf(r),
        exists|seen: Seq<Vec<Column>>|
            {
                &&& seen.len() == rows@.len()
                &&& forall|k: int| 0 <= k < seen.len() ==> columns_read(#[trigger] seen[k]@, rows@[k])
                &&& rows_result(seen) == rows_model(r)
            },
{
    if rows.len() == 0 {
        let out: Vec<RowMap> = Vec::new();
        assert(out@.map_values(|m: RowMap| m@) =~= Seq::empty());
        assert(rows_result(Seq::<Vec<Column>>::empty()) == rows_model(Ok(out)));
        return Ok(out);
    }
    let mut seen: Vec<Vec<Column>> = Vec::with_capacity(rows.len());
    let mut k: usize = 0;
    while k < rows.len()
        invariant
            forall|x: &MySqlValue, double: bool| read_float.requires((x, double)),
            k <= rows@.len(),
            seen@.len() == k,
            forall|j: int| 0 <= j < k ==> columns_read(#[trigger] seen@[j]@, rows@[j]),
        decreases rows@.len() - k,
    {
        seen.push(columns_of(&rows[k], read_float));
        k = k + 1;
    }
    let ghost s = seen@;
    let r = decode_rows(seen);
    assert(s.len() == rows@.len() && rows_result(s) == rows_model(r));
    r
}

} // verus!
