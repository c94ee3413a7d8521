use sqlx_to_json::decode::{decode_raw, decode_row, decode_rows, json_of, Column, RawValue, Reading};
use sqlx_to_json::json::{bytes_to_array, JsonValue};
use sqlx_to_json::table::{strategy_for, Strategy};

fn raw(reported: &str, reading: Option<Reading>) -> RawValue {
    RawValue { is_null: false, reported_type: reported.to_string(), reading }
}

fn null_raw(reported: &str) -> RawValue {
    RawValue { is_null: true, reported_type: reported.to_string(), reading: None }
}

fn col(name: &str, value: RawValue) -> Column {
    Column { name: name.to_string(), value: Ok(value) }
}

#[test]
fn null_value_is_null_for_every_type_name() {
    for name in ["INT", "VARCHAR", "BLOB", "JSON", "NULL", "GEOMETRY", "int", ""] {
        assert_eq!(decode_raw(null_raw(name)), Ok(JsonValue::Null));
    }
    let with_reading = RawValue {
        is_null: true,
        reported_type: "INT".to_string(),
        reading: Some(Reading::Signed(5)),
    };
    assert_eq!(decode_raw(with_reading), Ok(JsonValue::Null));
}

#[test]
fn bigint_min_round_trips() {
    assert_eq!(
        decode_raw(raw("BIGINT", Some(Reading::Signed(-9223372036854775808)))),
        Ok(JsonValue::Int(-9223372036854775808))
    );
}

#[test]
fn signed_types_round_trip() {
    for name in ["TINYINT", "SMALLINT", "INT", "MEDIUMINT", "BIGINT"] {
        for v in [i64::MIN, -1, 0, 127, i64::MAX] {
            assert_eq!(decode_raw(raw(name, Some(Reading::Signed(v)))), Ok(JsonValue::Int(v)));
        }
    }
}

#[test]
fn unsigned_max_round_trips() {
    for name in [
        "TINYINT UNSIGNED",
        "SMALLINT UNSIGNED",
        "INT UNSIGNED",
        "MEDIUMINT UNSIGNED",
        "BIGINT UNSIGNED",
        "YEAR",
    ] {
        assert_eq!(
            decode_raw(raw(name, Some(Reading::Unsigned(18446744073709551615)))),
            Ok(JsonValue::UInt(18446744073709551615))
        );
    }
}

#[test]
fn boolean_true_and_false() {
    assert_eq!(decode_raw(raw("BOOLEAN", Some(Reading::Bool(true)))), Ok(JsonValue::Bool(true)));
    assert_eq!(decode_raw(raw("BOOLEAN", Some(Reading::Bool(false)))), Ok(JsonValue::Bool(false)));
}

#[test]
fn date_is_canonical_text() {
    let date = time::Date::from_calendar_date(2024, time::Month::January, 15).unwrap();
    assert_eq!(
        decode_raw(raw("DATE", Some(Reading::Text(date.to_string())))),
        Ok(JsonValue::Text("2024-01-15".to_string()))
    );
}

#[test]
fn temporal_types_keep_their_text() {
    for name in ["TIME", "DATETIME", "TIMESTAMP"] {
        assert_eq!(
            decode_raw(raw(name, Some(Reading::Text("12:30:00.0".to_string())))),
            Ok(JsonValue::Text("12:30:00.0".to_string()))
        );
    }
}

#[test]
fn text_types_decode_to_strings() {
    for name in ["CHAR", "VARCHAR", "TINYTEXT", "TEXT", "MEDIUMTEXT", "LONGTEXT", "ENUM"] {
        assert_eq!(
            decode_raw(raw(name, Some(Reading::Text("héllo".to_string())))),
            Ok(JsonValue::Text("héllo".to_string()))
        );
    }
}

#[test]
fn json_column_is_embedded() {
    let doc: serde_json::Value = serde_json::from_str(r#"{"a":1}"#).unwrap();
    let out = decode_raw(raw("JSON", Some(Reading::Document(doc)))).unwrap();
    match out {
        JsonValue::Document(d) => {
            assert!(d.is_object());
            assert_eq!(d.get("a").and_then(|v| v.as_i64()), Some(1));
            assert_eq!(d.to_string(), r#"{"a":1}"#);
        }
        other => panic!("expected an embedded document, got {:?}", other),
    }
}

#[test]
fn json_column_that_failed_to_parse_is_null() {
    assert_eq!(decode_raw(raw("JSON", None)), Ok(JsonValue::Null));
}

#[test]
fn blob_becomes_array_of_bytes() {
    assert_eq!(
        decode_raw(raw("BLOB", Some(Reading::Bytes(vec![0, 255, 16])))),
        Ok(JsonValue::Array(vec![JsonValue::UInt(0), JsonValue::UInt(255), JsonValue::UInt(16)]))
    );
    for name in ["TINYBLOB", "MEDIUMBLOB", "LONGBLOB"] {
        assert_eq!(
            decode_raw(raw(name, Some(Reading::Bytes(vec![])))),
            Ok(JsonValue::Array(vec![]))
        );
    }
}

#[test]
fn bytes_to_array_keeps_order() {
    assert_eq!(
        bytes_to_array(&vec![3, 1, 2]),
        JsonValue::Array(vec![JsonValue::UInt(3), JsonValue::UInt(1), JsonValue::UInt(2)])
    );
}

#[test]
fn float_reading_becomes_number() {
    let n = serde_json::Number::from_f64(1.5).unwrap();
    assert_eq!(
        decode_raw(raw("DOUBLE", Some(Reading::Float(n.clone())))),
        Ok(JsonValue::Float(n.clone()))
    );
    assert_eq!(decode_raw(raw("FLOAT", Some(Reading::Float(n.clone())))), Ok(JsonValue::Float(n)));
    assert_eq!(decode_raw(raw("FLOAT", None)), Ok(JsonValue::Null));
}

#[test]
fn null_type_marker_is_null() {
    assert_eq!(decode_raw(raw("NULL", None)), Ok(JsonValue::Null));
    assert_eq!(decode_raw(raw("NULL", Some(Reading::Signed(1)))), Ok(JsonValue::Null));
}

#[test]
fn unknown_type_is_an_error_naming_it() {
    assert_eq!(
        decode_raw(raw("GEOMETRY", None)),
        Err("Unsupported type: GEOMETRY".to_string())
    );
    assert_eq!(decode_raw(raw("int", None)), Err("Unsupported type: int".to_string()));
}

#[test]
fn failed_decode_is_null() {
    assert_eq!(decode_raw(raw("INT", None)), Ok(JsonValue::Null));
    assert_eq!(
        decode_raw(raw("INT", Some(Reading::Text("12".to_string())))),
        Ok(JsonValue::Null)
    );
}

#[test]
fn json_of_applies_strategy() {
    assert_eq!(json_of(Strategy::Signed, Some(Reading::Signed(7))), JsonValue::Int(7));
    assert_eq!(json_of(Strategy::Signed, Some(Reading::Unsigned(7))), JsonValue::Null);
    assert_eq!(json_of(Strategy::Text, None), JsonValue::Null);
}

#[test]
fn table_matches_exact_names() {
    assert_eq!(strategy_for("VARCHAR"), Some(Strategy::Text));
    assert_eq!(strategy_for("FLOAT"), Some(Strategy::Float32));
    assert_eq!(strategy_for("DOUBLE"), Some(Strategy::Float64));
    assert_eq!(strategy_for("MEDIUMINT"), Some(Strategy::Signed));
    assert_eq!(strategy_for("YEAR"), Some(Strategy::Unsigned));
    assert_eq!(strategy_for("BOOLEAN"), Some(Strategy::Boolean));
    assert_eq!(strategy_for("DATE"), Some(Strategy::Date));
    assert_eq!(strategy_for("TIME"), Some(Strategy::Time));
    assert_eq!(strategy_for("DATETIME"), Some(Strategy::DateTime));
    assert_eq!(strategy_for("TIMESTAMP"), Some(Strategy::Timestamp));
    assert_eq!(strategy_for("JSON"), Some(Strategy::Json));
    assert_eq!(strategy_for("TINYBLOB"), Some(Strategy::Blob));
    assert_eq!(strategy_for("NULL"), Some(Strategy::NullMarker));
    assert_eq!(strategy_for("varchar"), None);
    assert_eq!(strategy_for("INT "), None);
    assert_eq!(strategy_for("DECIMAL"), None);
    assert_eq!(strategy_for(""), None);
}

fn sample_rows() -> Vec<Vec<Column>> {
    vec![
        vec![
            col("id", raw("INT", Some(Reading::Signed(1)))),
            col("name", raw("VARCHAR", Some(Reading::Text("ann".to_string())))),
        ],
        vec![
            col("id", raw("INT", None)),
            col("name", null_raw("VARCHAR")),
        ],
    ]
}

#[test]
fn empty_rows_give_empty_output() {
    let out = decode_rows(vec![]).unwrap();
    assert!(out.is_empty());
}

#[test]
fn rows_keep_their_order() {
    let out = decode_rows(sample_rows()).unwrap();
    assert_eq!(out.len(), 2);
    assert_eq!(out[0].get("id"), Some(&JsonValue::Int(1)));
    assert_eq!(out[0].get("name"), Some(&JsonValue::Text("ann".to_string())));
    assert_eq!(out[1].get("name"), Some(&JsonValue::Null));
    assert_eq!(out[0].get("missing"), None);
    assert_eq!(out[0].len(), 2);
}

#[test]
fn corrupt_cell_degrades_alone() {
    let out = decode_rows(vec![
        vec![
            col("a", raw("INT", Some(Reading::Signed(4)))),
            col("b", raw("INT", None)),
            col("c", raw("VARCHAR", Some(Reading::Text("x".to_string())))),
        ],
        vec![col("a", raw("INT", Some(Reading::Signed(5))))],
    ])
    .unwrap();
    assert_eq!(out[0].get("a"), Some(&JsonValue::Int(4)));
    assert_eq!(out[0].get("b"), Some(&JsonValue::Null));
    assert_eq!(out[0].get("c"), Some(&JsonValue::Text("x".to_string())));
    assert_eq!(out[1].get("a"), Some(&JsonValue::Int(5)));
}

#[test]
fn unknown_type_aborts_conversion() {
    let mut rows = sample_rows();
    rows.push(vec![
        col("id", raw("INT", Some(Reading::Signed(3)))),
        col("shape", raw("GEOMETRY", None)),
    ]);
    assert_eq!(decode_rows(rows).err(), Some("Unsupported type: GEOMETRY".to_string()));
}

#[test]
fn first_error_in_row_order_wins() {
    let rows = vec![
        vec![
            col("a", raw("POINT", None)),
            Column { name: "b".to_string(), value: Err("connection lost".to_string()) },
        ],
        vec![col("c", raw("GEOMETRY", None))],
    ];
    assert_eq!(decode_rows(rows).err(), Some("Unsupported type: POINT".to_string()));
}

#[test]
fn read_error_aborts_conversion() {
    let rows = vec![vec![
        col("a", raw("INT", Some(Reading::Signed(1)))),
        Column { name: "b".to_string(), value: Err("connection lost".to_string()) },
    ]];
    assert_eq!(decode_rows(rows).err(), Some("connection lost".to_string()));
}

#[test]
fn duplicate_column_names_overwrite() {
    let row = decode_row(vec![
        col("x", raw("INT", Some(Reading::Signed(1)))),
        col("y", raw("INT", Some(Reading::Signed(2)))),
        col("x", raw("INT", Some(Reading::Signed(3)))),
    ])
    .unwrap();
    assert_eq!(row.len(), 2);
    assert_eq!(row.get("x"), Some(&JsonValue::Int(3)));
    let entries = row.into_entries();
    assert_eq!(entries[0], ("x".to_string(), JsonValue::Int(3)));
    assert_eq!(entries[1], ("y".to_string(), JsonValue::Int(2)));
}

#[test]
fn conversion_is_repeatable() {
    let first: Vec<_> = decode_rows(sample_rows()).unwrap().into_iter().map(|m| m.into_entries()).collect();
    let second: Vec<_> = decode_rows(sample_rows()).unwrap().into_iter().map(|m| m.into_entries()).collect();
    assert_eq!(first, second);
}
