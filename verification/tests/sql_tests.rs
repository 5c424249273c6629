use log_saver::json::JsonValue;
use log_saver::report::cell;
use log_saver::sql::{create_table_statement, insert_statement, report_statement, search_statement};
use log_saver::utils::json_html_syntect;

fn from_serde(v: &serde_json::Value) -> JsonValue {
    match v {
        serde_json::Value::Null => JsonValue::Null,
        serde_json::Value::Bool(b) => JsonValue::Bool(*b),
        serde_json::Value::Number(n) => JsonValue::Number(n.to_string()),
        serde_json::Value::String(s) => JsonValue::String(s.clone()),
        serde_json::Value::Array(a) => JsonValue::Array(a.iter().map(from_serde).collect()),
        serde_json::Value::Object(m) => {
            JsonValue::Object(m.iter().map(|(k, x)| (k.clone(), from_serde(x))).collect())
        }
    }
}

#[test]
fn text_matches_serde_json() {
    let docs = [
        "null",
        "[1,2.5,-3,true,false,null]",
        "{\"b\":{\"x\":[]},\"a\":\"q\\\"\\\\\\n\\t\\b\\f\\r\\u0001\\u001f\\u007f é ✓\"}",
        "[{}]",
        "\"ключ\"",
    ];
    for d in docs {
        let v: serde_json::Value = serde_json::from_str(d).unwrap();
        assert_eq!(from_serde(&v).text(), v.to_string(), "{}", d);
    }
}

#[test]
fn string_cell_is_quoted() {
    assert_eq!(cell(Some(&JsonValue::String("x".to_string()))), "\"x\",");
    assert_eq!(cell(Some(&JsonValue::String("\u{1}".to_string()))), "\"\\u0001\",");
}

#[test]
fn insert_binds_data_then_time() {
    let data = sea_query::Value::Json(Some(Box::new(serde_json::Value::Bool(true))));
    let time = sea_query::Value::Int(Some(1));
    let (sql, values) = insert_statement("indexes", "logs", data.clone(), time.clone());
    assert_eq!(sql, "INSERT INTO \"indexes\".\"logs\" (\"data\", \"timestamp\") VALUES ($1, $2)");
    assert_eq!(values, vec![data, time]);
    let (sql, _) = insert_statement("s", "a\"b", sea_query::Value::Int(None), sea_query::Value::Int(None));
    assert_eq!(sql, "INSERT INTO \"s\".\"a\"\"b\" (\"data\", \"timestamp\") VALUES ($1, $2)");
}

#[test]
fn create_table_text() {
    assert_eq!(
        create_table_statement("indexes", "logs"),
        "CREATE TABLE \"indexes\".\"logs\" ( \"id\" uuid DEFAULT uuid_generate_v4() NOT NULL, \"timestamp\" timestamp with time zone DEFAULT NOW() NOT NULL, \"data\" jsonb NOT NULL )"
    );
}

#[test]
fn search_binds_start_then_end() {
    let d1 = chrono::NaiveDate::from_ymd_opt(2024, 1, 2).unwrap();
    let d2 = chrono::NaiveDate::from_ymd_opt(2024, 3, 4).unwrap();
    let (q, v) = search_statement("indexes", "logs", &None, None, None, sea_query::Value::from(d1), None);
    assert_eq!(
        q,
        "SELECT \"id\", \"timestamp\", \"data\" FROM \"indexes\".\"logs\" WHERE \"timestamp\" > $1 AND (1 = 1) LIMIT $2 OFFSET $3"
    );
    assert_eq!(v, vec![sea_query::Value::from(d1), sea_query::Value::from(10u64), sea_query::Value::from(0u64)]);
    let (q, v) = search_statement(
        "indexes",
        "logs",
        &Some("$.a".to_string()),
        Some(5),
        Some(1),
        sea_query::Value::from(d1),
        Some(sea_query::Value::from(d2)),
    );
    assert_eq!(
        q,
        "SELECT \"id\", \"timestamp\", \"data\" FROM \"indexes\".\"logs\" WHERE \"timestamp\" > $1 AND (\"data\" @@ '$.a') AND \"timestamp\" < $2 LIMIT $3 OFFSET $4"
    );
    assert_eq!(
        v,
        vec![
            sea_query::Value::from(d1),
            sea_query::Value::from(d2),
            sea_query::Value::from(5u64),
            sea_query::Value::from(1u64)
        ]
    );
}

#[test]
fn report_reads_from_the_moment_on() {
    let t = chrono::NaiveDate::from_ymd_opt(2024, 1, 2).unwrap().and_hms_opt(3, 4, 5).unwrap();
    let (q, v) = report_statement("indexes", "logs", "$.b", sea_query::Value::from(t));
    assert_eq!(
        q,
        "SELECT \"id\", \"timestamp\", \"data\" FROM \"indexes\".\"logs\" WHERE \"timestamp\" >= $1 AND (\"data\" @@ '$.b')"
    );
    assert_eq!(v, vec![sea_query::Value::from(t)]);
}

#[test]
fn json_highlighting() {
    let h = json_html_syntect("{\"a\": 1}\n").unwrap();
    assert!(h.contains("<span"), "{}", h);
    assert_ne!(h, "{\"a\": 1}\n");
}
