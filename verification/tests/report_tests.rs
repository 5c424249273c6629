use log_saver::json::JsonValue;
use log_saver::report::{cell, header_line, report_csv, row_line, column_paths, ReportError};

fn s(x: &str) -> String {
    x.to_string()
}

fn sample() -> JsonValue {
    // {"message":{"name":"x\"y","pixels":[{"name":"goolge_pixel"}]},"tags":["t1",null],"count":5,"ok":true,"obj":{"a":"b"}}
    JsonValue::Object(
        vec![
            (
                s("message"),
                JsonValue::Object(
                    vec![
                        (s("name"), JsonValue::String(s("x\"y"))),
                        (
                            s("pixels"),
                            JsonValue::Array(
                                vec![JsonValue::Object(vec![(
                                    s("name"),
                                    JsonValue::String(s("goolge_pixel")),
                                )])],
                            ),
                        ),
                    ],
                ),
            ),
            (
                s("tags"),
                JsonValue::Array(vec![JsonValue::String(s("t1")), JsonValue::Null]),
            ),
            (s("count"), JsonValue::Number(s("5"))),
            (s("ok"), JsonValue::Bool(true)),
            (s("obj"), JsonValue::Object(vec![(s("a"), JsonValue::String(s("b")))])),
        ],
    )
}

fn columns(names: &[&str]) -> JsonValue {
    JsonValue::Array(names.iter().map(|n| JsonValue::String(s(n))).collect())
}

#[test]
fn header_quotes_each_column() {
    let cols = vec![s("message.name"), s("tags.0"), s("count")];
    assert_eq!(header_line(&cols), "\"message.name\",\"tags.0\",\"count\"");
    assert_eq!(header_line(&vec![]), "");
}

#[test]
fn cells_render_by_kind() {
    assert_eq!(cell(None), "");
    assert_eq!(cell(Some(&JsonValue::Null)), "");
    assert_eq!(cell(Some(&JsonValue::String(s("x\"y")))), "\"x\\\"y\",");
    assert_eq!(cell(Some(&JsonValue::Number(s("5")))), "\"5\",");
    assert_eq!(cell(Some(&JsonValue::Bool(false))), "\"false\",");
    assert_eq!(
        cell(Some(&JsonValue::Object(vec![(s("a"), JsonValue::String(s("b")))]))),
        "\"{'a':'b'}\","
    );
}

#[test]
fn row_walks_paths_and_trims_commas() {
    let data = sample();
    let cols = vec![
        s("message.name"),
        s("tags.0"),
        s("missing"),
        s("count"),
        s("message.pixels.0.name"),
        s("tags.1"),
    ];
    let paths = column_paths(&cols);
    assert_eq!(
        row_line(&data, &paths),
        "\"x\\\"y\",\"t1\",\"5\",\"goolge_pixel\""
    );
    // an index segment on an object, a name segment on an array
    let odd = column_paths(&vec![s("0"), s("tags.first"), s("ok"), s("obj")]);
    assert_eq!(row_line(&data, &odd), "\"true\",\"{'a':'b'}\"");
}

#[test]
fn report_has_header_then_one_line_per_entry() {
    let rows = vec![sample(), JsonValue::Null];
    let cols = columns(&["count", "tags.0"]);
    let text = report_csv(Some(&cols), &rows).unwrap();
    assert_eq!(text, "\"count\",\"tags.0\"\r\n\"5\",\"t1\"\r\n\r\n");
    let none = report_csv(None, &rows).unwrap();
    assert_eq!(none, "\r\n\r\n\r\n");
}

#[test]
fn report_refuses_columns_that_are_not_strings() {
    let bad = JsonValue::Array(vec![JsonValue::Number(s("1"))]);
    assert_eq!(report_csv(Some(&bad), &vec![]), Err(ReportError::ColumnsNotStrings));
    assert_eq!(report_csv(Some(&JsonValue::Null), &vec![]), Err(ReportError::ColumnsNotStrings));
}

#[test]
fn lookup_and_string_list() {
    let data = sample();
    let path = vec![s("message"), s("pixels"), s("0"), s("name")];
    assert!(matches!(data.lookup(&path), Some(JsonValue::String(n)) if n == "goolge_pixel"));
    assert!(data.lookup(&vec![s("message"), s("nope")]).is_none());
    assert!(matches!(data.lookup(&vec![]), Some(JsonValue::Object(..))));
    assert_eq!(columns(&["a", "b"]).string_list(), Some(vec![s("a"), s("b")]));
    assert_eq!(JsonValue::Bool(true).text(), "true");
    assert_eq!(JsonValue::String(s("a\nb")).text(), "\"a\\nb\"");
}
