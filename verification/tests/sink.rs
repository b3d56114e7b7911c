use sajl::{colored_name, flush_batch, format_line, render_line, LogLevels, LogObject};
use serde_json::{Number, Value};

fn record(level: LogLevels, data: Value, timestamp: &str) -> LogObject {
    LogObject { log_level: level, data, timestamp: timestamp.to_string() }
}

fn object(key: &str, value: Value) -> Value {
    let mut fields = serde_json::Map::new();
    fields.insert(key.to_string(), value);
    Value::Object(fields)
}

#[test]
fn render_line_keeps_keys_and_order() {
    assert_eq!(
        render_line(LogLevels::Info, "\"2024-01-02T03:04:05.678Z\"", "{\"a\":1}"),
        "{\"level\":\"INFO\",\"timestamp\":\"2024-01-02T03:04:05.678Z\",\"data\":{\"a\":1}}"
    );
}

#[test]
fn format_line_of_an_error_record() {
    let log = record(
        LogLevels::Error,
        object("a", Value::Number(Number::from(1))),
        "2024-01-02T03:04:05.678Z",
    );
    assert_eq!(
        format_line(&log),
        Some(
            "{\"level\":\"ERROR\",\"timestamp\":\"2024-01-02T03:04:05.678Z\",\"data\":{\"a\":1}}"
                .to_string()
        )
    );
}

#[test]
fn a_line_parses_as_json_with_plain_fields() {
    let log = record(
        LogLevels::Error,
        object("a", Value::Number(Number::from(1))),
        "2024-01-02T03:04:05.678Z",
    );
    let line = format_line(&log).unwrap();
    let parsed: Value = serde_json::from_str(&line).unwrap();
    let mut expected = serde_json::Map::new();
    expected.insert("level".to_string(), Value::from("ERROR"));
    expected.insert("timestamp".to_string(), Value::from("2024-01-02T03:04:05.678Z"));
    expected.insert("data".to_string(), object("a", Value::Number(Number::from(1))));
    assert_eq!(parsed, Value::Object(expected));
    let level = line.find("\"level\"").unwrap();
    let timestamp = line.find("\"timestamp\"").unwrap();
    let data = line.find("\"data\"").unwrap();
    assert!(level < timestamp && timestamp < data);
}

#[test]
fn format_line_writes_each_level_by_its_plain_name() {
    let info = format_line(&record(LogLevels::Info, Value::Null, "t")).unwrap();
    assert_eq!(info, "{\"level\":\"INFO\",\"timestamp\":\"t\",\"data\":null}");
    let warn = format_line(&record(LogLevels::Warn, Value::Bool(true), "t")).unwrap();
    assert_eq!(warn, "{\"level\":\"WARN\",\"timestamp\":\"t\",\"data\":true}");
    let error = format_line(&record(LogLevels::Error, Value::from(7), "t")).unwrap();
    assert_eq!(error, "{\"level\":\"ERROR\",\"timestamp\":\"t\",\"data\":7}");
    let debug = format_line(&record(LogLevels::Debug, Value::from("x"), "t")).unwrap();
    assert_eq!(debug, "{\"level\":\"DEBUG\",\"timestamp\":\"t\",\"data\":\"x\"}");
}

#[test]
fn four_levels_in_one_batch_keep_their_names_in_order() {
    let batch = vec![
        record(LogLevels::Info, Value::from("p"), "t"),
        record(LogLevels::Warn, Value::from("p"), "t"),
        record(LogLevels::Error, Value::from("p"), "t"),
        record(LogLevels::Debug, Value::from("p"), "t"),
    ];
    let levels: Vec<Value> = flush_batch(&batch)
        .into_iter()
        .map(|line| serde_json::from_str::<Value>(&line.unwrap()).unwrap()["level"].clone())
        .collect();
    assert_eq!(
        levels,
        vec![Value::from("INFO"), Value::from("WARN"), Value::from("ERROR"), Value::from("DEBUG")]
    );
}

#[test]
fn a_timestamp_is_escaped_like_any_json_string() {
    let log = record(LogLevels::Info, Value::Null, "a\"b\\c\nd");
    let line = format_line(&log).unwrap();
    assert_eq!(line, "{\"level\":\"INFO\",\"timestamp\":\"a\\\"b\\\\c\\nd\",\"data\":null}");
    let parsed: Value = serde_json::from_str(&line).unwrap();
    assert_eq!(parsed["timestamp"], Value::from("a\"b\\c\nd"));
}

#[test]
fn format_line_writes_nested_payloads_compactly() {
    let data = object(
        "user",
        object("items", Value::Array(vec![Value::from("Ipod"), Value::from("Steak")])),
    );
    let line = format_line(&record(LogLevels::Info, data, "t")).unwrap();
    assert!(line.ends_with(",\"data\":{\"user\":{\"items\":[\"Ipod\",\"Steak\"]}}}"));
}

#[test]
fn flush_batch_of_nothing_is_empty() {
    let lines = flush_batch(&[]);
    assert!(lines.is_empty());
}

#[test]
fn flush_batch_keeps_the_order_of_the_batch() {
    let batch = vec![
        record(LogLevels::Info, Value::from("A"), "t1"),
        record(LogLevels::Warn, Value::from("B"), "t2"),
        record(LogLevels::Error, Value::from("C"), "t3"),
    ];
    let lines = flush_batch(&batch);
    assert_eq!(
        lines,
        vec![
            Some("{\"level\":\"INFO\",\"timestamp\":\"t1\",\"data\":\"A\"}".to_string()),
            Some("{\"level\":\"WARN\",\"timestamp\":\"t2\",\"data\":\"B\"}".to_string()),
            Some("{\"level\":\"ERROR\",\"timestamp\":\"t3\",\"data\":\"C\"}".to_string()),
        ]
    );
}

#[test]
fn default_record_is_an_unset_info_record() {
    let log = LogObject::default();
    assert_eq!(log.log_level, LogLevels::Info);
    assert_eq!(log.data, Value::from("not set"));
    let line = format_line(&log).unwrap();
    assert!(line.starts_with("{\"level\":\"INFO\",\"timestamp\":\""));
    assert!(line.ends_with("\",\"data\":\"not set\"}"));
}

#[test]
fn colored_names_wrap_the_name_in_the_color_of_the_level() {
    assert_eq!(colored_name(LogLevels::Error), "\x1b[38;2;255;0;0mERROR\x1b[39m");
    assert_eq!(colored_name(LogLevels::Info), "\x1b[38;2;15;115;255mINFO\x1b[39m");
    assert_eq!(colored_name(LogLevels::Warn), "\x1b[38;2;247;155;35mWARN\x1b[39m");
    assert_eq!(colored_name(LogLevels::Debug), "\x1b[38;2;38;45;56mDEBUG\x1b[39m");
}
