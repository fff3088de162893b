use ffi_convert::AsRust;
use serde_json::Value;
use std::collections::HashMap;
use std::time::{Duration, SystemTime};
use temporal_bridge::logs::{
    core_log_def, core_log_defs, hs_temporal_runtime_fetch_logs, CoreLog,
};
use temporal_bridge::telemetry::LogLevel;

fn log(message: &str, level: LogLevel) -> CoreLog {
    let mut fields = HashMap::new();
    fields.insert("attempt".to_owned(), Value::from(3));
    CoreLog {
        target: "temporalio_sdk_core::worker".to_owned(),
        message: message.to_owned(),
        timestamp: SystemTime::UNIX_EPOCH + Duration::from_millis(1500),
        level,
        fields,
        span_contexts: vec!["outer".to_owned(), "inner".to_owned()],
    }
}

#[test]
fn levels_are_given_by_name() {
    for (level, name) in [
        (LogLevel::Error, "ERROR"),
        (LogLevel::Warn, "WARN"),
        (LogLevel::Info, "INFO"),
        (LogLevel::Debug, "DEBUG"),
        (LogLevel::Trace, "TRACE"),
    ] {
        assert_eq!(core_log_def(log("line", level)).level, name);
    }
}

#[test]
fn everything_but_the_level_is_kept() {
    let def = core_log_def(log("line", LogLevel::Warn));
    assert_eq!(def.target, "temporalio_sdk_core::worker");
    assert_eq!(def.message, "line");
    assert_eq!(
        def.timestamp,
        SystemTime::UNIX_EPOCH + Duration::from_millis(1500)
    );
    assert_eq!(def.fields["attempt"], Value::from(3));
    assert_eq!(def.fields.len(), 1);
    assert_eq!(
        def.span_contexts,
        vec!["outer".to_owned(), "inner".to_owned()]
    );
}

#[test]
fn lines_come_out_in_order() {
    let defs = core_log_defs(vec![
        log("first", LogLevel::Info),
        log("second", LogLevel::Error),
        log("third", LogLevel::Trace),
    ]);
    assert_eq!(defs.len(), 3);
    assert_eq!(defs[0].message, "first");
    assert_eq!(defs[1].message, "second");
    assert_eq!(defs[1].level, "ERROR");
    assert_eq!(defs[2].message, "third");
}

#[test]
fn no_lines_stay_no_lines() {
    assert_eq!(core_log_defs(vec![]).len(), 0);
}

#[test]
fn serialised_lines_are_packed_one_row_each() {
    let lines = vec![b"{\"a\":1}".to_vec(), b"{}".to_vec()];
    let array = hs_temporal_runtime_fetch_logs(lines.clone());
    assert_eq!(array.size, 2);
    let rows: Vec<Vec<u8>> = array.as_rust().unwrap();
    assert_eq!(rows, lines);
}

#[test]
fn empty_lines_keep_their_rows() {
    let array = hs_temporal_runtime_fetch_logs(vec![vec![1, 2, 3], vec![], vec![255]]);
    let rows: Vec<Vec<u8>> = array.as_rust().unwrap();
    assert_eq!(rows, vec![vec![1, 2, 3], vec![], vec![255]]);
}

#[test]
fn no_lines_are_packed_as_an_empty_array() {
    let array = hs_temporal_runtime_fetch_logs(vec![]);
    assert_eq!(array.size, 0);
    let rows: Vec<Vec<u8>> = array.as_rust().unwrap();
    assert_eq!(rows, Vec::<Vec<u8>>::new());
}
