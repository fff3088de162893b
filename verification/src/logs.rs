//! The log lines that Core has buffered for the Haskell side.

use crate::array::{array_rows, c_repr_of_rows};
use crate::telemetry::{level_name, LogLevel};
use ffi_convert::CArray;
use serde_json::Value;
use std::collections::HashMap;
use std::time::SystemTime;
use tracing::Level;
use vstd::prelude::*;

verus! {

/// A JSON value.
#[verifier::external_type_specification]
#[verifier::external_body]
pub struct ExValue(Value);

/// A point in time.
#[verifier::external_type_specification]
#[verifier::external_body]
pub struct ExSystemTime(SystemTime);

/// A log line as Core buffers it.
pub struct CoreLog {
    pub target: String,
    pub message: String,
    pub timestamp: SystemTime,
    pub level: LogLevel,
    pub fields: HashMap<String, Value>,
    pub span_contexts: Vec<String>,
}

/// A log line as the Haskell side gets it, its level by name.
pub struct CoreLogDef {
    pub target: String,
    pub message: String,
    pub timestamp: SystemTime,
    pub level: String,
    pub fields: HashMap<String, Value>,
    pub span_contexts: Vec<String>,
}

/// Calls `tracing::Level::as_str`, which gives the names written out in [`level_name`].
#[verifier::external_body]
fn level_str(level: LogLevel) -> (name: &'static str)
    ensures
        name@ == level_name(level),
{
    match level {
        LogLevel::Error => Level::ERROR.as_str(),
        LogLevel::Warn => Level::WARN.as_str(),
        LogLevel::Info => Level::INFO.as_str(),
        LogLevel::Debug => Level::DEBUG.as_str(),
        LogLevel::Trace => Level::TRACE.as_str(),
    }
}

/// `def` is `log` with its level by name and everything else unchanged.
pub open spec fn defines(def: CoreLogDef, log: CoreLog) -> bool {
    &&& def.target == log.target
    &&& def.message == log.message
    &&& def.timestamp == log.timestamp
    &&& def.level@ == level_name(log.level)
    &&& def.fields == log.fields
    &&& def.span_contexts == log.span_contexts
}

/// Makes one buffered line ready for serialisation.
pub fn core_log_def(log: CoreLog) -> (def: CoreLogDef)
    ensures
        defines(def, log),
        def.target == log.target,
        def.message == log.message,
        def.timestamp == log.timestamp,
        def.level@ == level_name(log.level),
        def.fields == log.fields,
        def.span_contexts == log.span_contexts,
{
    CoreLogDef {
        target: log.target,
        message: log.message,
        timestamp: log.timestamp,
        level: level_str(log.level).to_owned(),
        fields: log.fields,
        span_contexts: log.span_contexts,
    }
}

/// Makes all buffered lines ready for serialisation, one for one and in order.
pub fn core_log_defs(logs: Vec<CoreLog>) -> (defs: Vec<CoreLogDef>)
    ensures
        defs@.len() == logs@.len(),
        forall|i: int| 0 <= i < logs@.len() ==> defines(#[trigger] defs@[i], logs@[i]),
        forall|i: int| #![trigger defs@[i]]
            0 <= i < logs@.len() ==> {
                &&& defs@[i].target == logs@[i].target
                &&& defs@[i].message == logs@[i].message
                &&& defs@[i].timestamp == logs@[i].timestamp
                &&& defs@[i].level@ == level_name(logs@[i].level)
                &&& defs@[i].fields == logs@[i].fields
                &&& defs@[i].span_contexts == logs@[i].span_contexts
            },
{
    let mut defs: Vec<CoreLogDef> = Vec::new();
    for log in iter: logs
        invariant
            iter.seq() == logs@,
            defs@.len() == iter.index(),
            forall|i: int| 0 <= i < defs@.len() ==> defines(#[trigger] defs@[i], logs@[i]),
    {
        defs.push(core_log_def(log));
    }
    defs
}

/// Packs the serialised lines for the Haskell side, one row each and in order.
pub fn hs_temporal_runtime_fetch_logs(hs_logs: Vec<Vec<u8>>) -> (array: CArray<CArray<u8>>)
    ensures
        array_rows(array) == hs_logs@.map_values(|line: Vec<u8>| line@),
{
    c_repr_of_rows(hs_logs).unwrap()
}

/// Nothing of a line is lost: whatever its level, its target, message, timestamp, fields and span
/// contexts are handed out as they were buffered, and its level under its name.
pub proof fn law_line_is_handed_out_complete(def: CoreLogDef, log: CoreLog)
    requires
        defines(def, log),
    ensures
        def.target == log.target,
        def.message == log.message,
        def.timestamp == log.timestamp,
        def.fields == log.fields,
        def.span_contexts == log.span_contexts,
        def.level@ == match log.level {
            LogLevel::Error => "ERROR"@,
            LogLevel::Warn => "WARN"@,
            LogLevel::Info => "INFO"@,
            LogLevel::Debug => "DEBUG"@,
            LogLevel::Trace => "TRACE"@,
        },
{
}

/// No two levels have the same name.
pub proof fn law_level_names_differ(a: LogLevel, b: LogLevel)
    requires
        level_name(a) == level_name(b),
    ensures
        a == b,
{
    reveal_strlit("ERROR");
    reveal_strlit("WARN");
    reveal_strlit("INFO");
    reveal_strlit("DEBUG");
    reveal_strlit("TRACE");
    assert("ERROR"@[0] == 'E');
    assert("WARN"@[0] == 'W');
    assert("INFO"@[0] == 'I');
    assert("DEBUG"@[0] == 'D');
    assert("TRACE"@[0] == 'T');
}

/// A buffered line can be recovered from what is handed out: two lines that are handed out alike
/// are the same line.
pub proof fn law_line_can_be_recovered(def: CoreLogDef, a: CoreLog, b: CoreLog)
    requires
        defines(def, a),
        defines(def, b),
    ensures
        a == b,
{
    law_level_names_differ(a.level, b.level);
}

} // verus!
