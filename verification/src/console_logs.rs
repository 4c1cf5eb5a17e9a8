//! The console-log commands: retrieving buffered log entries from a context
//! through the correlation bridge, and asking a context to start capturing.

use vstd::prelude::*;
use crate::bridge::CallOutcome;
use crate::envelope::Envelope;
use crate::error::Error;
use crate::fields::{
    opt_string_field, opt_u64_field, opt_usize_field, saturate_usize, spec_field_error,
    spec_opt_string, spec_opt_u64, spec_opt_usize,
};
use crate::plan::{CallPlan, NotifyPlan, ReplyKind, Step};
use crate::registry::{resolve_window, spec_effective_label, Registry};
use crate::strutil::{lower_of, str_eq, to_lowercase};
use crate::value::{lemma_obj_get_at, Value};

verus! {

broadcast use vstd::string::group_string_axioms;

/// A console log severity.
#[derive(Clone, Copy, Debug, PartialEq, Eq, Hash, Structural)]
pub enum LogLevel {
    Debug,
    Info,
    Warn,
    Error,
}

/// The level a lowercased filter string names; `"all"` and anything unknown
/// name no single level.
pub open spec fn spec_log_level(t: Seq<char>) -> Option<LogLevel> {
    if t == "debug"@ {
        Some(LogLevel::Debug)
    } else if t == "info"@ {
        Some(LogLevel::Info)
    } else if t == "warn"@ {
        Some(LogLevel::Warn)
    } else if t == "error"@ {
        Some(LogLevel::Error)
    } else {
        None
    }
}

impl LogLevel {
    /// Parses a level name, case-insensitively.
    pub fn from_str(s: &str) -> (r: Option<LogLevel>)
        ensures
            r == spec_log_level(lower_of(s@)),
    {
        let l = to_lowercase(s);
        if str_eq(l.as_str(), "debug") {
            Some(LogLevel::Debug)
        } else if str_eq(l.as_str(), "info") {
            Some(LogLevel::Info)
        } else if str_eq(l.as_str(), "warn") {
            Some(LogLevel::Warn)
        } else if str_eq(l.as_str(), "error") {
            Some(LogLevel::Error)
        } else {
            None
        }
    }
}

/// A failure local to the console-log commands; folded into a failed
/// envelope, never propagated.
pub enum ConsoleLogsError {
    WebviewOperation(String),
    TimeoutError(String),
    ParseError(String),
}

impl ConsoleLogsError {
    pub open spec fn spec_message(&self) -> Seq<char> {
        match self {
            ConsoleLogsError::WebviewOperation(s) => "Console operation error: "@ + s@,
            ConsoleLogsError::TimeoutError(s) => "Operation timed out: "@ + s@,
            ConsoleLogsError::ParseError(s) => "Parse error: "@ + s@,
        }
    }

    /// Renders this error as one message string.
    pub fn message(&self) -> (r: String)
        ensures
            r@ == self.spec_message(),
    {
        match self {
            ConsoleLogsError::WebviewOperation(s) => {
                let mut m = String::from_str("Console operation error: ");
                m.append(s.as_str());
                m
            },
            ConsoleLogsError::TimeoutError(s) => {
                let mut m = String::from_str("Operation timed out: ");
                m.append(s.as_str());
                m
            },
            ConsoleLogsError::ParseError(s) => {
                let mut m = String::from_str("Parse error: ");
                m.append(s.as_str());
                m
            },
        }
    }
}

/// One buffered console log entry.
pub struct ConsoleLogEntry {
    pub timestamp: u64,
    pub level: String,
    pub message: String,
    pub args: Vec<String>,
}

/// Field-for-field equality of two entries, over the views of the strings.
pub open spec fn entry_eq(a: ConsoleLogEntry, b: ConsoleLogEntry) -> bool {
    &&& a.timestamp == b.timestamp
    &&& a.level@ == b.level@
    &&& a.message@ == b.message@
    &&& a.args@.len() == b.args@.len()
    &&& forall|i: int| 0 <= i < a.args@.len() ==> #[trigger] a.args@[i]@ == b.args@[i]@
}

impl ConsoleLogEntry {
    /// An owned copy of this entry.
    pub fn duplicate(&self) -> (r: ConsoleLogEntry)
        ensures
            entry_eq(r, *self),
    {
        let mut args: Vec<String> = Vec::new();
        let n = self.args.len();
        let mut i: usize = 0;
        while i < n
            invariant
                n == self.args@.len(),
                i <= n,
                args@.len() == i,
                forall|j: int| 0 <= j < i ==> #[trigger] args@[j]@ == self.args@[j]@,
            decreases n - i,
        {
            args.push(self.args[i].clone());
            i = i + 1;
        }
        ConsoleLogEntry {
            timestamp: self.timestamp,
            level: self.level.clone(),
            message: self.message.clone(),
            args,
        }
    }
}

/// The decoded request for `get-console-logs`.
pub struct ConsoleLogsRequest {
    pub window_label: Option<String>,
    pub level: Option<String>,
    pub start_time_ms: Option<u64>,
    pub end_time_ms: Option<u64>,
    pub limit: Option<usize>,
}

/// Whether a payload decodes into a [`ConsoleLogsRequest`].
pub open spec fn spec_request_decodes(payload: Value) -> bool {
    &&& spec_opt_string(payload, "window_label"@) is Some
    &&& spec_opt_string(payload, "level"@) is Some
    &&& spec_opt_u64(payload, "start_time_ms"@) is Some
    &&& spec_opt_u64(payload, "end_time_ms"@) is Some
    &&& spec_opt_usize(payload, "limit"@) is Some
}

/// The decode-failure text of the first request field of the wrong shape,
/// in the order the fields are read.
pub open spec fn spec_request_decode_error(payload: Value) -> Seq<char> {
    if spec_opt_string(payload, "window_label"@) is None {
        spec_field_error("window_label"@, "a string"@)
    } else if spec_opt_string(payload, "level"@) is None {
        spec_field_error("level"@, "a string"@)
    } else if spec_opt_u64(payload, "start_time_ms"@) is None {
        spec_field_error("start_time_ms"@, "an unsigned integer"@)
    } else if spec_opt_u64(payload, "end_time_ms"@) is None {
        spec_field_error("end_time_ms"@, "an unsigned integer"@)
    } else {
        spec_field_error("limit"@, "an unsigned integer"@)
    }
}

/// Decodes the request payload; a field of the wrong shape is a
/// serialization error carrying the decode text.
pub fn parse_console_logs_request(payload: &Value) -> (r: Result<ConsoleLogsRequest, Error>)
    ensures
        match r {
            Ok(req) => {
                &&& spec_request_decodes(*payload)
                &&& Some(req.window_label) == spec_opt_string(*payload, "window_label"@)
                &&& Some(req.level) == spec_opt_string(*payload, "level"@)
                &&& Some(req.start_time_ms) == spec_opt_u64(*payload, "start_time_ms"@)
                &&& Some(req.end_time_ms) == spec_opt_u64(*payload, "end_time_ms"@)
                &&& Some(req.limit) == spec_opt_usize(*payload, "limit"@)
            },
            Err(e) => {
                &&& !spec_request_decodes(*payload)
                &&& e matches Error::SerializationError { message } && message@
                    == "Invalid payload for console logs: "@ + spec_request_decode_error(
                    *payload,
                )
            },
        },
{
    let window_label = match opt_string_field(payload, "window_label") {
        Ok(v) => v,
        Err(m) => {
            return Err(Error::serialization_error(decode_error(m)));
        },
    };
    let level = match opt_string_field(payload, "level") {
        Ok(v) => v,
        Err(m) => {
            return Err(Error::serialization_error(decode_error(m)));
        },
    };
    let start_time_ms = match opt_u64_field(payload, "start_time_ms") {
        Ok(v) => v,
        Err(m) => {
            return Err(Error::serialization_error(decode_error(m)));
        },
    };
    let end_time_ms = match opt_u64_field(payload, "end_time_ms") {
        Ok(v) => v,
        Err(m) => {
            return Err(Error::serialization_error(decode_error(m)));
        },
    };
    let limit = match opt_usize_field(payload, "limit") {
        Ok(v) => v,
        Err(m) => {
            return Err(Error::serialization_error(decode_error(m)));
        },
    };
    Ok(ConsoleLogsRequest { window_label, level, start_time_ms, end_time_ms, limit })
}

/// Prefixes a field decode error with the command's context.
fn decode_error(m: String) -> (r: String)
    ensures
        r@ == "Invalid payload for console logs: "@ + m@,
{
    let mut s = String::from_str("Invalid payload for console logs: ");
    s.append(m.as_str());
    s
}

/// The default entry cap sent to the context when a request names none.
pub open spec fn spec_default_limit() -> usize {
    1000
}

/// Builds the filter object published to the context: the requested level
/// and time window pass through, and an absent limit becomes the default.
pub fn build_console_filter(req: &ConsoleLogsRequest) -> (r: Value)
    ensures
        r.spec_get("level"@) == Some(
            match req.level {
                Some(l) => Value::Str(l),
                None => Value::Null,
            },
        ),
        r.spec_get("start_time_ms"@) == Some(
            match req.start_time_ms {
                Some(n) => Value::UInt(n),
                None => Value::Null,
            },
        ),
        r.spec_get("end_time_ms"@) == Some(
            match req.end_time_ms {
                Some(n) => Value::UInt(n),
                None => Value::Null,
            },
        ),
        r.spec_get("limit"@) == Some(
            Value::UInt(
                match req.limit {
                    Some(l) => l as u64,
                    None => spec_default_limit() as u64,
                },
            ),
        ),
{
    let level_v = match &req.level {
        Some(l) => Value::Str(l.clone()),
        None => Value::Null,
    };
    let start_v = match req.start_time_ms {
        Some(n) => Value::UInt(n),
        None => Value::Null,
    };
    let end_v = match req.end_time_ms {
        Some(n) => Value::UInt(n),
        None => Value::Null,
    };
    let limit: usize = match req.limit {
        Some(l) => l,
        None => 1000,
    };
    let mut fields: Vec<(String, Value)> = Vec::new();
    fields.push((String::from_str("level"), level_v));
    fields.push((String::from_str("start_time_ms"), start_v));
    fields.push((String::from_str("end_time_ms"), end_v));
    fields.push((String::from_str("limit"), Value::UInt(limit as u64)));
    let r = Value::Obj(fields);
    proof {
        lemma_console_filter_keys(r->Obj_0@);
    }
    r
}


/// The keys this module binds in its objects are pairwise distinct.
proof fn lemma_key_literals_distinct()
    ensures
        "level"@ != "start_time_ms"@,
        "level"@ != "end_time_ms"@,
        "level"@ != "limit"@,
        "start_time_ms"@ != "end_time_ms"@,
        "start_time_ms"@ != "limit"@,
        "end_time_ms"@ != "limit"@,
        "timestamp"@ != "level"@,
        "timestamp"@ != "message"@,
        "timestamp"@ != "args"@,
        "level"@ != "message"@,
        "level"@ != "args"@,
        "message"@ != "args"@,
        "logs"@ != "total_count"@,
        "logs"@ != "returned_count"@,
        "total_count"@ != "returned_count"@,
{
    reveal_strlit("level");
    reveal_strlit("start_time_ms");
    reveal_strlit("end_time_ms");
    reveal_strlit("limit");
    reveal_strlit("timestamp");
    reveal_strlit("message");
    reveal_strlit("args");
    reveal_strlit("logs");
    reveal_strlit("total_count");
    reveal_strlit("returned_count");
    assert("level"@.len() == 5);
    assert("start_time_ms"@.len() == 13);
    assert("end_time_ms"@.len() == 11);
    assert("limit"@.len() == 5);
    assert("level"@[1] == 'e' && "limit"@[1] == 'i');
    assert("timestamp"@.len() == 9);
    assert("message"@.len() == 7);
    assert("args"@.len() == 4);
    assert("logs"@.len() == 4);
    assert("logs"@[0] == 'l' && "args"@[0] == 'a');
    assert("total_count"@.len() == 11);
    assert("returned_count"@.len() == 14);
    assert("end_time_ms"@[0] == 'e' && "total_count"@[0] == 't');
}

proof fn lemma_console_filter_keys(fields: Seq<(String, Value)>)
    requires
        fields.len() == 4,
        fields[0].0@ == "level"@,
        fields[1].0@ == "start_time_ms"@,
        fields[2].0@ == "end_time_ms"@,
        fields[3].0@ == "limit"@,
    ensures
        crate::value::obj_get(fields, "level"@) == Some(fields[0].1),
        crate::value::obj_get(fields, "start_time_ms"@) == Some(fields[1].1),
        crate::value::obj_get(fields, "end_time_ms"@) == Some(fields[2].1),
        crate::value::obj_get(fields, "limit"@) == Some(fields[3].1),
{
    lemma_key_literals_distinct();
    lemma_obj_get_at(fields, 0, "level"@);
    lemma_obj_get_at(fields, 1, "start_time_ms"@);
    lemma_obj_get_at(fields, 2, "end_time_ms"@);
    lemma_obj_get_at(fields, 3, "limit"@);
}

/// The shaped response for `get-console-logs`.
pub struct ConsoleLogsResponse {
    pub logs: Vec<ConsoleLogEntry>,
    pub total_count: usize,
    pub returned_count: usize,
}

/// Whether one reply array element has the shape of a log entry.
pub open spec fn spec_entry_ok(v: Value) -> bool {
    &&& v.spec_get("timestamp"@) matches Some(Value::UInt(_))
    &&& v.spec_get("level"@) matches Some(Value::Str(_))
    &&& v.spec_get("message"@) matches Some(Value::Str(_))
    &&& match v.spec_get("args"@) {
        Some(Value::Arr(items)) => forall|i: int|
            0 <= i < items@.len() ==> (#[trigger] items@[i]) is Str,
        _ => false,
    }
}

/// Whether a decoded entry carries exactly the fields of a reply element.
pub open spec fn spec_entry_matches(e: ConsoleLogEntry, v: Value) -> bool {
    &&& v.spec_get("timestamp"@) == Some(Value::UInt(e.timestamp))
    &&& match v.spec_get("level"@) {
        Some(Value::Str(s)) => e.level@ == s@,
        _ => false,
    }
    &&& match v.spec_get("message"@) {
        Some(Value::Str(s)) => e.message@ == s@,
        _ => false,
    }
    &&& match v.spec_get("args"@) {
        Some(Value::Arr(items)) => {
            &&& e.args@.len() == items@.len()
            &&& forall|i: int| 0 <= i < items@.len() ==> (#[trigger] items@[i]) is Str
            &&& forall|i: int|
                0 <= i < items@.len() ==> #[trigger] e.args@[i]@ == items@[i]->Str_0@
        },
        _ => false,
    }
}

/// Decodes one reply array element into an entry; `None` if it lacks the
/// entry shape.
pub fn decode_log_entry(v: &Value) -> (r: Option<ConsoleLogEntry>)
    ensures
        match r {
            Some(e) => spec_entry_ok(*v) && spec_entry_matches(e, *v),
            None => !spec_entry_ok(*v),
        },
{
    let timestamp = match v.get("timestamp") {
        Some(t) => match t.as_u64() {
            Some(n) => n,
            None => {
                return None;
            },
        },
        None => {
            return None;
        },
    };
    let level = match v.get("level") {
        Some(l) => match l.as_str() {
            Some(s) => s.clone(),
            None => {
                return None;
            },
        },
        None => {
            return None;
        },
    };
    let message = match v.get("message") {
        Some(m) => match m.as_str() {
            Some(s) => s.clone(),
            None => {
                return None;
            },
        },
        None => {
            return None;
        },
    };
    let items = match v.get("args") {
        Some(a) => match a.as_arr() {
            Some(items) => items,
            None => {
                return None;
            },
        },
        None => {
            return None;
        },
    };
    let n = items.len();
    let mut args: Vec<String> = Vec::new();
    let mut i: usize = 0;
    while i < n
        invariant
            v.spec_get("args"@) == Some(Value::Arr(*items)),
            n == items@.len(),
            i <= n,
            args@.len() == i,
            forall|j: int| 0 <= j < i ==> (#[trigger] items@[j]) is Str,
            forall|j: int| 0 <= j < i ==> #[trigger] args@[j]@ == items@[j]->Str_0@,
        decreases n - i,
    {
        match items[i].as_str() {
            Some(s) => {
                args.push(s.clone());
            },
            None => {
                return None;
            },
        }
        i = i + 1;
    }
    Some(ConsoleLogEntry { timestamp, level, message, args })
}

/// Whether every element of a reply array has the entry shape.
pub open spec fn spec_all_entries_ok(items: Seq<Value>) -> bool {
    forall|i: int| 0 <= i < items.len() ==> spec_entry_ok(#[trigger] items[i])
}

/// Decodes the reply's array of entries; any malformed element rejects the
/// whole array, as the strict-validation policy asks.
pub fn decode_log_entries(items: &Vec<Value>) -> (r: Option<Vec<ConsoleLogEntry>>)
    ensures
        match r {
            Some(es) => {
                &&& spec_all_entries_ok(items@)
                &&& es@.len() == items@.len()
                &&& forall|i: int|
                    0 <= i < items@.len() ==> spec_entry_matches(#[trigger] es@[i], items@[i])
            },
            None => !spec_all_entries_ok(items@),
        },
{
    let n = items.len();
    let mut es: Vec<ConsoleLogEntry> = Vec::new();
    let mut i: usize = 0;
    while i < n
        invariant
            n == items@.len(),
            i <= n,
            es@.len() == i,
            forall|j: int| 0 <= j < i ==> spec_entry_ok(#[trigger] items@[j]),
            forall|j: int|
                0 <= j < i ==> spec_entry_matches(#[trigger] es@[j], items@[j]),
        decreases n - i,
    {
        match decode_log_entry(&items[i]) {
            Some(e) => {
                es.push(e);
            },
            None => {
                return None;
            },
        }
        i = i + 1;
    }
    Some(es)
}

/// The application-level error a reply carries, if any.
pub open spec fn spec_reply_error(v: Value) -> Option<Seq<char>> {
    match v.spec_get("error"@) {
        Some(Value::Str(s)) => Some(s@),
        _ => None,
    }
}

/// How many entries a well-formed reply carries: the length of its `logs`
/// array when every element decodes, and zero otherwise.
pub open spec fn spec_reply_logs_len(v: Value) -> nat {
    match v.spec_get("logs"@) {
        Some(Value::Arr(items)) => if spec_all_entries_ok(items@) {
            items@.len()
        } else {
            0
        },
        _ => 0,
    }
}

/// The total count a reply reports, falling back to the entry count.
pub open spec fn spec_reply_total(v: Value) -> nat {
    match v.spec_get("total_count"@) {
        Some(Value::UInt(c)) => if c <= usize::MAX as u64 {
            c as nat
        } else {
            usize::MAX as nat
        },
        _ => spec_reply_logs_len(v),
    }
}

/// Decodes a bridge reply into the command's response: a reply that carries
/// an `error` string is the context's own failure; otherwise the entries,
/// the reported total, and the returned count are extracted.
pub fn decode_console_logs_reply(reply: &Value) -> (r: Result<
    ConsoleLogsResponse,
    ConsoleLogsError,
>)
    ensures
        match r {
            Ok(resp) => {
                &&& spec_reply_error(*reply) is None
                &&& resp.logs@.len() == spec_reply_logs_len(*reply)
                &&& resp.returned_count == resp.logs@.len()
                &&& resp.total_count == spec_reply_total(*reply)
            },
            Err(e) => {
                &&& e matches ConsoleLogsError::WebviewOperation(m) && Some(m@)
                    == spec_reply_error(*reply)
            },
        },
{
    if let Some(err_v) = reply.get("error") {
        if let Some(s) = err_v.as_str() {
            return Err(ConsoleLogsError::WebviewOperation(s.clone()));
        }
    }
    let logs: Vec<ConsoleLogEntry> = match reply.get("logs") {
        Some(l) => match l.as_arr() {
            Some(items) => match decode_log_entries(items) {
                Some(es) => es,
                None => Vec::new(),
            },
            None => Vec::new(),
        },
        None => Vec::new(),
    };
    let total_count: usize = match reply.get("total_count") {
        Some(c) => match c.as_u64() {
            Some(n) => saturate_usize(n),
            None => logs.len(),
        },
        None => logs.len(),
    };
    let returned_count = logs.len();
    Ok(ConsoleLogsResponse { logs, total_count, returned_count })
}

/// Whether an envelope's data carries this response's counts and entries.
pub open spec fn spec_response_encoded(resp: ConsoleLogsResponse, v: Value) -> bool {
    &&& v.spec_get("returned_count"@) == Some(Value::UInt(resp.returned_count as u64))
    &&& v.spec_get("total_count"@) == Some(Value::UInt(resp.total_count as u64))
    &&& match v.spec_get("logs"@) {
        Some(Value::Arr(items)) => items@.len() == resp.logs@.len() && forall|i: int|
            0 <= i < items@.len() ==> spec_entry_matches(resp.logs@[i], #[trigger] items@[i]),
        _ => false,
    }
}

/// Encodes one entry as a payload object.
pub fn encode_log_entry(e: &ConsoleLogEntry) -> (r: Value)
    ensures
        spec_entry_matches(*e, r),
        spec_entry_ok(r),
{
    let mut args: Vec<Value> = Vec::new();
    let n = e.args.len();
    let mut i: usize = 0;
    while i < n
        invariant
            n == e.args@.len(),
            i <= n,
            args@.len() == i,
            forall|j: int| 0 <= j < i ==> (#[trigger] args@[j]) is Str,
            forall|j: int| 0 <= j < i ==> #[trigger] e.args@[j]@ == args@[j]->Str_0@,
        decreases n - i,
    {
        args.push(Value::Str(e.args[i].clone()));
        i = i + 1;
    }
    let mut fields: Vec<(String, Value)> = Vec::new();
    fields.push((String::from_str("timestamp"), Value::UInt(e.timestamp)));
    fields.push((String::from_str("level"), Value::Str(e.level.clone())));
    fields.push((String::from_str("message"), Value::Str(e.message.clone())));
    fields.push((String::from_str("args"), Value::Arr(args)));
    let r = Value::Obj(fields);
    proof {
        lemma_entry_keys(r->Obj_0@);
    }
    r
}

proof fn lemma_entry_keys(fields: Seq<(String, Value)>)
    requires
        fields.len() == 4,
        fields[0].0@ == "timestamp"@,
        fields[1].0@ == "level"@,
        fields[2].0@ == "message"@,
        fields[3].0@ == "args"@,
    ensures
        crate::value::obj_get(fields, "timestamp"@) == Some(fields[0].1),
        crate::value::obj_get(fields, "level"@) == Some(fields[1].1),
        crate::value::obj_get(fields, "message"@) == Some(fields[2].1),
        crate::value::obj_get(fields, "args"@) == Some(fields[3].1),
{
    lemma_key_literals_distinct();
    lemma_obj_get_at(fields, 0, "timestamp"@);
    lemma_obj_get_at(fields, 1, "level"@);
    lemma_obj_get_at(fields, 2, "message"@);
    lemma_obj_get_at(fields, 3, "args"@);
}

/// Encodes the response as the envelope's data object.
pub fn encode_console_logs_response(resp: ConsoleLogsResponse) -> (r: Value)
    ensures
        spec_response_encoded(resp, r),
{
    let mut items: Vec<Value> = Vec::new();
    let n = resp.logs.len();
    let mut i: usize = 0;
    while i < n
        invariant
            n == resp.logs@.len(),
            i <= n,
            items@.len() == i,
            forall|j: int|
                0 <= j < i ==> spec_entry_matches(resp.logs@[j], #[trigger] items@[j]),
        decreases n - i,
    {
        items.push(encode_log_entry(&resp.logs[i]));
        i = i + 1;
    }
    let mut fields: Vec<(String, Value)> = Vec::new();
    fields.push((String::from_str("logs"), Value::Arr(items)));
    fields.push((String::from_str("total_count"), Value::UInt(resp.total_count as u64)));
    fields.push((String::from_str("returned_count"), Value::UInt(resp.returned_count as u64)));
    let r = Value::Obj(fields);
    proof {
        lemma_response_keys(r->Obj_0@);
    }
    r
}

proof fn lemma_response_keys(fields: Seq<(String, Value)>)
    requires
        fields.len() == 3,
        fields[0].0@ == "logs"@,
        fields[1].0@ == "total_count"@,
        fields[2].0@ == "returned_count"@,
    ensures
        crate::value::obj_get(fields, "logs"@) == Some(fields[0].1),
        crate::value::obj_get(fields, "total_count"@) == Some(fields[1].1),
        crate::value::obj_get(fields, "returned_count"@) == Some(fields[2].1),
{
    lemma_key_literals_distinct();
    lemma_obj_get_at(fields, 0, "logs"@);
    lemma_obj_get_at(fields, 1, "total_count"@);
    lemma_obj_get_at(fields, 2, "returned_count"@);
}


/// The reply topic every `get-console-logs` call subscribes on.
pub open spec fn spec_console_reply_topic() -> Seq<char> {
    "get-console-logs-response"@
}

/// Validates a `get-console-logs` payload, resolves the target context, and
/// plans the bridge round trip: the filter object is published under
/// `get-console-logs`, and one reply is awaited for ten seconds.
pub fn start_get_console_logs(payload: &Value, registry: &Registry) -> (r: Result<Step, Error>)
    ensures
        match r {
            Ok(step) => {
                &&& spec_request_decodes(*payload)
                &&& step matches Step::Call(plan) && {
                    &&& spec_effective_label(
                        spec_opt_string(*payload, "window_label"@)->0,
                        plan.window_label@,
                    )
                    &&& registry.spec_has(plan.window_label@)
                    &&& plan.task_topic@ == "get-console-logs"@
                    &&& plan.reply_topic@ == spec_console_reply_topic()
                    &&& plan.timeout_ms == 10000
                    &&& plan.kind is ConsoleLogs
                    &&& plan.task_payload.spec_get("level"@) == Some(
                        match spec_opt_string(*payload, "level"@)->0 {
                            Some(l) => Value::Str(l),
                            None => Value::Null,
                        },
                    )
                    &&& plan.task_payload.spec_get("start_time_ms"@) == Some(
                        match spec_opt_u64(*payload, "start_time_ms"@)->0 {
                            Some(n) => Value::UInt(n),
                            None => Value::Null,
                        },
                    )
                    &&& plan.task_payload.spec_get("end_time_ms"@) == Some(
                        match spec_opt_u64(*payload, "end_time_ms"@)->0 {
                            Some(n) => Value::UInt(n),
                            None => Value::Null,
                        },
                    )
                    &&& plan.task_payload.spec_get("limit"@) == Some(
                        Value::UInt(
                            match spec_opt_usize(*payload, "limit"@)->0 {
                                Some(l) => l as u64,
                                None => spec_default_limit() as u64,
                            },
                        ),
                    )
                }
            },
            Err(e) => match e {
                Error::SerializationError { message } => !spec_request_decodes(*payload)
                    && message@ == "Invalid payload for console logs: "@
                    + spec_request_decode_error(*payload),
                Error::WindowNotFound { label } => {
                    &&& spec_request_decodes(*payload)
                    &&& spec_effective_label(
                        spec_opt_string(*payload, "window_label"@)->0,
                        label@,
                    )
                    &&& !registry.spec_has(label@)
                },
                _ => false,
            },
        },
{
    let req = match parse_console_logs_request(payload) {
        Ok(req) => req,
        Err(e) => {
            return Err(e);
        },
    };
    let window_label = match resolve_window(registry, &req.window_label) {
        Ok(l) => l,
        Err(e) => {
            return Err(e);
        },
    };
    let filter = build_console_filter(&req);
    Ok(
        Step::Call(
            CallPlan {
                window_label,
                task_topic: String::from_str("get-console-logs"),
                task_payload: filter,
                reply_topic: String::from_str("get-console-logs-response"),
                timeout_ms: 10000,
                operation: String::from_str("console logs retrieval"),
                kind: ReplyKind::ConsoleLogs,
            },
        ),
    )
}

/// Shapes the outcome of a `get-console-logs` bridge call into the final
/// envelope: a reply that names no error becomes a successful envelope whose
/// data carries the entries and both counts; a context-reported error, a
/// timeout, a failed publish and a malformed reply each become a failed
/// envelope with that failure's message.
pub fn finish_get_console_logs(outcome: CallOutcome) -> (r: Envelope)
    ensures
        r.wf(),
        match outcome {
            CallOutcome::Reply(v) => match spec_reply_error(v) {
                Some(msg) => {
                    &&& !r.success
                    &&& r.error is Some
                    &&& r.error->0@ == "Console operation error: "@ + msg
                },
                None => {
                    &&& r.success
                    &&& r.data is Some
                    &&& r.data->0.spec_get("returned_count"@) == Some(
                        Value::UInt(spec_reply_logs_len(v) as u64),
                    )
                    &&& r.data->0.spec_get("total_count"@) == Some(
                        Value::UInt(spec_reply_total(v) as u64),
                    )
                },
            },
            CallOutcome::TimedOut => {
                &&& !r.success
                &&& r.error is Some
                &&& r.error->0@ == "Operation timed out: Timeout waiting for console logs response"@
            },
            CallOutcome::PublishFailed(m) => {
                &&& !r.success
                &&& r.error is Some
                &&& r.error->0@ == "Console operation error: Failed to emit event: "@ + m@
            },
            CallOutcome::MalformedReply(m) => {
                &&& !r.success
                &&& r.error is Some
                &&& r.error->0@ == "Parse error: Failed to parse response: "@ + m@
            },
        },
{
    match outcome {
        CallOutcome::Reply(v) => match decode_console_logs_reply(&v) {
            Ok(resp) => {
                proof {
                    assert(resp.returned_count as u64 == spec_reply_logs_len(v) as u64);
                }
                Envelope::ok(encode_console_logs_response(resp))
            },
            Err(e) => Envelope::fail(e.message()),
        },
        CallOutcome::TimedOut => {
            let e = ConsoleLogsError::TimeoutError(
                String::from_str("Timeout waiting for console logs response"),
            );
            let env = Envelope::fail(e.message());
            proof {
                reveal_strlit("Operation timed out: ");
                reveal_strlit("Timeout waiting for console logs response");
                reveal_strlit("Operation timed out: Timeout waiting for console logs response");
                assert(env.error->0@
                    =~= "Operation timed out: Timeout waiting for console logs response"@);
            }
            env
        },
        CallOutcome::PublishFailed(m) => {
            let mut reason = String::from_str("Failed to emit event: ");
            reason.append(m.as_str());
            let e = ConsoleLogsError::WebviewOperation(reason);
            let env = Envelope::fail(e.message());
            proof {
                reveal_strlit("Console operation error: ");
                reveal_strlit("Failed to emit event: ");
                reveal_strlit("Console operation error: Failed to emit event: ");
                assert(env.error->0@ =~= "Console operation error: Failed to emit event: "@
                    + m@);
            }
            env
        },
        CallOutcome::MalformedReply(m) => {
            let mut reason = String::from_str("Failed to parse response: ");
            reason.append(m.as_str());
            let e = ConsoleLogsError::ParseError(reason);
            let env = Envelope::fail(e.message());
            proof {
                reveal_strlit("Parse error: ");
                reveal_strlit("Failed to parse response: ");
                reveal_strlit("Parse error: Failed to parse response: ");
                assert(env.error->0@ =~= "Parse error: Failed to parse response: "@ + m@);
            }
            env
        },
    }
}

/// Validates an `inject-console-capture` payload and plans the
/// fire-and-forget notification that asks the context to start capturing.
pub fn start_inject_console_capture(payload: &Value, registry: &Registry) -> (r: Result<
    Step,
    Error,
>)
    ensures
        match r {
            Ok(step) => {
                &&& spec_opt_string(*payload, "window_label"@) is Some
                &&& step matches Step::Notify(plan) && {
                    &&& spec_effective_label(
                        spec_opt_string(*payload, "window_label"@)->0,
                        plan.window_label@,
                    )
                    &&& registry.spec_has(plan.window_label@)
                    &&& plan.topic@ == "inject-console-capture"@
                    &&& plan.operation@ == "Failed to emit injection event"@
                    &&& match plan.ok_data.spec_get("message"@) {
                        Some(Value::Str(s)) => s@ == "Console capture injected"@,
                        _ => false,
                    }
                }
            },
            Err(e) => match e {
                Error::SerializationError { message } => spec_opt_string(
                    *payload,
                    "window_label"@,
                ) is None && message@ == "Invalid payload for injection: "@ + spec_field_error(
                    "window_label"@,
                    "a string"@,
                ),
                Error::WindowNotFound { label } => {
                    &&& spec_opt_string(*payload, "window_label"@) is Some
                    &&& spec_effective_label(
                        spec_opt_string(*payload, "window_label"@)->0,
                        label@,
                    )
                    &&& !registry.spec_has(label@)
                },
                _ => false,
            },
        },
{
    let window_label_req = match opt_string_field(payload, "window_label") {
        Ok(v) => v,
        Err(m) => {
            return Err(Error::serialization_error(injection_decode_error(m)));
        },
    };
    let window_label = match resolve_window(registry, &window_label_req) {
        Ok(l) => l,
        Err(e) => {
            return Err(e);
        },
    };
    let mut fields: Vec<(String, Value)> = Vec::new();
    fields.push(
        (String::from_str("message"), Value::Str(String::from_str("Console capture injected"))),
    );
    let ok_data = Value::Obj(fields);
    Ok(
        Step::Notify(
            NotifyPlan {
                window_label,
                topic: String::from_str("inject-console-capture"),
                payload: Value::Null,
                ok_data,
                operation: String::from_str("Failed to emit injection event"),
            },
        ),
    )
}

/// Prefixes a field decode error with the injection command's context.
fn injection_decode_error(m: String) -> (r: String)
    ensures
        r@ == "Invalid payload for injection: "@ + m@,
{
    let mut s = String::from_str("Invalid payload for injection: ");
    s.append(m.as_str());
    s
}

/// Whether an entry passes the level filter: no filter and the literal
/// `"all"` admit every level, otherwise levels compare case-insensitively.
pub open spec fn spec_level_matches(entry_level: Seq<char>, filter: Option<String>) -> bool {
    match filter {
        None => true,
        Some(f) => lower_of(f@) == "all"@ || lower_of(f@) == lower_of(entry_level),
    }
}

/// Whether a timestamp lies in the requested window.
pub open spec fn spec_in_window(ts: u64, start: Option<u64>, end: Option<u64>) -> bool {
    &&& match start {
        Some(s) => ts >= s,
        None => true,
    }
    &&& match end {
        Some(e) => ts <= e,
        None => true,
    }
}

/// Whether the filter selects an entry.
pub open spec fn spec_entry_selected(
    e: ConsoleLogEntry,
    level: Option<String>,
    start: Option<u64>,
    end: Option<u64>,
) -> bool {
    spec_level_matches(e.level@, level) && spec_in_window(e.timestamp, start, end)
}

/// The selection predicate of one query, as a function value.
pub open spec fn spec_console_pred(
    level: Option<String>,
    start: Option<u64>,
    end: Option<u64>,
) -> spec_fn(ConsoleLogEntry) -> bool {
    |e: ConsoleLogEntry| spec_entry_selected(e, level, start, end)
}

/// The buffer semantics a well-behaved context implements for
/// `get-console-logs`: the filter selects entries first, `total_count`
/// counts every selected entry, and `limit` caps only how many are
/// returned, in buffer order.
pub fn query_console_buffer(
    entries: &Vec<ConsoleLogEntry>,
    level: &Option<String>,
    start_time_ms: Option<u64>,
    end_time_ms: Option<u64>,
    limit: usize,
) -> (r: ConsoleLogsResponse)
    ensures
        ({
            let selected = entries@.filter(
                spec_console_pred(*level, start_time_ms, end_time_ms),
            );
            &&& r.total_count == selected.len()
            &&& r.returned_count == r.logs@.len()
            &&& r.logs@.len() == if selected.len() <= limit {
                selected.len()
            } else {
                limit as nat
            }
            &&& forall|i: int|
                0 <= i < r.logs@.len() ==> entry_eq(#[trigger] r.logs@[i], selected[i])
        }),
{
    let ghost pred = spec_console_pred(*level, start_time_ms, end_time_ms);
    let n = entries.len();
    let mut logs: Vec<ConsoleLogEntry> = Vec::new();
    let mut total: usize = 0;
    let mut i: usize = 0;
    proof {
        assert(entries@.take(0).filter(pred) =~= Seq::<ConsoleLogEntry>::empty());
    }
    while i < n
        invariant
            pred == spec_console_pred(*level, start_time_ms, end_time_ms),
            n == entries@.len(),
            i <= n,
            ({
                let sel = entries@.take(i as int).filter(pred);
                &&& total == sel.len()
                &&& logs@.len() == if sel.len() <= limit {
                    sel.len()
                } else {
                    limit as nat
                }
                &&& forall|k: int|
                    0 <= k < logs@.len() ==> entry_eq(#[trigger] logs@[k], sel[k])
            }),
        decreases n - i,
    {
        let e = &entries[i];
        let level_ok: bool = match level {
            None => true,
            Some(f) => {
                let lf = to_lowercase(f.as_str());
                if str_eq(lf.as_str(), "all") {
                    true
                } else {
                    let le = to_lowercase(e.level.as_str());
                    str_eq(lf.as_str(), le.as_str())
                }
            },
        };
        let start_ok: bool = match start_time_ms {
            Some(s) => e.timestamp >= s,
            None => true,
        };
        let end_ok: bool = match end_time_ms {
            Some(t) => e.timestamp <= t,
            None => true,
        };
        let take_it = level_ok && start_ok && end_ok;
        proof {
            assert(take_it == pred(entries@[i as int]));
            let prefix = entries@.take(i + 1);
            assert(prefix.drop_last() =~= entries@.take(i as int));
            assert(prefix.last() == entries@[i as int]);
            reveal_with_fuel(Seq::filter, 2);
            assert(prefix.filter(pred) =~= entries@.take(i as int).filter(pred) + if pred(
                entries@[i as int],
            ) {
                seq![entries@[i as int]]
            } else {
                Seq::<ConsoleLogEntry>::empty()
            });
            entries@.take(i as int).lemma_filter_len(pred);
        }
        if take_it {
            total = total + 1;
            if logs.len() < limit {
                logs.push(e.duplicate());
            }
        }
        i = i + 1;
    }
    proof {
        assert(entries@.take(n as int) =~= entries@);
    }
    let returned_count = logs.len();
    ConsoleLogsResponse { logs, total_count: total, returned_count }
}

} // verus!
