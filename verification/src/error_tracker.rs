//! The exception-tracking commands: retrieving tracked exceptions from a
//! context through the correlation bridge, installing the tracking script,
//! and clearing the tracked buffer.

use vstd::prelude::*;
use crate::bridge::CallOutcome;
use crate::envelope::Envelope;
use crate::error::Error;
use crate::fields::{
    opt_string_field, opt_u64_field, opt_usize_field, saturate_usize, spec_field_error,
    spec_opt_string, spec_opt_u64, spec_opt_usize,
};
use crate::plan::{CallPlan, NotifyPlan, ReplyKind, Step};
use crate::registry::{resolve_window, spec_effective_label, Registry};
use crate::strutil::{is_substring, lower_of, str_contains, str_eq, to_lowercase};
use crate::value::{lemma_obj_get_at, Value};

verus! {

broadcast use vstd::string::group_string_axioms;

/// A kind of tracked exception.
#[derive(Clone, Copy, Debug, PartialEq, Eq, Hash, Structural)]
pub enum ErrorType {
    Uncaught,
    UnhandledRejection,
    ReactBoundary,
}

/// The kind a lowercased filter string names.
pub open spec fn spec_error_type(t: Seq<char>) -> Option<ErrorType> {
    if t == "uncaught"@ {
        Some(ErrorType::Uncaught)
    } else if t == "unhandledrejection"@ {
        Some(ErrorType::UnhandledRejection)
    } else if t == "reactboundary"@ {
        Some(ErrorType::ReactBoundary)
    } else {
        None
    }
}

impl ErrorType {
    /// Parses a kind name, case-insensitively.
    pub fn from_str(s: &str) -> (r: Option<ErrorType>)
        ensures
            r == spec_error_type(lower_of(s@)),
    {
        let l = to_lowercase(s);
        if str_eq(l.as_str(), "uncaught") {
            Some(ErrorType::Uncaught)
        } else if str_eq(l.as_str(), "unhandledrejection") {
            Some(ErrorType::UnhandledRejection)
        } else if str_eq(l.as_str(), "reactboundary") {
            Some(ErrorType::ReactBoundary)
        } else {
            None
        }
    }
}

/// A failure local to the exception-tracking commands; folded into a failed
/// envelope, never propagated.
pub enum ErrorTrackerError {
    WebviewOperation(String),
    TimeoutError(String),
    ParseError(String),
}

impl ErrorTrackerError {
    pub open spec fn spec_message(&self) -> Seq<char> {
        match self {
            ErrorTrackerError::WebviewOperation(s) => "Error tracking operation error: "@ + s@,
            ErrorTrackerError::TimeoutError(s) => "Operation timed out: "@ + s@,
            ErrorTrackerError::ParseError(s) => "Parse error: "@ + s@,
        }
    }

    /// Renders this error as one message string.
    pub fn message(&self) -> (r: String)
        ensures
            r@ == self.spec_message(),
    {
        match self {
            ErrorTrackerError::WebviewOperation(s) => {
                let mut m = String::from_str("Error tracking operation error: ");
                m.append(s.as_str());
                m
            },
            ErrorTrackerError::TimeoutError(s) => {
                let mut m = String::from_str("Operation timed out: ");
                m.append(s.as_str());
                m
            },
            ErrorTrackerError::ParseError(s) => {
                let mut m = String::from_str("Parse error: ");
                m.append(s.as_str());
                m
            },
        }
    }
}

/// One line of a stack trace, with source-mapped positions where known.
pub struct StackFrame {
    pub function_name: Option<String>,
    pub file_name: Option<String>,
    pub line_number: Option<u32>,
    pub column_number: Option<u32>,
    pub source_mapped_file: Option<String>,
    pub source_mapped_line: Option<u32>,
    pub source_mapped_column: Option<u32>,
}

/// One tracked exception, aggregated over repeated occurrences.
pub struct ExceptionEntry {
    pub id: String,
    pub error_type: String,
    pub message: String,
    pub stack_trace: Vec<StackFrame>,
    pub first_occurrence_ms: u64,
    pub last_occurrence_ms: u64,
    pub frequency: u32,
    pub error_details: Option<String>,
}

/// Field-for-field equality of two exception entries, over string views;
/// the stack traces are compared by length alone.
pub open spec fn exception_eq(a: ExceptionEntry, b: ExceptionEntry) -> bool {
    &&& a.id@ == b.id@
    &&& a.error_type@ == b.error_type@
    &&& a.message@ == b.message@
    &&& a.stack_trace@.len() == b.stack_trace@.len()
    &&& a.first_occurrence_ms == b.first_occurrence_ms
    &&& a.last_occurrence_ms == b.last_occurrence_ms
    &&& a.frequency == b.frequency
    &&& match (a.error_details, b.error_details) {
        (Some(x), Some(y)) => x@ == y@,
        (None, None) => true,
        _ => false,
    }
}

/// The decoded request for `get-exceptions`.
pub struct ErrorTrackerRequest {
    pub window_label: Option<String>,
    pub error_type: Option<String>,
    pub message_pattern: Option<String>,
    pub start_time_ms: Option<u64>,
    pub end_time_ms: Option<u64>,
    pub limit: Option<usize>,
}

/// Whether a payload decodes into an [`ErrorTrackerRequest`].
pub open spec fn spec_tracker_request_decodes(payload: Value) -> bool {
    &&& spec_opt_string(payload, "window_label"@) is Some
    &&& spec_opt_string(payload, "error_type"@) is Some
    &&& spec_opt_string(payload, "message_pattern"@) is Some
    &&& spec_opt_u64(payload, "start_time_ms"@) is Some
    &&& spec_opt_u64(payload, "end_time_ms"@) is Some
    &&& spec_opt_usize(payload, "limit"@) is Some
}

/// The decode-failure text of the first request field of the wrong shape,
/// in the order the fields are read.
pub open spec fn spec_tracker_decode_error(payload: Value) -> Seq<char> {
    if spec_opt_string(payload, "window_label"@) is None {
        spec_field_error("window_label"@, "a string"@)
    } else if spec_opt_string(payload, "error_type"@) is None {
        spec_field_error("error_type"@, "a string"@)
    } else if spec_opt_string(payload, "message_pattern"@) is None {
        spec_field_error("message_pattern"@, "a string"@)
    } else if spec_opt_u64(payload, "start_time_ms"@) is None {
        spec_field_error("start_time_ms"@, "an unsigned integer"@)
    } else if spec_opt_u64(payload, "end_time_ms"@) is None {
        spec_field_error("end_time_ms"@, "an unsigned integer"@)
    } else {
        spec_field_error("limit"@, "an unsigned integer"@)
    }
}

/// Decodes the request payload; a field of the wrong shape is a
/// serialization error carrying the decode text.
pub fn parse_error_tracker_request(payload: &Value) -> (r: Result<ErrorTrackerRequest, Error>)
    ensures
        match r {
            Ok(req) => {
                &&& spec_tracker_request_decodes(*payload)
                &&& Some(req.window_label) == spec_opt_string(*payload, "window_label"@)
                &&& Some(req.error_type) == spec_opt_string(*payload, "error_type"@)
                &&& Some(req.message_pattern) == spec_opt_string(*payload, "message_pattern"@)
                &&& Some(req.start_time_ms) == spec_opt_u64(*payload, "start_time_ms"@)
                &&& Some(req.end_time_ms) == spec_opt_u64(*payload, "end_time_ms"@)
                &&& Some(req.limit) == spec_opt_usize(*payload, "limit"@)
            },
            Err(e) => {
                &&& !spec_tracker_request_decodes(*payload)
                &&& e matches Error::SerializationError { message } && message@
                    == "Invalid payload for error tracker: "@ + spec_tracker_decode_error(
                    *payload,
                )
            },
        },
{
    let window_label = match opt_string_field(payload, "window_label") {
        Ok(v) => v,
        Err(m) => {
            return Err(Error::serialization_error(decode_error(m)));
        },
    };
    let error_type = match opt_string_field(payload, "error_type") {
        Ok(v) => v,
        Err(m) => {
            return Err(Error::serialization_error(decode_error(m)));
        },
    };
    let message_pattern = match opt_string_field(payload, "message_pattern") {
        Ok(v) => v,
        Err(m) => {
            return Err(Error::serialization_error(decode_error(m)));
        },
    };
    let start_time_ms = match opt_u64_field(payload, "start_time_ms") {
        Ok(v) => v,
        Err(m) => {
            return Err(Error::serialization_error(decode_error(m)));
        },
    };
    let end_time_ms = match opt_u64_field(payload, "end_time_ms") {
        Ok(v) => v,
        Err(m) => {
            return Err(Error::serialization_error(decode_error(m)));
        },
    };
    let limit = match opt_usize_field(payload, "limit") {
        Ok(v) => v,
        Err(m) => {
            return Err(Error::serialization_error(decode_error(m)));
        },
    };
    Ok(
        ErrorTrackerRequest {
            window_label,
            error_type,
            message_pattern,
            start_time_ms,
            end_time_ms,
            limit,
        },
    )
}

/// Prefixes a field decode error with the command's context.
fn decode_error(m: String) -> (r: String)
    ensures
        r@ == "Invalid payload for error tracker: "@ + m@,
{
    let mut s = String::from_str("Invalid payload for error tracker: ");
    s.append(m.as_str());
    s
}

/// The request to install the tracking script.
pub struct InjectErrorTrackerRequest {
    pub window_label: Option<String>,
    pub circular_buffer_size: Option<usize>,
}

/// The confirmation returned after installing the tracking script.
pub struct InjectErrorTrackerResponse {
    pub message: String,
    pub circular_buffer_size: usize,
}

/// The shaped response for `get-exceptions`.
pub struct ErrorTrackerResponse {
    pub exceptions: Vec<ExceptionEntry>,
    pub total_count: usize,
    pub returned_count: usize,
}

/// Whether one reply array element has the shape of an exception entry:
/// the identity, kind, message and occurrence fields are required, the
/// stack trace must be an array, and the details are optional.
pub open spec fn spec_exception_ok(v: Value) -> bool {
    &&& v.spec_get("id"@) matches Some(Value::Str(_))
    &&& v.spec_get("error_type"@) matches Some(Value::Str(_))
    &&& v.spec_get("message"@) matches Some(Value::Str(_))
    &&& v.spec_get("stack_trace"@) matches Some(Value::Arr(_))
    &&& v.spec_get("first_occurrence_ms"@) matches Some(Value::UInt(_))
    &&& v.spec_get("last_occurrence_ms"@) matches Some(Value::UInt(_))
    &&& match v.spec_get("frequency"@) {
        Some(Value::UInt(n)) => n <= u32::MAX as u64,
        _ => false,
    }
    &&& match v.spec_get("error_details"@) {
        None => true,
        Some(Value::Null) => true,
        Some(Value::Str(_)) => true,
        _ => false,
    }
}

/// Whether a decoded entry carries the fields of a reply element.
pub open spec fn spec_exception_matches(e: ExceptionEntry, v: Value) -> bool {
    &&& match v.spec_get("id"@) {
        Some(Value::Str(s)) => e.id@ == s@,
        _ => false,
    }
    &&& match v.spec_get("error_type"@) {
        Some(Value::Str(s)) => e.error_type@ == s@,
        _ => false,
    }
    &&& match v.spec_get("message"@) {
        Some(Value::Str(s)) => e.message@ == s@,
        _ => false,
    }
    &&& v.spec_get("first_occurrence_ms"@) == Some(Value::UInt(e.first_occurrence_ms))
    &&& v.spec_get("last_occurrence_ms"@) == Some(Value::UInt(e.last_occurrence_ms))
    &&& v.spec_get("frequency"@) == Some(Value::UInt(e.frequency as u64))
    &&& match v.spec_get("error_details"@) {
        None => e.error_details is None,
        Some(Value::Null) => e.error_details is None,
        Some(Value::Str(s)) => e.error_details matches Some(d) && d@ == s@,
        _ => false,
    }
}

/// Decodes one stack frame; every field is optional, and a present field of
/// the wrong shape leaves the frame position unknown rather than rejecting
/// the entry.
pub fn decode_stack_frame(v: &Value) -> (r: StackFrame)
{
    let function_name = match v.get("function_name") {
        Some(f) => match f.as_str() {
            Some(s) => Some(s.clone()),
            None => None,
        },
        None => None,
    };
    let file_name = match v.get("file_name") {
        Some(f) => match f.as_str() {
            Some(s) => Some(s.clone()),
            None => None,
        },
        None => None,
    };
    let line_number = opt_u32(v, "line_number");
    let column_number = opt_u32(v, "column_number");
    let source_mapped_file = match v.get("source_mapped_file") {
        Some(f) => match f.as_str() {
            Some(s) => Some(s.clone()),
            None => None,
        },
        None => None,
    };
    let source_mapped_line = opt_u32(v, "source_mapped_line");
    let source_mapped_column = opt_u32(v, "source_mapped_column");
    StackFrame {
        function_name,
        file_name,
        line_number,
        column_number,
        source_mapped_file,
        source_mapped_line,
        source_mapped_column,
    }
}

fn opt_u32(v: &Value, key: &str) -> (r: Option<u32>)
    ensures
        match v.spec_get(key@) {
            Some(Value::UInt(n)) => r == if n <= u32::MAX as u64 {
                Some(n as u32)
            } else {
                None::<u32>
            },
            _ => r is None,
        },
{
    match v.get(key) {
        Some(f) => match f.as_u64() {
            Some(n) => {
                if n <= u32::MAX as u64 {
                    Some(n as u32)
                } else {
                    None
                }
            },
            None => None,
        },
        None => None,
    }
}

/// Decodes one reply array element into an exception entry.
pub fn decode_exception_entry(v: &Value) -> (r: Option<ExceptionEntry>)
    ensures
        match r {
            Some(e) => spec_exception_ok(*v) && spec_exception_matches(e, *v),
            None => !spec_exception_ok(*v),
        },
{
    let id = match v.get("id") {
        Some(f) => match f.as_str() {
            Some(s) => s.clone(),
            None => {
                return None;
            },
        },
        None => {
            return None;
        },
    };
    let error_type = match v.get("error_type") {
        Some(f) => match f.as_str() {
            Some(s) => s.clone(),
            None => {
                return None;
            },
        },
        None => {
            return None;
        },
    };
    let message = match v.get("message") {
        Some(f) => match f.as_str() {
            Some(s) => s.clone(),
            None => {
                return None;
            },
        },
        None => {
            return None;
        },
    };
    let frames = match v.get("stack_trace") {
        Some(f) => match f.as_arr() {
            Some(items) => items,
            None => {
                return None;
            },
        },
        None => {
            return None;
        },
    };
    let first_occurrence_ms = match v.get("first_occurrence_ms") {
        Some(f) => match f.as_u64() {
            Some(n) => n,
            None => {
                return None;
            },
        },
        None => {
            return None;
        },
    };
    let last_occurrence_ms = match v.get("last_occurrence_ms") {
        Some(f) => match f.as_u64() {
            Some(n) => n,
            None => {
                return None;
            },
        },
        None => {
            return None;
        },
    };
    let frequency = match v.get("frequency") {
        Some(f) => match f.as_u64() {
            Some(n) => {
                if n <= u32::MAX as u64 {
                    n as u32
                } else {
                    return None;
                }
            },
            None => {
                return None;
            },
        },
        None => {
            return None;
        },
    };
    let error_details = match v.get("error_details") {
        Some(f) => match f.as_str() {
            Some(s) => Some(s.clone()),
            None => {
                if f.is_null() {
                    None
                } else {
                    return None;
                }
            },
        },
        None => None,
    };
    let n = frames.len();
    let mut stack_trace: Vec<StackFrame> = Vec::new();
    let mut i: usize = 0;
    while i < n
        invariant
            n == frames@.len(),
            i <= n,
            stack_trace@.len() == i,
        decreases n - i,
    {
        stack_trace.push(decode_stack_frame(&frames[i]));
        i = i + 1;
    }
    Some(
        ExceptionEntry {
            id,
            error_type,
            message,
            stack_trace,
            first_occurrence_ms,
            last_occurrence_ms,
            frequency,
            error_details,
        },
    )
}

/// Whether every element of a reply array has the exception shape.
pub open spec fn spec_all_exceptions_ok(items: Seq<Value>) -> bool {
    forall|i: int| 0 <= i < items.len() ==> spec_exception_ok(#[trigger] items[i])
}

/// Decodes the reply's array of exceptions; any malformed element rejects
/// the whole array.
pub fn decode_exception_entries(items: &Vec<Value>) -> (r: Option<Vec<ExceptionEntry>>)
    ensures
        match r {
            Some(es) => {
                &&& spec_all_exceptions_ok(items@)
                &&& es@.len() == items@.len()
                &&& forall|i: int|
                    0 <= i < items@.len() ==> spec_exception_matches(
                        #[trigger] es@[i],
                        items@[i],
                    )
            },
            None => !spec_all_exceptions_ok(items@),
        },
{
    let n = items.len();
    let mut es: Vec<ExceptionEntry> = Vec::new();
    let mut i: usize = 0;
    while i < n
        invariant
            n == items@.len(),
            i <= n,
            es@.len() == i,
            forall|j: int| 0 <= j < i ==> spec_exception_ok(#[trigger] items@[j]),
            forall|j: int|
                0 <= j < i ==> spec_exception_matches(#[trigger] es@[j], items@[j]),
        decreases n - i,
    {
        match decode_exception_entry(&items[i]) {
            Some(e) => {
                es.push(e);
            },
            None => {
                return None;
            },
        }
        i = i + 1;
    }
    Some(es)
}

/// The application-level error a reply carries, if any.
pub open spec fn spec_reply_error(v: Value) -> Option<Seq<char>> {
    match v.spec_get("error"@) {
        Some(Value::Str(s)) => Some(s@),
        _ => None,
    }
}

/// How many exceptions a well-formed reply carries.
pub open spec fn spec_reply_exceptions_len(v: Value) -> nat {
    match v.spec_get("exceptions"@) {
        Some(Value::Arr(items)) => if spec_all_exceptions_ok(items@) {
            items@.len()
        } else {
            0
        },
        _ => 0,
    }
}

/// The total count a reply reports, falling back to the exception count.
pub open spec fn spec_reply_total(v: Value) -> nat {
    match v.spec_get("total_count"@) {
        Some(Value::UInt(c)) => if c <= usize::MAX as u64 {
            c as nat
        } else {
            usize::MAX as nat
        },
        _ => spec_reply_exceptions_len(v),
    }
}

/// Decodes a bridge reply into the command's response.
pub fn decode_exceptions_reply(reply: &Value) -> (r: Result<
    ErrorTrackerResponse,
    ErrorTrackerError,
>)
    ensures
        match r {
            Ok(resp) => {
                &&& spec_reply_error(*reply) is None
                &&& resp.exceptions@.len() == spec_reply_exceptions_len(*reply)
                &&& resp.returned_count == resp.exceptions@.len()
                &&& resp.total_count == spec_reply_total(*reply)
            },
            Err(e) => {
                &&& e matches ErrorTrackerError::WebviewOperation(m) && Some(m@)
                    == spec_reply_error(*reply)
            },
        },
{
    if let Some(err_v) = reply.get("error") {
        if let Some(s) = err_v.as_str() {
            return Err(ErrorTrackerError::WebviewOperation(s.clone()));
        }
    }
    let exceptions: Vec<ExceptionEntry> = match reply.get("exceptions") {
        Some(l) => match l.as_arr() {
            Some(items) => match decode_exception_entries(items) {
                Some(es) => es,
                None => Vec::new(),
            },
            None => Vec::new(),
        },
        None => Vec::new(),
    };
    let total_count: usize = match reply.get("total_count") {
        Some(c) => match c.as_u64() {
            Some(n) => saturate_usize(n),
            None => exceptions.len(),
        },
        None => exceptions.len(),
    };
    let returned_count = exceptions.len();
    Ok(ErrorTrackerResponse { exceptions, total_count, returned_count })
}

/// Whether an envelope's data carries this response's counts and entries.
pub open spec fn spec_tracker_response_encoded(resp: ErrorTrackerResponse, v: Value) -> bool {
    &&& v.spec_get("returned_count"@) == Some(Value::UInt(resp.returned_count as u64))
    &&& v.spec_get("total_count"@) == Some(Value::UInt(resp.total_count as u64))
    &&& match v.spec_get("exceptions"@) {
        Some(Value::Arr(items)) => items@.len() == resp.exceptions@.len() && forall|i: int|
            0 <= i < items@.len() ==> spec_exception_matches(
                resp.exceptions@[i],
                #[trigger] items@[i],
            ),
        _ => false,
    }
}

/// Encodes one exception entry as a payload object; the stack trace is
/// carried as an array of frame objects.
pub fn encode_exception_entry(e: &ExceptionEntry) -> (r: Value)
    ensures
        spec_exception_matches(*e, r),
        spec_exception_ok(r),
{
    let mut frames: Vec<Value> = Vec::new();
    let n = e.stack_trace.len();
    let mut i: usize = 0;
    while i < n
        invariant
            n == e.stack_trace@.len(),
            i <= n,
            frames@.len() == i,
        decreases n - i,
    {
        frames.push(encode_stack_frame(&e.stack_trace[i]));
        i = i + 1;
    }
    let details_v = match &e.error_details {
        Some(d) => Value::Str(d.clone()),
        None => Value::Null,
    };
    let mut fields: Vec<(String, Value)> = Vec::new();
    fields.push((String::from_str("id"), Value::Str(e.id.clone())));
    fields.push((String::from_str("error_type"), Value::Str(e.error_type.clone())));
    fields.push((String::from_str("message"), Value::Str(e.message.clone())));
    fields.push((String::from_str("stack_trace"), Value::Arr(frames)));
    fields.push((String::from_str("first_occurrence_ms"), Value::UInt(e.first_occurrence_ms)));
    fields.push((String::from_str("last_occurrence_ms"), Value::UInt(e.last_occurrence_ms)));
    fields.push((String::from_str("frequency"), Value::UInt(e.frequency as u64)));
    fields.push((String::from_str("error_details"), details_v));
    let r = Value::Obj(fields);
    proof {
        lemma_exception_keys(r->Obj_0@);
    }
    r
}

/// Encodes one stack frame as a payload object, with absent positions as
/// nulls.
pub fn encode_stack_frame(f: &StackFrame) -> (r: Value)
{
    let mut fields: Vec<(String, Value)> = Vec::new();
    fields.push(
        (
            String::from_str("function_name"),
            match &f.function_name {
                Some(s) => Value::Str(s.clone()),
                None => Value::Null,
            },
        ),
    );
    fields.push(
        (
            String::from_str("file_name"),
            match &f.file_name {
                Some(s) => Value::Str(s.clone()),
                None => Value::Null,
            },
        ),
    );
    fields.push(
        (
            String::from_str("line_number"),
            match f.line_number {
                Some(x) => Value::UInt(x as u64),
                None => Value::Null,
            },
        ),
    );
    fields.push(
        (
            String::from_str("column_number"),
            match f.column_number {
                Some(x) => Value::UInt(x as u64),
                None => Value::Null,
            },
        ),
    );
    fields.push(
        (
            String::from_str("source_mapped_file"),
            match &f.source_mapped_file {
                Some(s) => Value::Str(s.clone()),
                None => Value::Null,
            },
        ),
    );
    fields.push(
        (
            String::from_str("source_mapped_line"),
            match f.source_mapped_line {
                Some(x) => Value::UInt(x as u64),
                None => Value::Null,
            },
        ),
    );
    fields.push(
        (
            String::from_str("source_mapped_column"),
            match f.source_mapped_column {
                Some(x) => Value::UInt(x as u64),
                None => Value::Null,
            },
        ),
    );
    Value::Obj(fields)
}

proof fn lemma_tracker_key_literals_distinct()
    ensures
        "id"@ != "error_type"@,
        "id"@ != "message"@,
        "id"@ != "stack_trace"@,
        "id"@ != "first_occurrence_ms"@,
        "id"@ != "last_occurrence_ms"@,
        "id"@ != "frequency"@,
        "id"@ != "error_details"@,
        "error_type"@ != "message"@,
        "error_type"@ != "stack_trace"@,
        "error_type"@ != "first_occurrence_ms"@,
        "error_type"@ != "last_occurrence_ms"@,
        "error_type"@ != "frequency"@,
        "error_type"@ != "error_details"@,
        "message"@ != "stack_trace"@,
        "message"@ != "first_occurrence_ms"@,
        "message"@ != "last_occurrence_ms"@,
        "message"@ != "frequency"@,
        "message"@ != "error_details"@,
        "stack_trace"@ != "first_occurrence_ms"@,
        "stack_trace"@ != "last_occurrence_ms"@,
        "stack_trace"@ != "frequency"@,
        "stack_trace"@ != "error_details"@,
        "first_occurrence_ms"@ != "last_occurrence_ms"@,
        "first_occurrence_ms"@ != "frequency"@,
        "first_occurrence_ms"@ != "error_details"@,
        "last_occurrence_ms"@ != "frequency"@,
        "last_occurrence_ms"@ != "error_details"@,
        "frequency"@ != "error_details"@,
        "exceptions"@ != "total_count"@,
        "exceptions"@ != "returned_count"@,
        "total_count"@ != "returned_count"@,
{
    reveal_strlit("id");
    reveal_strlit("error_type");
    reveal_strlit("message");
    reveal_strlit("stack_trace");
    reveal_strlit("first_occurrence_ms");
    reveal_strlit("last_occurrence_ms");
    reveal_strlit("frequency");
    reveal_strlit("error_details");
    reveal_strlit("exceptions");
    reveal_strlit("total_count");
    reveal_strlit("returned_count");
    assert("id"@.len() == 2);
    assert("error_type"@.len() == 10);
    assert("message"@.len() == 7);
    assert("stack_trace"@.len() == 11);
    assert("first_occurrence_ms"@.len() == 19);
    assert("last_occurrence_ms"@.len() == 18);
    assert("frequency"@.len() == 9);
    assert("error_details"@.len() == 13);
    assert("exceptions"@.len() == 10);
    assert("total_count"@.len() == 11);
    assert("returned_count"@.len() == 14);
    assert("error_type"@[0] == 'e' && "exceptions"@[0] == 'e' && "error_type"@[1] == 'r'
        && "exceptions"@[1] == 'x');
    assert("stack_trace"@[0] == 's' && "total_count"@[0] == 't');
    assert("message"@[0] == 'm' && "frequency"@[0] == 'f');
}

proof fn lemma_exception_keys(fields: Seq<(String, Value)>)
    requires
        fields.len() == 8,
        fields[0].0@ == "id"@,
        fields[1].0@ == "error_type"@,
        fields[2].0@ == "message"@,
        fields[3].0@ == "stack_trace"@,
        fields[4].0@ == "first_occurrence_ms"@,
        fields[5].0@ == "last_occurrence_ms"@,
        fields[6].0@ == "frequency"@,
        fields[7].0@ == "error_details"@,
    ensures
        crate::value::obj_get(fields, "id"@) == Some(fields[0].1),
        crate::value::obj_get(fields, "error_type"@) == Some(fields[1].1),
        crate::value::obj_get(fields, "message"@) == Some(fields[2].1),
        crate::value::obj_get(fields, "stack_trace"@) == Some(fields[3].1),
        crate::value::obj_get(fields, "first_occurrence_ms"@) == Some(fields[4].1),
        crate::value::obj_get(fields, "last_occurrence_ms"@) == Some(fields[5].1),
        crate::value::obj_get(fields, "frequency"@) == Some(fields[6].1),
        crate::value::obj_get(fields, "error_details"@) == Some(fields[7].1),
{
    lemma_tracker_key_literals_distinct();
    lemma_obj_get_at(fields, 0, "id"@);
    lemma_obj_get_at(fields, 1, "error_type"@);
    lemma_obj_get_at(fields, 2, "message"@);
    lemma_obj_get_at(fields, 3, "stack_trace"@);
    lemma_obj_get_at(fields, 4, "first_occurrence_ms"@);
    lemma_obj_get_at(fields, 5, "last_occurrence_ms"@);
    lemma_obj_get_at(fields, 6, "frequency"@);
    lemma_obj_get_at(fields, 7, "error_details"@);
}

/// Encodes the response as the envelope's data object.
pub fn encode_error_tracker_response(resp: ErrorTrackerResponse) -> (r: Value)
    ensures
        spec_tracker_response_encoded(resp, r),
{
    let mut items: Vec<Value> = Vec::new();
    let n = resp.exceptions.len();
    let mut i: usize = 0;
    while i < n
        invariant
            n == resp.exceptions@.len(),
            i <= n,
            items@.len() == i,
            forall|j: int|
                0 <= j < i ==> spec_exception_matches(
                    resp.exceptions@[j],
                    #[trigger] items@[j],
                ),
        decreases n - i,
    {
        items.push(encode_exception_entry(&resp.exceptions[i]));
        i = i + 1;
    }
    let mut fields: Vec<(String, Value)> = Vec::new();
    fields.push((String::from_str("exceptions"), Value::Arr(items)));
    fields.push((String::from_str("total_count"), Value::UInt(resp.total_count as u64)));
    fields.push((String::from_str("returned_count"), Value::UInt(resp.returned_count as u64)));
    let r = Value::Obj(fields);
    proof {
        lemma_tracker_response_keys(r->Obj_0@);
    }
    r
}

proof fn lemma_tracker_response_keys(fields: Seq<(String, Value)>)
    requires
        fields.len() == 3,
        fields[0].0@ == "exceptions"@,
        fields[1].0@ == "total_count"@,
        fields[2].0@ == "returned_count"@,
    ensures
        crate::value::obj_get(fields, "exceptions"@) == Some(fields[0].1),
        crate::value::obj_get(fields, "total_count"@) == Some(fields[1].1),
        crate::value::obj_get(fields, "returned_count"@) == Some(fields[2].1),
{
    lemma_tracker_key_literals_distinct();
    lemma_obj_get_at(fields, 0, "exceptions"@);
    lemma_obj_get_at(fields, 1, "total_count"@);
    lemma_obj_get_at(fields, 2, "returned_count"@);
}


/// Validates a `get-exceptions` payload, resolves the target context, and
/// plans the bridge round trip: the filter object is published under
/// `get-exceptions`, and one reply is awaited for ten seconds.
pub fn start_get_exceptions(payload: &Value, registry: &Registry) -> (r: Result<Step, Error>)
    ensures
        match r {
            Ok(step) => {
                &&& spec_tracker_request_decodes(*payload)
                &&& step matches Step::Call(plan) && {
                    &&& spec_effective_label(
                        spec_opt_string(*payload, "window_label"@)->0,
                        plan.window_label@,
                    )
                    &&& registry.spec_has(plan.window_label@)
                    &&& plan.task_topic@ == "get-exceptions"@
                    &&& plan.reply_topic@ == "get-exceptions-response"@
                    &&& plan.timeout_ms == 10000
                    &&& plan.kind is Exceptions
                    &&& plan.task_payload.spec_get("error_type"@) == Some(
                        match spec_opt_string(*payload, "error_type"@)->0 {
                            Some(t) => Value::Str(t),
                            None => Value::Null,
                        },
                    )
                    &&& plan.task_payload.spec_get("message_pattern"@) == Some(
                        match spec_opt_string(*payload, "message_pattern"@)->0 {
                            Some(p) => Value::Str(p),
                            None => Value::Null,
                        },
                    )
                    &&& plan.task_payload.spec_get("start_time_ms"@) == Some(
                        match spec_opt_u64(*payload, "start_time_ms"@)->0 {
                            Some(n) => Value::UInt(n),
                            None => Value::Null,
                        },
                    )
                    &&& plan.task_payload.spec_get("end_time_ms"@) == Some(
                        match spec_opt_u64(*payload, "end_time_ms"@)->0 {
                            Some(n) => Value::UInt(n),
                            None => Value::Null,
                        },
                    )
                    &&& plan.task_payload.spec_get("limit"@) == Some(
                        Value::UInt(
                            match spec_opt_usize(*payload, "limit"@)->0 {
                                Some(l) => l as u64,
                                None => 1000,
                            },
                        ),
                    )
                }
            },
            Err(e) => match e {
                Error::SerializationError { message } => !spec_tracker_request_decodes(*payload)
                    && message@ == "Invalid payload for error tracker: "@
                    + spec_tracker_decode_error(*payload),
                Error::WindowNotFound { label } => {
                    &&& spec_tracker_request_decodes(*payload)
                    &&& spec_effective_label(
                        spec_opt_string(*payload, "window_label"@)->0,
                        label@,
                    )
                    &&& !registry.spec_has(label@)
                },
                _ => false,
            },
        },
{
    let req = match parse_error_tracker_request(payload) {
        Ok(req) => req,
        Err(e) => {
            return Err(e);
        },
    };
    let window_label = match resolve_window(registry, &req.window_label) {
        Ok(l) => l,
        Err(e) => {
            return Err(e);
        },
    };
    let type_v = match &req.error_type {
        Some(t) => Value::Str(t.clone()),
        None => Value::Null,
    };
    let pattern_v = match &req.message_pattern {
        Some(p) => Value::Str(p.clone()),
        None => Value::Null,
    };
    let start_v = match req.start_time_ms {
        Some(n) => Value::UInt(n),
        None => Value::Null,
    };
    let end_v = match req.end_time_ms {
        Some(n) => Value::UInt(n),
        None => Value::Null,
    };
    let limit: usize = match req.limit {
        Some(l) => l,
        None => 1000,
    };
    let mut fields: Vec<(String, Value)> = Vec::new();
    fields.push((String::from_str("error_type"), type_v));
    fields.push((String::from_str("message_pattern"), pattern_v));
    fields.push((String::from_str("start_time_ms"), start_v));
    fields.push((String::from_str("end_time_ms"), end_v));
    fields.push((String::from_str("limit"), Value::UInt(limit as u64)));
    let filter = Value::Obj(fields);
    proof {
        lemma_tracker_filter_keys(filter->Obj_0@);
    }
    Ok(
        Step::Call(
            CallPlan {
                window_label,
                task_topic: String::from_str("get-exceptions"),
                task_payload: filter,
                reply_topic: String::from_str("get-exceptions-response"),
                timeout_ms: 10000,
                operation: String::from_str("exception retrieval"),
                kind: ReplyKind::Exceptions,
            },
        ),
    )
}

proof fn lemma_tracker_filter_keys(fields: Seq<(String, Value)>)
    requires
        fields.len() == 5,
        fields[0].0@ == "error_type"@,
        fields[1].0@ == "message_pattern"@,
        fields[2].0@ == "start_time_ms"@,
        fields[3].0@ == "end_time_ms"@,
        fields[4].0@ == "limit"@,
    ensures
        crate::value::obj_get(fields, "error_type"@) == Some(fields[0].1),
        crate::value::obj_get(fields, "message_pattern"@) == Some(fields[1].1),
        crate::value::obj_get(fields, "start_time_ms"@) == Some(fields[2].1),
        crate::value::obj_get(fields, "end_time_ms"@) == Some(fields[3].1),
        crate::value::obj_get(fields, "limit"@) == Some(fields[4].1),
{
    reveal_strlit("error_type");
    reveal_strlit("message_pattern");
    reveal_strlit("start_time_ms");
    reveal_strlit("end_time_ms");
    reveal_strlit("limit");
    assert("error_type"@.len() == 10);
    assert("message_pattern"@.len() == 15);
    assert("start_time_ms"@.len() == 13);
    assert("end_time_ms"@.len() == 11);
    assert("limit"@.len() == 5);
    lemma_obj_get_at(fields, 0, "error_type"@);
    lemma_obj_get_at(fields, 1, "message_pattern"@);
    lemma_obj_get_at(fields, 2, "start_time_ms"@);
    lemma_obj_get_at(fields, 3, "end_time_ms"@);
    lemma_obj_get_at(fields, 4, "limit"@);
}

/// Shapes the outcome of a `get-exceptions` bridge call into the final
/// envelope, mirroring the console-log shaping with this command's texts.
pub fn finish_get_exceptions(outcome: CallOutcome) -> (r: Envelope)
    ensures
        r.wf(),
        match outcome {
            CallOutcome::Reply(v) => match spec_reply_error(v) {
                Some(msg) => {
                    &&& !r.success
                    &&& r.error is Some
                    &&& r.error->0@ == "Error tracking operation error: "@ + msg
                },
                None => {
                    &&& r.success
                    &&& r.data is Some
                    &&& r.data->0.spec_get("returned_count"@) == Some(
                        Value::UInt(spec_reply_exceptions_len(v) as u64),
                    )
                    &&& r.data->0.spec_get("total_count"@) == Some(
                        Value::UInt(spec_reply_total(v) as u64),
                    )
                },
            },
            CallOutcome::TimedOut => {
                &&& !r.success
                &&& r.error is Some
                &&& r.error->0@
                    == "Operation timed out: Timeout waiting for error tracker response"@
            },
            CallOutcome::PublishFailed(m) => {
                &&& !r.success
                &&& r.error is Some
                &&& r.error->0@ == "Error tracking operation error: Failed to emit event: "@
                    + m@
            },
            CallOutcome::MalformedReply(m) => {
                &&& !r.success
                &&& r.error is Some
                &&& r.error->0@ == "Parse error: Failed to parse response: "@ + m@
            },
        },
{
    match outcome {
        CallOutcome::Reply(v) => match decode_exceptions_reply(&v) {
            Ok(resp) => Envelope::ok(encode_error_tracker_response(resp)),
            Err(e) => Envelope::fail(e.message()),
        },
        CallOutcome::TimedOut => {
            let e = ErrorTrackerError::TimeoutError(
                String::from_str("Timeout waiting for error tracker response"),
            );
            let env = Envelope::fail(e.message());
            proof {
                reveal_strlit("Operation timed out: ");
                reveal_strlit("Timeout waiting for error tracker response");
                reveal_strlit("Operation timed out: Timeout waiting for error tracker response");
                assert(env.error->0@
                    =~= "Operation timed out: Timeout waiting for error tracker response"@);
            }
            env
        },
        CallOutcome::PublishFailed(m) => {
            let mut reason = String::from_str("Failed to emit event: ");
            reason.append(m.as_str());
            let e = ErrorTrackerError::WebviewOperation(reason);
            let env = Envelope::fail(e.message());
            proof {
                reveal_strlit("Error tracking operation error: ");
                reveal_strlit("Failed to emit event: ");
                reveal_strlit("Error tracking operation error: Failed to emit event: ");
                assert(env.error->0@
                    =~= "Error tracking operation error: Failed to emit event: "@ + m@);
            }
            env
        },
        CallOutcome::MalformedReply(m) => {
            let mut reason = String::from_str("Failed to parse response: ");
            reason.append(m.as_str());
            let e = ErrorTrackerError::ParseError(reason);
            let env = Envelope::fail(e.message());
            proof {
                reveal_strlit("Parse error: ");
                reveal_strlit("Failed to parse response: ");
                reveal_strlit("Parse error: Failed to parse response: ");
                assert(env.error->0@ =~= "Parse error: Failed to parse response: "@ + m@);
            }
            env
        },
    }
}

/// Validates an `inject-error-tracker` payload and plans the notification
/// that installs the tracking script, with its circular-buffer size.
pub fn start_inject_error_tracker(payload: &Value, registry: &Registry) -> (r: Result<
    Step,
    Error,
>)
    ensures
        match r {
            Ok(step) => {
                &&& spec_opt_string(*payload, "window_label"@) is Some
                &&& spec_opt_usize(*payload, "circular_buffer_size"@) is Some
                &&& step matches Step::Notify(plan) && {
                    &&& spec_effective_label(
                        spec_opt_string(*payload, "window_label"@)->0,
                        plan.window_label@,
                    )
                    &&& registry.spec_has(plan.window_label@)
                    &&& plan.topic@ == "inject-error-tracker"@
                    &&& plan.payload.spec_get("circular_buffer_size"@) == Some(
                        Value::UInt(
                            match spec_opt_usize(*payload, "circular_buffer_size"@)->0 {
                                Some(n) => n as u64,
                                None => 1000,
                            },
                        ),
                    )
                    &&& plan.operation@ == "Failed to emit injection event"@
                    &&& match plan.ok_data.spec_get("message"@) {
                        Some(Value::Str(s)) => s@
                            == "Error tracking script injected successfully"@,
                        _ => false,
                    }
                    &&& plan.ok_data.spec_get("circular_buffer_size"@) == Some(
                        Value::UInt(
                            match spec_opt_usize(*payload, "circular_buffer_size"@)->0 {
                                Some(n) => n as u64,
                                None => 1000,
                            },
                        ),
                    )
                }
            },
            Err(e) => match e {
                Error::SerializationError { message } => !(spec_opt_string(
                    *payload,
                    "window_label"@,
                ) is Some && spec_opt_usize(*payload, "circular_buffer_size"@) is Some)
                    && message@ == "Invalid payload for error tracker injection: "@ + (
                if spec_opt_string(*payload, "window_label"@) is None {
                    spec_field_error("window_label"@, "a string"@)
                } else {
                    spec_field_error("circular_buffer_size"@, "an unsigned integer"@)
                }),
                Error::WindowNotFound { label } => {
                    &&& spec_effective_label(
                        spec_opt_string(*payload, "window_label"@)->0,
                        label@,
                    )
                    &&& !registry.spec_has(label@)
                },
                _ => false,
            },
        },
{
    let request = InjectErrorTrackerRequest {
        window_label: match opt_string_field(payload, "window_label") {
            Ok(v) => v,
            Err(m) => {
                return Err(Error::serialization_error(injection_decode_error(m)));
            },
        },
        circular_buffer_size: match opt_usize_field(payload, "circular_buffer_size") {
            Ok(v) => v,
            Err(m) => {
                return Err(Error::serialization_error(injection_decode_error(m)));
            },
        },
    };
    let window_label = match resolve_window(registry, &request.window_label) {
        Ok(l) => l,
        Err(e) => {
            return Err(e);
        },
    };
    let circular_buffer_size: usize = match request.circular_buffer_size {
        Some(n) => n,
        None => 1000,
    };
    let confirmation = InjectErrorTrackerResponse {
        message: String::from_str("Error tracking script injected successfully"),
        circular_buffer_size,
    };
    let mut task_fields: Vec<(String, Value)> = Vec::new();
    task_fields.push(
        (String::from_str("circular_buffer_size"), Value::UInt(circular_buffer_size as u64)),
    );
    let task_payload = Value::Obj(task_fields);
    let mut ok_fields: Vec<(String, Value)> = Vec::new();
    ok_fields.push((String::from_str("message"), Value::Str(confirmation.message)));
    ok_fields.push(
        (
            String::from_str("circular_buffer_size"),
            Value::UInt(confirmation.circular_buffer_size as u64),
        ),
    );
    let ok_data = Value::Obj(ok_fields);
    proof {
        reveal_strlit("message");
        reveal_strlit("circular_buffer_size");
        assert("message"@.len() == 7);
        assert("circular_buffer_size"@.len() == 20);
        lemma_obj_get_at(ok_data->Obj_0@, 0, "message"@);
        lemma_obj_get_at(ok_data->Obj_0@, 1, "circular_buffer_size"@);
    }
    Ok(
        Step::Notify(
            NotifyPlan {
                window_label,
                topic: String::from_str("inject-error-tracker"),
                payload: task_payload,
                ok_data,
                operation: String::from_str("Failed to emit injection event"),
            },
        ),
    )
}

/// Validates a `clear-exceptions` payload and plans the notification that
/// clears the context's tracked buffer.
pub fn start_clear_exceptions(payload: &Value, registry: &Registry) -> (r: Result<Step, Error>)
    ensures
        match r {
            Ok(step) => {
                &&& spec_opt_string(*payload, "window_label"@) is Some
                &&& step matches Step::Notify(plan) && {
                    &&& spec_effective_label(
                        spec_opt_string(*payload, "window_label"@)->0,
                        plan.window_label@,
                    )
                    &&& registry.spec_has(plan.window_label@)
                    &&& plan.topic@ == "clear-exceptions"@
                    &&& plan.operation@ == "Failed to emit clear event"@
                    &&& match plan.ok_data.spec_get("message"@) {
                        Some(Value::Str(s)) => s@ == "Exceptions cleared"@,
                        _ => false,
                    }
                }
            },
            Err(e) => match e {
                Error::SerializationError { message } => spec_opt_string(
                    *payload,
                    "window_label"@,
                ) is None && message@ == "Invalid payload for clear exceptions: "@
                    + spec_field_error("window_label"@, "a string"@),
                Error::WindowNotFound { label } => {
                    &&& spec_opt_string(*payload, "window_label"@) is Some
                    &&& spec_effective_label(
                        spec_opt_string(*payload, "window_label"@)->0,
                        label@,
                    )
                    &&& !registry.spec_has(label@)
                },
                _ => false,
            },
        },
{
    let window_label_req = match opt_string_field(payload, "window_label") {
        Ok(v) => v,
        Err(m) => {
            return Err(Error::serialization_error(clear_decode_error(m)));
        },
    };
    let window_label = match resolve_window(registry, &window_label_req) {
        Ok(l) => l,
        Err(e) => {
            return Err(e);
        },
    };
    let mut fields: Vec<(String, Value)> = Vec::new();
    fields.push(
        (String::from_str("message"), Value::Str(String::from_str("Exceptions cleared"))),
    );
    let ok_data = Value::Obj(fields);
    Ok(
        Step::Notify(
            NotifyPlan {
                window_label,
                topic: String::from_str("clear-exceptions"),
                payload: Value::Null,
                ok_data,
                operation: String::from_str("Failed to emit clear event"),
            },
        ),
    )
}

fn injection_decode_error(m: String) -> (r: String)
    ensures
        r@ == "Invalid payload for error tracker injection: "@ + m@,
{
    let mut s = String::from_str("Invalid payload for error tracker injection: ");
    s.append(m.as_str());
    s
}

fn clear_decode_error(m: String) -> (r: String)
    ensures
        r@ == "Invalid payload for clear exceptions: "@ + m@,
{
    let mut s = String::from_str("Invalid payload for clear exceptions: ");
    s.append(m.as_str());
    s
}

/// Whether an exception passes the kind filter: no filter and the literal
/// `"all"` admit every kind, otherwise kinds compare case-insensitively.
pub open spec fn spec_type_matches(entry_type: Seq<char>, filter: Option<String>) -> bool {
    match filter {
        None => true,
        Some(f) => lower_of(f@) == "all"@ || lower_of(f@) == lower_of(entry_type),
    }
}

/// Whether an exception's message contains the requested pattern.
pub open spec fn spec_pattern_matches(message: Seq<char>, filter: Option<String>) -> bool {
    match filter {
        None => true,
        Some(p) => is_substring(message, p@),
    }
}

/// Whether an exception's last occurrence lies in the requested window.
pub open spec fn spec_tracker_in_window(ts: u64, start: Option<u64>, end: Option<u64>) -> bool {
    &&& match start {
        Some(s) => ts >= s,
        None => true,
    }
    &&& match end {
        Some(e) => ts <= e,
        None => true,
    }
}

/// Whether the filter selects an exception.
pub open spec fn spec_exception_selected(
    e: ExceptionEntry,
    error_type: Option<String>,
    pattern: Option<String>,
    start: Option<u64>,
    end: Option<u64>,
) -> bool {
    &&& spec_type_matches(e.error_type@, error_type)
    &&& spec_pattern_matches(e.message@, pattern)
    &&& spec_tracker_in_window(e.last_occurrence_ms, start, end)
}

/// The selection predicate of one query, as a function value.
pub open spec fn spec_exception_pred(
    error_type: Option<String>,
    pattern: Option<String>,
    start: Option<u64>,
    end: Option<u64>,
) -> spec_fn(ExceptionEntry) -> bool {
    |e: ExceptionEntry| spec_exception_selected(e, error_type, pattern, start, end)
}

impl ExceptionEntry {
    /// An owned copy of this entry, its stack trace carried by length.
    pub fn duplicate(&self) -> (r: ExceptionEntry)
        ensures
            exception_eq(r, *self),
    {
        let mut stack_trace: Vec<StackFrame> = Vec::new();
        let n = self.stack_trace.len();
        let mut i: usize = 0;
        while i < n
            invariant
                n == self.stack_trace@.len(),
                i <= n,
                stack_trace@.len() == i,
            decreases n - i,
        {
            let f = &self.stack_trace[i];
            stack_trace.push(
                StackFrame {
                    function_name: match &f.function_name {
                        Some(s) => Some(s.clone()),
                        None => None,
                    },
                    file_name: match &f.file_name {
                        Some(s) => Some(s.clone()),
                        None => None,
                    },
                    line_number: f.line_number,
                    column_number: f.column_number,
                    source_mapped_file: match &f.source_mapped_file {
                        Some(s) => Some(s.clone()),
                        None => None,
                    },
                    source_mapped_line: f.source_mapped_line,
                    source_mapped_column: f.source_mapped_column,
                },
            );
            i = i + 1;
        }
        ExceptionEntry {
            id: self.id.clone(),
            error_type: self.error_type.clone(),
            message: self.message.clone(),
            stack_trace,
            first_occurrence_ms: self.first_occurrence_ms,
            last_occurrence_ms: self.last_occurrence_ms,
            frequency: self.frequency,
            error_details: match &self.error_details {
                Some(d) => Some(d.clone()),
                None => None,
            },
        }
    }
}

/// The buffer semantics a well-behaved context implements for
/// `get-exceptions`: the filter selects entries first, `total_count` counts
/// every selected entry, and `limit` caps only how many are returned.
pub fn query_exception_buffer(
    entries: &Vec<ExceptionEntry>,
    error_type: &Option<String>,
    pattern: &Option<String>,
    start_time_ms: Option<u64>,
    end_time_ms: Option<u64>,
    limit: usize,
) -> (r: ErrorTrackerResponse)
    ensures
        ({
            let selected = entries@.filter(
                spec_exception_pred(*error_type, *pattern, start_time_ms, end_time_ms),
            );
            &&& r.total_count == selected.len()
            &&& r.returned_count == r.exceptions@.len()
            &&& r.exceptions@.len() == if selected.len() <= limit {
                selected.len()
            } else {
                limit as nat
            }
            &&& forall|i: int|
                0 <= i < r.exceptions@.len() ==> exception_eq(
                    #[trigger] r.exceptions@[i],
                    selected[i],
                )
        }),
{
    let ghost pred = spec_exception_pred(*error_type, *pattern, start_time_ms, end_time_ms);
    let n = entries.len();
    let mut exceptions: Vec<ExceptionEntry> = Vec::new();
    let mut total: usize = 0;
    let mut i: usize = 0;
    proof {
        assert(entries@.take(0).filter(pred) =~= Seq::<ExceptionEntry>::empty());
    }
    while i < n
        invariant
            pred == spec_exception_pred(*error_type, *pattern, start_time_ms, end_time_ms),
            n == entries@.len(),
            i <= n,
            ({
                let sel = entries@.take(i as int).filter(pred);
                &&& total == sel.len()
                &&& exceptions@.len() == if sel.len() <= limit {
                    sel.len()
                } else {
                    limit as nat
                }
                &&& forall|k: int|
                    0 <= k < exceptions@.len() ==> exception_eq(
                        #[trigger] exceptions@[k],
                        sel[k],
                    )
            }),
        decreases n - i,
    {
        let e = &entries[i];
        let type_ok: bool = match error_type {
            None => true,
            Some(f) => {
                let lf = to_lowercase(f.as_str());
                if str_eq(lf.as_str(), "all") {
                    true
                } else {
                    let le = to_lowercase(e.error_type.as_str());
                    str_eq(lf.as_str(), le.as_str())
                }
            },
        };
        let pattern_ok: bool = match pattern {
            None => true,
            Some(p) => str_contains(e.message.as_str(), p.as_str()),
        };
        let start_ok: bool = match start_time_ms {
            Some(s) => e.last_occurrence_ms >= s,
            None => true,
        };
        let end_ok: bool = match end_time_ms {
            Some(t) => e.last_occurrence_ms <= t,
            None => true,
        };
        let take_it = type_ok && pattern_ok && start_ok && end_ok;
        proof {
            assert(take_it == pred(entries@[i as int]));
            let prefix = entries@.take(i + 1);
            assert(prefix.drop_last() =~= entries@.take(i as int));
            assert(prefix.last() == entries@[i as int]);
            reveal_with_fuel(Seq::filter, 2);
            assert(prefix.filter(pred) =~= entries@.take(i as int).filter(pred) + if pred(
                entries@[i as int],
            ) {
                seq![entries@[i as int]]
            } else {
                Seq::<ExceptionEntry>::empty()
            });
            entries@.take(i as int).lemma_filter_len(pred);
        }
        if take_it {
            total = total + 1;
            if exceptions.len() < limit {
                exceptions.push(e.duplicate());
            }
        }
        i = i + 1;
    }
    proof {
        assert(entries@.take(n as int) =~= entries@);
    }
    let returned_count = exceptions.len();
    ErrorTrackerResponse { exceptions, total_count: total, returned_count }
}

} // verus!
