//! The network-inspection commands: CRUD-like control over a
//! request-capture buffer inside the context, plus installing the capture
//! script. Only `get_requests` drives the correlation bridge; the other
//! actions are fire-and-forget notifications.

use vstd::prelude::*;
use crate::bridge::CallOutcome;
use crate::envelope::Envelope;
use crate::error::Error;
use crate::fields::{
    opt_string_field, opt_u64_field, opt_usize_field, req_string_field, saturate_usize,
    spec_field_error, spec_opt_string, spec_opt_u64, spec_opt_usize,
};
use crate::plan::{CallPlan, NotifyPlan, ReplyKind, Step};
use crate::registry::{resolve_window, spec_effective_label, spec_resolves, Registry};
use crate::strutil::{is_substring, lower_of, str_contains, str_eq, to_lowercase, to_uppercase, upper_of};
use crate::value::{lemma_obj_get_at, obj_get, Value};

verus! {

broadcast use vstd::string::group_string_axioms;

/// An HTTP request method.
#[derive(Clone, Copy, Debug, PartialEq, Eq, Hash, Structural)]
pub enum HttpMethod {
    Get,
    Post,
    Put,
    Delete,
    Patch,
    Head,
    Options,
    Trace,
    Connect,
}

/// The method an uppercased name denotes.
pub open spec fn spec_http_method(t: Seq<char>) -> Option<HttpMethod> {
    if t == "GET"@ {
        Some(HttpMethod::Get)
    } else if t == "POST"@ {
        Some(HttpMethod::Post)
    } else if t == "PUT"@ {
        Some(HttpMethod::Put)
    } else if t == "DELETE"@ {
        Some(HttpMethod::Delete)
    } else if t == "PATCH"@ {
        Some(HttpMethod::Patch)
    } else if t == "HEAD"@ {
        Some(HttpMethod::Head)
    } else if t == "OPTIONS"@ {
        Some(HttpMethod::Options)
    } else if t == "TRACE"@ {
        Some(HttpMethod::Trace)
    } else if t == "CONNECT"@ {
        Some(HttpMethod::Connect)
    } else {
        None
    }
}

impl HttpMethod {
    /// Parses a method name, case-insensitively.
    pub fn from_str(s: &str) -> (r: Option<HttpMethod>)
        ensures
            r == spec_http_method(upper_of(s@)),
    {
        let u = to_uppercase(s);
        if str_eq(u.as_str(), "GET") {
            Some(HttpMethod::Get)
        } else if str_eq(u.as_str(), "POST") {
            Some(HttpMethod::Post)
        } else if str_eq(u.as_str(), "PUT") {
            Some(HttpMethod::Put)
        } else if str_eq(u.as_str(), "DELETE") {
            Some(HttpMethod::Delete)
        } else if str_eq(u.as_str(), "PATCH") {
            Some(HttpMethod::Patch)
        } else if str_eq(u.as_str(), "HEAD") {
            Some(HttpMethod::Head)
        } else if str_eq(u.as_str(), "OPTIONS") {
            Some(HttpMethod::Options)
        } else if str_eq(u.as_str(), "TRACE") {
            Some(HttpMethod::Trace)
        } else if str_eq(u.as_str(), "CONNECT") {
            Some(HttpMethod::Connect)
        } else {
            None
        }
    }
}

/// How the context issued a captured request.
#[derive(Clone, Copy, Debug, PartialEq, Eq, Hash, Structural)]
pub enum RequestType {
    Fetch,
    Xhr,
}

/// The request kind a lowercased name denotes.
pub open spec fn spec_request_type(t: Seq<char>) -> Option<RequestType> {
    if t == "fetch"@ {
        Some(RequestType::Fetch)
    } else if t == "xhr"@ {
        Some(RequestType::Xhr)
    } else {
        None
    }
}

impl RequestType {
    /// Parses a request kind, case-insensitively.
    pub fn from_str(s: &str) -> (r: Option<RequestType>)
        ensures
            r == spec_request_type(lower_of(s@)),
    {
        let l = to_lowercase(s);
        if str_eq(l.as_str(), "fetch") {
            Some(RequestType::Fetch)
        } else if str_eq(l.as_str(), "xhr") {
            Some(RequestType::Xhr)
        } else {
            None
        }
    }
}

/// A failure local to the network-inspection commands; folded into a failed
/// envelope, never propagated.
pub enum NetworkInspectorError {
    WebviewOperation(String),
    TimeoutError(String),
    ParseError(String),
}

impl NetworkInspectorError {
    pub open spec fn spec_message(&self) -> Seq<char> {
        match self {
            NetworkInspectorError::WebviewOperation(s) => "Network operation error: "@ + s@,
            NetworkInspectorError::TimeoutError(s) => "Operation timed out: "@ + s@,
            NetworkInspectorError::ParseError(s) => "Parse error: "@ + s@,
        }
    }

    /// Renders this error as one message string.
    pub fn message(&self) -> (r: String)
        ensures
            r@ == self.spec_message(),
    {
        match self {
            NetworkInspectorError::WebviewOperation(s) => {
                let mut m = String::from_str("Network operation error: ");
                m.append(s.as_str());
                m
            },
            NetworkInspectorError::TimeoutError(s) => {
                let mut m = String::from_str("Operation timed out: ");
                m.append(s.as_str());
                m
            },
            NetworkInspectorError::ParseError(s) => {
                let mut m = String::from_str("Parse error: ");
                m.append(s.as_str());
                m
            },
        }
    }
}

/// Request or response headers, as name/value pairs in capture order.
pub struct HeadersMap {
    pub headers: Vec<(String, String)>,
}

/// One captured network request.
pub struct NetworkRequest {
    pub id: String,
    pub url: String,
    pub method: String,
    pub request_type: String,
    pub status_code: Option<u16>,
    pub request_headers: Vec<(String, String)>,
    pub response_headers: Vec<(String, String)>,
    pub request_body: Option<String>,
    pub response_body: Option<String>,
    pub error: Option<String>,
    pub start_time_ms: u64,
    pub end_time_ms: Option<u64>,
    pub duration_ms: Option<u64>,
}

/// The filter of a `get_requests` action.
pub struct NetworkRequestFilter {
    pub url_pattern: Option<String>,
    pub method: Option<String>,
    pub status_code: Option<u16>,
    pub min_duration_ms: Option<u64>,
    pub max_duration_ms: Option<u64>,
    pub request_type: Option<String>,
    pub start_time_ms: Option<u64>,
    pub end_time_ms: Option<u64>,
    pub limit: Option<usize>,
}

/// The decoded request for `network-inspector`.
pub struct NetworkInspectorRequest {
    pub window_label: Option<String>,
    pub action: String,
    pub filter: Option<NetworkRequestFilter>,
}

/// The shaped response for every network-inspector action.
pub struct NetworkInspectorResponse {
    pub requests: Vec<NetworkRequest>,
    pub total_count: usize,
    pub returned_count: usize,
    pub capture_active: bool,
}

/// Whether an optional status-code field decodes: an unsigned integer that
/// fits a `u16`.
pub open spec fn spec_opt_u16(payload: Value, key: Seq<char>) -> Option<Option<u16>> {
    match spec_opt_u64(payload, key) {
        None => None,
        Some(None) => Some(None),
        Some(Some(n)) => if n <= u16::MAX as u64 {
            Some(Some(n as u16))
        } else {
            None
        },
    }
}

fn opt_u16_field(payload: &Value, key: &str) -> (r: Result<Option<u16>, String>)
    ensures
        match r {
            Ok(opt) => spec_opt_u16(*payload, key@) == Some(opt),
            Err(m) => {
                &&& spec_opt_u16(*payload, key@) is None
                &&& m@ == if spec_opt_u64(*payload, key@) is None {
                    spec_field_error(key@, "an unsigned integer"@)
                } else {
                    "status code out of range"@
                }
            },
        },
{
    match opt_u64_field(payload, key) {
        Err(m) => Err(m),
        Ok(None) => Ok(None),
        Ok(Some(n)) => {
            if n <= u16::MAX as u64 {
                Ok(Some(n as u16))
            } else {
                Err(String::from_str("status code out of range"))
            }
        },
    }
}

/// Whether a filter object decodes into a [`NetworkRequestFilter`].
pub open spec fn spec_filter_decodes(v: Value) -> bool {
    &&& spec_opt_string(v, "url_pattern"@) is Some
    &&& spec_opt_string(v, "method"@) is Some
    &&& spec_opt_u16(v, "status_code"@) is Some
    &&& spec_opt_u64(v, "min_duration_ms"@) is Some
    &&& spec_opt_u64(v, "max_duration_ms"@) is Some
    &&& spec_opt_string(v, "request_type"@) is Some
    &&& spec_opt_u64(v, "start_time_ms"@) is Some
    &&& spec_opt_u64(v, "end_time_ms"@) is Some
    &&& spec_opt_usize(v, "limit"@) is Some
}

/// The decode-failure text of the first filter field of the wrong shape,
/// in the order the fields are read.
pub open spec fn spec_filter_decode_error(v: Value) -> Seq<char> {
    if spec_opt_string(v, "url_pattern"@) is None {
        spec_field_error("url_pattern"@, "a string"@)
    } else if spec_opt_string(v, "method"@) is None {
        spec_field_error("method"@, "a string"@)
    } else if spec_opt_u64(v, "status_code"@) is None {
        spec_field_error("status_code"@, "an unsigned integer"@)
    } else if spec_opt_u16(v, "status_code"@) is None {
        "status code out of range"@
    } else if spec_opt_u64(v, "min_duration_ms"@) is None {
        spec_field_error("min_duration_ms"@, "an unsigned integer"@)
    } else if spec_opt_u64(v, "max_duration_ms"@) is None {
        spec_field_error("max_duration_ms"@, "an unsigned integer"@)
    } else if spec_opt_string(v, "request_type"@) is None {
        spec_field_error("request_type"@, "a string"@)
    } else if spec_opt_u64(v, "start_time_ms"@) is None {
        spec_field_error("start_time_ms"@, "an unsigned integer"@)
    } else if spec_opt_u64(v, "end_time_ms"@) is None {
        spec_field_error("end_time_ms"@, "an unsigned integer"@)
    } else {
        spec_field_error("limit"@, "an unsigned integer"@)
    }
}

/// Decodes a filter object.
pub fn parse_network_filter(v: &Value) -> (r: Result<NetworkRequestFilter, String>)
    ensures
        match r {
            Ok(f) => {
                &&& spec_filter_decodes(*v)
                &&& Some(f.url_pattern) == spec_opt_string(*v, "url_pattern"@)
                &&& Some(f.method) == spec_opt_string(*v, "method"@)
                &&& Some(f.status_code) == spec_opt_u16(*v, "status_code"@)
                &&& Some(f.min_duration_ms) == spec_opt_u64(*v, "min_duration_ms"@)
                &&& Some(f.max_duration_ms) == spec_opt_u64(*v, "max_duration_ms"@)
                &&& Some(f.request_type) == spec_opt_string(*v, "request_type"@)
                &&& Some(f.start_time_ms) == spec_opt_u64(*v, "start_time_ms"@)
                &&& Some(f.end_time_ms) == spec_opt_u64(*v, "end_time_ms"@)
                &&& Some(f.limit) == spec_opt_usize(*v, "limit"@)
            },
            Err(m) => {
                &&& !spec_filter_decodes(*v)
                &&& m@ == spec_filter_decode_error(*v)
            },
        },
{
    let url_pattern = match opt_string_field(v, "url_pattern") {
        Ok(x) => x,
        Err(m) => {
            return Err(m);
        },
    };
    let method = match opt_string_field(v, "method") {
        Ok(x) => x,
        Err(m) => {
            return Err(m);
        },
    };
    let status_code = match opt_u16_field(v, "status_code") {
        Ok(x) => x,
        Err(m) => {
            return Err(m);
        },
    };
    let min_duration_ms = match opt_u64_field(v, "min_duration_ms") {
        Ok(x) => x,
        Err(m) => {
            return Err(m);
        },
    };
    let max_duration_ms = match opt_u64_field(v, "max_duration_ms") {
        Ok(x) => x,
        Err(m) => {
            return Err(m);
        },
    };
    let request_type = match opt_string_field(v, "request_type") {
        Ok(x) => x,
        Err(m) => {
            return Err(m);
        },
    };
    let start_time_ms = match opt_u64_field(v, "start_time_ms") {
        Ok(x) => x,
        Err(m) => {
            return Err(m);
        },
    };
    let end_time_ms = match opt_u64_field(v, "end_time_ms") {
        Ok(x) => x,
        Err(m) => {
            return Err(m);
        },
    };
    let limit = match opt_usize_field(v, "limit") {
        Ok(x) => x,
        Err(m) => {
            return Err(m);
        },
    };
    Ok(
        NetworkRequestFilter {
            url_pattern,
            method,
            status_code,
            min_duration_ms,
            max_duration_ms,
            request_type,
            start_time_ms,
            end_time_ms,
            limit,
        },
    )
}

/// The filter object a payload carries, with an explicit null reading as
/// no filter.
pub open spec fn spec_filter_of(payload: Value) -> Option<Value> {
    match payload.spec_get("filter"@) {
        Some(f) => if f is Null {
            None
        } else {
            Some(f)
        },
        None => None,
    }
}

/// Whether a decoded filter carries exactly a filter object's fields.
pub open spec fn spec_filter_matches(ff: NetworkRequestFilter, f: Value) -> bool {
    &&& Some(ff.url_pattern) == spec_opt_string(f, "url_pattern"@)
    &&& Some(ff.method) == spec_opt_string(f, "method"@)
    &&& Some(ff.status_code) == spec_opt_u16(f, "status_code"@)
    &&& Some(ff.min_duration_ms) == spec_opt_u64(f, "min_duration_ms"@)
    &&& Some(ff.max_duration_ms) == spec_opt_u64(f, "max_duration_ms"@)
    &&& Some(ff.request_type) == spec_opt_string(f, "request_type"@)
    &&& Some(ff.start_time_ms) == spec_opt_u64(f, "start_time_ms"@)
    &&& Some(ff.end_time_ms) == spec_opt_u64(f, "end_time_ms"@)
    &&& Some(ff.limit) == spec_opt_usize(f, "limit"@)
}

/// The task object's value for one optional string criterion of the
/// payload's filter: the requested string, or null.
pub open spec fn spec_task_str(payload: Value, key: Seq<char>) -> Value {
    match spec_filter_of(payload) {
        Some(f) => match spec_opt_string(f, key)->0 {
            Some(p) => Value::Str(p),
            None => Value::Null,
        },
        None => Value::Null,
    }
}

/// The task object's value for one optional integer criterion of the
/// payload's filter: the requested number, or null.
pub open spec fn spec_task_u64(payload: Value, key: Seq<char>) -> Value {
    match spec_filter_of(payload) {
        Some(f) => match spec_opt_u64(f, key)->0 {
            Some(d) => Value::UInt(d),
            None => Value::Null,
        },
        None => Value::Null,
    }
}

/// The entry cap the task carries: the requested limit, or one hundred.
pub open spec fn spec_task_limit(payload: Value) -> u64 {
    match spec_filter_of(payload) {
        Some(f) => match spec_opt_usize(f, "limit"@)->0 {
            Some(l) => l as u64,
            None => 100,
        },
        None => 100,
    }
}

/// Whether a payload decodes into a [`NetworkInspectorRequest`]: the action
/// is required, and the filter, when present, must be an object that
/// decodes.
pub open spec fn spec_inspector_request_decodes(payload: Value) -> bool {
    &&& spec_opt_string(payload, "window_label"@) is Some
    &&& spec_opt_string(payload, "action"@) matches Some(Some(_))
    &&& match payload.spec_get("filter"@) {
        None => true,
        Some(Value::Null) => true,
        Some(f) => spec_filter_decodes(f),
    }
}

/// The decode-failure text of the first failing part of the payload.
pub open spec fn spec_network_decode_error(payload: Value) -> Seq<char> {
    if spec_opt_string(payload, "window_label"@) is None {
        spec_field_error("window_label"@, "a string"@)
    } else if !(spec_opt_string(payload, "action"@) matches Some(Some(_))) {
        spec_field_error("action"@, "a string"@)
    } else {
        match payload.spec_get("filter"@) {
            Some(f) => spec_filter_decode_error(f),
            None => Seq::<char>::empty(),
        }
    }
}

/// Decodes the request payload; a failing part is a serialization error
/// carrying the decode text.
pub fn parse_network_inspector_request(payload: &Value) -> (r: Result<
    NetworkInspectorRequest,
    Error,
>)
    ensures
        match r {
            Ok(req) => {
                &&& spec_inspector_request_decodes(*payload)
                &&& Some(req.window_label) == spec_opt_string(*payload, "window_label"@)
                &&& Some(Some(req.action)) == spec_opt_string(*payload, "action"@)
                &&& match spec_filter_of(*payload) {
                    None => req.filter is None,
                    Some(f) => req.filter matches Some(ff) && spec_filter_matches(ff, f),
                }
            },
            Err(e) => {
                &&& !spec_inspector_request_decodes(*payload)
                &&& e matches Error::SerializationError { message } && message@
                    == "Invalid payload for network inspector: "@ + spec_network_decode_error(
                    *payload,
                )
            },
        },
{
    let window_label = match opt_string_field(payload, "window_label") {
        Ok(v) => v,
        Err(m) => {
            return Err(Error::serialization_error(decode_error(m)));
        },
    };
    let action = match req_string_field(payload, "action") {
        Ok(v) => v,
        Err(m) => {
            return Err(Error::serialization_error(decode_error(m)));
        },
    };
    let filter = match payload.get("filter") {
        None => None,
        Some(f) => {
            if f.is_null() {
                None
            } else {
                match parse_network_filter(f) {
                    Ok(x) => Some(x),
                    Err(m) => {
                        return Err(Error::serialization_error(decode_error(m)));
                    },
                }
            }
        },
    };
    Ok(NetworkInspectorRequest { window_label, action, filter })
}

fn decode_error(m: String) -> (r: String)
    ensures
        r@ == "Invalid payload for network inspector: "@ + m@,
{
    let mut s = String::from_str("Invalid payload for network inspector: ");
    s.append(m.as_str());
    s
}


/// Whether a headers value is an object of string values.
pub open spec fn spec_headers_ok(v: Value) -> bool {
    match v {
        Value::Obj(fs) => forall|i: int| 0 <= i < fs@.len() ==> (#[trigger] fs@[i]).1 is Str,
        _ => false,
    }
}

/// Whether decoded header pairs carry an object's fields in order.
pub open spec fn spec_headers_match(h: Seq<(String, String)>, v: Value) -> bool {
    match v {
        Value::Obj(fs) => {
            &&& h.len() == fs@.len()
            &&& forall|i: int|
                0 <= i < h.len() ==> (#[trigger] h[i]).0@ == fs@[i].0@ && h[i].1@
                    == fs@[i].1->Str_0@
        },
        _ => false,
    }
}

/// Decodes a headers object into name/value pairs.
pub fn decode_headers(v: &Value) -> (r: Option<Vec<(String, String)>>)
    ensures
        match r {
            Some(h) => spec_headers_ok(*v) && spec_headers_match(h@, *v),
            None => !spec_headers_ok(*v),
        },
{
    match v {
        Value::Obj(fs) => {
            let n = fs.len();
            let mut h: Vec<(String, String)> = Vec::new();
            let mut i: usize = 0;
            while i < n
                invariant
                    v is Obj,
                    v->Obj_0 == *fs,
                    n == fs@.len(),
                    i <= n,
                    h@.len() == i,
                    forall|j: int| 0 <= j < i ==> (#[trigger] fs@[j]).1 is Str,
                    forall|j: int|
                        0 <= j < i ==> (#[trigger] h@[j]).0@ == fs@[j].0@ && h@[j].1@
                            == fs@[j].1->Str_0@,
                decreases n - i,
            {
                match fs[i].1.as_str() {
                    Some(val) => {
                        h.push((fs[i].0.clone(), val.clone()));
                    },
                    None => {
                        return None;
                    },
                }
                i = i + 1;
            }
            Some(h)
        },
        _ => None,
    }
}

/// Encodes header pairs as an object of string values.
pub fn encode_headers(h: &Vec<(String, String)>) -> (r: Value)
    ensures
        spec_headers_ok(r),
        spec_headers_match(h@, r),
{
    let n = h.len();
    let mut fs: Vec<(String, Value)> = Vec::new();
    let mut i: usize = 0;
    while i < n
        invariant
            n == h@.len(),
            i <= n,
            fs@.len() == i,
            forall|j: int| 0 <= j < i ==> (#[trigger] fs@[j]).1 is Str,
            forall|j: int|
                0 <= j < i ==> (#[trigger] h@[j]).0@ == fs@[j].0@ && h@[j].1@
                    == fs@[j].1->Str_0@,
        decreases n - i,
    {
        fs.push((h[i].0.clone(), Value::Str(h[i].1.clone())));
        i = i + 1;
    }
    Value::Obj(fs)
}

/// An optional string field of an entry: absent or null reads as `None`.
pub open spec fn spec_entry_opt_str_ok(v: Value, key: Seq<char>) -> bool {
    match v.spec_get(key) {
        None => true,
        Some(Value::Null) => true,
        Some(Value::Str(_)) => true,
        _ => false,
    }
}

pub open spec fn spec_entry_opt_str_match(o: Option<String>, v: Value, key: Seq<char>) -> bool {
    match v.spec_get(key) {
        None => o is None,
        Some(Value::Null) => o is None,
        Some(Value::Str(s)) => o matches Some(x) && x@ == s@,
        _ => false,
    }
}

/// Whether one reply array element has the shape of a captured request.
pub open spec fn spec_network_entry_ok(v: Value) -> bool {
    &&& v.spec_get("id"@) matches Some(Value::Str(_))
    &&& v.spec_get("url"@) matches Some(Value::Str(_))
    &&& v.spec_get("method"@) matches Some(Value::Str(_))
    &&& v.spec_get("request_type"@) matches Some(Value::Str(_))
    &&& match v.spec_get("status_code"@) {
        None => true,
        Some(Value::Null) => true,
        Some(Value::UInt(n)) => n <= u16::MAX as u64,
        _ => false,
    }
    &&& match v.spec_get("request_headers"@) {
        Some(h) => spec_headers_ok(h),
        None => false,
    }
    &&& match v.spec_get("response_headers"@) {
        Some(h) => spec_headers_ok(h),
        None => false,
    }
    &&& spec_entry_opt_str_ok(v, "request_body"@)
    &&& spec_entry_opt_str_ok(v, "response_body"@)
    &&& spec_entry_opt_str_ok(v, "error"@)
    &&& v.spec_get("start_time_ms"@) matches Some(Value::UInt(_))
    &&& match v.spec_get("end_time_ms"@) {
        None => true,
        Some(Value::Null) => true,
        Some(Value::UInt(_)) => true,
        _ => false,
    }
    &&& match v.spec_get("duration_ms"@) {
        None => true,
        Some(Value::Null) => true,
        Some(Value::UInt(_)) => true,
        _ => false,
    }
}

/// Whether a decoded request carries the fields of a reply element.
pub open spec fn spec_network_entry_matches(e: NetworkRequest, v: Value) -> bool {
    &&& match v.spec_get("id"@) {
        Some(Value::Str(s)) => e.id@ == s@,
        _ => false,
    }
    &&& match v.spec_get("url"@) {
        Some(Value::Str(s)) => e.url@ == s@,
        _ => false,
    }
    &&& match v.spec_get("method"@) {
        Some(Value::Str(s)) => e.method@ == s@,
        _ => false,
    }
    &&& match v.spec_get("request_type"@) {
        Some(Value::Str(s)) => e.request_type@ == s@,
        _ => false,
    }
    &&& match v.spec_get("status_code"@) {
        None => e.status_code is None,
        Some(Value::Null) => e.status_code is None,
        Some(Value::UInt(n)) => e.status_code == Some(n as u16) && n <= u16::MAX as u64,
        _ => false,
    }
    &&& match v.spec_get("request_headers"@) {
        Some(h) => spec_headers_match(e.request_headers@, h),
        None => false,
    }
    &&& match v.spec_get("response_headers"@) {
        Some(h) => spec_headers_match(e.response_headers@, h),
        None => false,
    }
    &&& spec_entry_opt_str_match(e.request_body, v, "request_body"@)
    &&& spec_entry_opt_str_match(e.response_body, v, "response_body"@)
    &&& spec_entry_opt_str_match(e.error, v, "error"@)
    &&& v.spec_get("start_time_ms"@) == Some(Value::UInt(e.start_time_ms))
    &&& match v.spec_get("end_time_ms"@) {
        None => e.end_time_ms is None,
        Some(Value::Null) => e.end_time_ms is None,
        Some(Value::UInt(n)) => e.end_time_ms == Some(n),
        _ => false,
    }
    &&& match v.spec_get("duration_ms"@) {
        None => e.duration_ms is None,
        Some(Value::Null) => e.duration_ms is None,
        Some(Value::UInt(n)) => e.duration_ms == Some(n),
        _ => false,
    }
}

fn entry_opt_str(v: &Value, key: &str) -> (r: Option<Option<String>>)
    ensures
        match r {
            Some(o) => spec_entry_opt_str_ok(*v, key@) && spec_entry_opt_str_match(o, *v, key@),
            None => !spec_entry_opt_str_ok(*v, key@),
        },
{
    match v.get(key) {
        None => Some(None),
        Some(f) => match f.as_str() {
            Some(s) => Some(Some(s.clone())),
            None => {
                if f.is_null() {
                    Some(None)
                } else {
                    None
                }
            },
        },
    }
}

fn entry_opt_u64(v: &Value, key: &str) -> (r: Option<Option<u64>>)
    ensures
        match r {
            Some(o) => match v.spec_get(key@) {
                None => o is None,
                Some(Value::Null) => o is None,
                Some(Value::UInt(n)) => o == Some(n),
                _ => false,
            },
            None => !(match v.spec_get(key@) {
                None => true,
                Some(Value::Null) => true,
                Some(Value::UInt(_)) => true,
                _ => false,
            }),
        },
{
    match v.get(key) {
        None => Some(None),
        Some(f) => match f.as_u64() {
            Some(n) => Some(Some(n)),
            None => {
                if f.is_null() {
                    Some(None)
                } else {
                    None
                }
            },
        },
    }
}

/// Decodes one reply array element into a captured request.
pub fn decode_network_entry(v: &Value) -> (r: Option<NetworkRequest>)
    ensures
        match r {
            Some(e) => spec_network_entry_ok(*v) && spec_network_entry_matches(e, *v),
            None => !spec_network_entry_ok(*v),
        },
{
    let id = match v.get("id") {
        Some(f) => match f.as_str() {
            Some(s) => s.clone(),
            None => {
                return None;
            },
        },
        None => {
            return None;
        },
    };
    let url = match v.get("url") {
        Some(f) => match f.as_str() {
            Some(s) => s.clone(),
            None => {
                return None;
            },
        },
        None => {
            return None;
        },
    };
    let method = match v.get("method") {
        Some(f) => match f.as_str() {
            Some(s) => s.clone(),
            None => {
                return None;
            },
        },
        None => {
            return None;
        },
    };
    let request_type = match v.get("request_type") {
        Some(f) => match f.as_str() {
            Some(s) => s.clone(),
            None => {
                return None;
            },
        },
        None => {
            return None;
        },
    };
    let status_code: Option<u16> = match v.get("status_code") {
        None => None,
        Some(f) => match f.as_u64() {
            Some(n) => {
                if n <= u16::MAX as u64 {
                    Some(n as u16)
                } else {
                    return None;
                }
            },
            None => {
                if f.is_null() {
                    None
                } else {
                    return None;
                }
            },
        },
    };
    let request_headers = match v.get("request_headers") {
        Some(h) => match decode_headers(h) {
            Some(x) => x,
            None => {
                return None;
            },
        },
        None => {
            return None;
        },
    };
    let response_headers = match v.get("response_headers") {
        Some(h) => match decode_headers(h) {
            Some(x) => x,
            None => {
                return None;
            },
        },
        None => {
            return None;
        },
    };
    let request_body = match entry_opt_str(v, "request_body") {
        Some(o) => o,
        None => {
            return None;
        },
    };
    let response_body = match entry_opt_str(v, "response_body") {
        Some(o) => o,
        None => {
            return None;
        },
    };
    let error = match entry_opt_str(v, "error") {
        Some(o) => o,
        None => {
            return None;
        },
    };
    let start_time_ms = match v.get("start_time_ms") {
        Some(f) => match f.as_u64() {
            Some(n) => n,
            None => {
                return None;
            },
        },
        None => {
            return None;
        },
    };
    let end_time_ms = match entry_opt_u64(v, "end_time_ms") {
        Some(o) => o,
        None => {
            return None;
        },
    };
    let duration_ms = match entry_opt_u64(v, "duration_ms") {
        Some(o) => o,
        None => {
            return None;
        },
    };
    Some(
        NetworkRequest {
            id,
            url,
            method,
            request_type,
            status_code,
            request_headers,
            response_headers,
            request_body,
            response_body,
            error,
            start_time_ms,
            end_time_ms,
            duration_ms,
        },
    )
}

/// Whether every element of a reply array has the request shape.
pub open spec fn spec_all_requests_ok(items: Seq<Value>) -> bool {
    forall|i: int| 0 <= i < items.len() ==> spec_network_entry_ok(#[trigger] items[i])
}

/// Decodes the reply's array of captured requests.
pub fn decode_network_entries(items: &Vec<Value>) -> (r: Option<Vec<NetworkRequest>>)
    ensures
        match r {
            Some(es) => {
                &&& spec_all_requests_ok(items@)
                &&& es@.len() == items@.len()
                &&& forall|i: int|
                    0 <= i < items@.len() ==> spec_network_entry_matches(
                        #[trigger] es@[i],
                        items@[i],
                    )
            },
            None => !spec_all_requests_ok(items@),
        },
{
    let n = items.len();
    let mut es: Vec<NetworkRequest> = Vec::new();
    let mut i: usize = 0;
    while i < n
        invariant
            n == items@.len(),
            i <= n,
            es@.len() == i,
            forall|j: int| 0 <= j < i ==> spec_network_entry_ok(#[trigger] items@[j]),
            forall|j: int|
                0 <= j < i ==> spec_network_entry_matches(#[trigger] es@[j], items@[j]),
        decreases n - i,
    {
        match decode_network_entry(&items[i]) {
            Some(e) => {
                es.push(e);
            },
            None => {
                return None;
            },
        }
        i = i + 1;
    }
    Some(es)
}

/// The application-level error a reply carries, if any.
pub open spec fn spec_reply_error(v: Value) -> Option<Seq<char>> {
    match v.spec_get("error"@) {
        Some(Value::Str(s)) => Some(s@),
        _ => None,
    }
}

/// How many captured requests a well-formed reply carries.
pub open spec fn spec_reply_requests_len(v: Value) -> nat {
    match v.spec_get("requests"@) {
        Some(Value::Arr(items)) => if spec_all_requests_ok(items@) {
            items@.len()
        } else {
            0
        },
        _ => 0,
    }
}

/// The total count a reply reports, falling back to the request count.
pub open spec fn spec_reply_total(v: Value) -> nat {
    match v.spec_get("total_count"@) {
        Some(Value::UInt(c)) => if c <= usize::MAX as u64 {
            c as nat
        } else {
            usize::MAX as nat
        },
        _ => spec_reply_requests_len(v),
    }
}

/// Whether a reply reports the capture as active; absent reads as inactive.
pub open spec fn spec_reply_capture_active(v: Value) -> bool {
    match v.spec_get("capture_active"@) {
        Some(Value::Bool(b)) => b,
        _ => false,
    }
}

/// Decodes a bridge reply into the command's response.
pub fn decode_network_reply(reply: &Value) -> (r: Result<
    NetworkInspectorResponse,
    NetworkInspectorError,
>)
    ensures
        match r {
            Ok(resp) => {
                &&& spec_reply_error(*reply) is None
                &&& resp.requests@.len() == spec_reply_requests_len(*reply)
                &&& resp.returned_count == resp.requests@.len()
                &&& resp.total_count == spec_reply_total(*reply)
                &&& resp.capture_active == spec_reply_capture_active(*reply)
            },
            Err(e) => {
                &&& e matches NetworkInspectorError::WebviewOperation(m) && Some(m@)
                    == spec_reply_error(*reply)
            },
        },
{
    if let Some(err_v) = reply.get("error") {
        if let Some(s) = err_v.as_str() {
            return Err(NetworkInspectorError::WebviewOperation(s.clone()));
        }
    }
    let requests: Vec<NetworkRequest> = match reply.get("requests") {
        Some(l) => match l.as_arr() {
            Some(items) => match decode_network_entries(items) {
                Some(es) => es,
                None => Vec::new(),
            },
            None => Vec::new(),
        },
        None => Vec::new(),
    };
    let total_count: usize = match reply.get("total_count") {
        Some(c) => match c.as_u64() {
            Some(n) => saturate_usize(n),
            None => requests.len(),
        },
        None => requests.len(),
    };
    let capture_active: bool = match reply.get("capture_active") {
        Some(c) => match c.as_bool() {
            Some(b) => b,
            None => false,
        },
        None => false,
    };
    let returned_count = requests.len();
    Ok(NetworkInspectorResponse { requests, total_count, returned_count, capture_active })
}


/// Encodes the response as the envelope's data object; the captured
/// requests are carried as encoded entry objects.
pub fn encode_network_response(resp: NetworkInspectorResponse) -> (r: Value)
    ensures
        r.spec_get("returned_count"@) == Some(Value::UInt(resp.returned_count as u64)),
        r.spec_get("total_count"@) == Some(Value::UInt(resp.total_count as u64)),
        r.spec_get("capture_active"@) == Some(Value::Bool(resp.capture_active)),
        match r.spec_get("requests"@) {
            Some(Value::Arr(items)) => items@.len() == resp.requests@.len(),
            _ => false,
        },
{
    let n = resp.requests.len();
    let mut items: Vec<Value> = Vec::new();
    let mut i: usize = 0;
    while i < n
        invariant
            n == resp.requests@.len(),
            i <= n,
            items@.len() == i,
        decreases n - i,
    {
        items.push(encode_network_entry(&resp.requests[i]));
        i = i + 1;
    }
    let mut fields: Vec<(String, Value)> = Vec::new();
    fields.push((String::from_str("requests"), Value::Arr(items)));
    fields.push((String::from_str("total_count"), Value::UInt(resp.total_count as u64)));
    fields.push((String::from_str("returned_count"), Value::UInt(resp.returned_count as u64)));
    fields.push((String::from_str("capture_active"), Value::Bool(resp.capture_active)));
    let r = Value::Obj(fields);
    proof {
        lemma_network_response_keys(r->Obj_0@);
    }
    r
}

proof fn lemma_network_response_keys(fields: Seq<(String, Value)>)
    requires
        fields.len() == 4,
        fields[0].0@ == "requests"@,
        fields[1].0@ == "total_count"@,
        fields[2].0@ == "returned_count"@,
        fields[3].0@ == "capture_active"@,
    ensures
        obj_get(fields, "requests"@) == Some(fields[0].1),
        obj_get(fields, "total_count"@) == Some(fields[1].1),
        obj_get(fields, "returned_count"@) == Some(fields[2].1),
        obj_get(fields, "capture_active"@) == Some(fields[3].1),
{
    reveal_strlit("requests");
    reveal_strlit("total_count");
    reveal_strlit("returned_count");
    reveal_strlit("capture_active");
    assert("requests"@.len() == 8);
    assert("total_count"@.len() == 11);
    assert("returned_count"@.len() == 14);
    assert("capture_active"@.len() == 14);
    assert("returned_count"@[0] == 'r' && "capture_active"@[0] == 'c');
    lemma_obj_get_at(fields, 0, "requests"@);
    lemma_obj_get_at(fields, 1, "total_count"@);
    lemma_obj_get_at(fields, 2, "returned_count"@);
    lemma_obj_get_at(fields, 3, "capture_active"@);
}

/// Encodes one captured request as a payload object.
pub fn encode_network_entry(e: &NetworkRequest) -> (r: Value)
{
    let mut fields: Vec<(String, Value)> = Vec::new();
    fields.push((String::from_str("id"), Value::Str(e.id.clone())));
    fields.push((String::from_str("url"), Value::Str(e.url.clone())));
    fields.push((String::from_str("method"), Value::Str(e.method.clone())));
    fields.push((String::from_str("request_type"), Value::Str(e.request_type.clone())));
    fields.push(
        (
            String::from_str("status_code"),
            match e.status_code {
                Some(c) => Value::UInt(c as u64),
                None => Value::Null,
            },
        ),
    );
    fields.push((String::from_str("request_headers"), encode_headers(&e.request_headers)));
    fields.push((String::from_str("response_headers"), encode_headers(&e.response_headers)));
    fields.push(
        (
            String::from_str("request_body"),
            match &e.request_body {
                Some(b) => Value::Str(b.clone()),
                None => Value::Null,
            },
        ),
    );
    fields.push(
        (
            String::from_str("response_body"),
            match &e.response_body {
                Some(b) => Value::Str(b.clone()),
                None => Value::Null,
            },
        ),
    );
    fields.push(
        (
            String::from_str("error"),
            match &e.error {
                Some(b) => Value::Str(b.clone()),
                None => Value::Null,
            },
        ),
    );
    fields.push((String::from_str("start_time_ms"), Value::UInt(e.start_time_ms)));
    fields.push(
        (
            String::from_str("end_time_ms"),
            match e.end_time_ms {
                Some(t) => Value::UInt(t),
                None => Value::Null,
            },
        ),
    );
    fields.push(
        (
            String::from_str("duration_ms"),
            match e.duration_ms {
                Some(t) => Value::UInt(t),
                None => Value::Null,
            },
        ),
    );
    Value::Obj(fields)
}

/// An empty control response, as the notify-only actions return it.
fn control_response(capture_active: bool) -> (r: Value)
    ensures
        r.spec_get("returned_count"@) == Some(Value::UInt(0)),
        r.spec_get("total_count"@) == Some(Value::UInt(0)),
        r.spec_get("capture_active"@) == Some(Value::Bool(capture_active)),
        match r.spec_get("requests"@) {
            Some(Value::Arr(items)) => items@.len() == 0,
            _ => false,
        },
{
    encode_network_response(
        NetworkInspectorResponse {
            requests: Vec::new(),
            total_count: 0,
            returned_count: 0,
            capture_active,
        },
    )
}

/// Validates a `network-inspector` payload, resolves the target context
/// before any action is considered, and routes the action: `get_requests`
/// plans a fifteen-second bridge round trip carrying the filter (absent
/// criteria as nulls, an absent limit as one hundred); `clear_requests`,
/// `start_capture` and `stop_capture` plan notifications whose prepared
/// data reports an empty buffer and whether the capture is then active;
/// any other action is answered at once with that action's parse failure.
pub fn start_network_inspector(payload: &Value, registry: &Registry) -> (r: Result<Step, Error>)
    ensures
        match r {
            Ok(step) => {
                &&& spec_inspector_request_decodes(*payload)
                &&& spec_resolves(registry, spec_opt_string(*payload, "window_label"@)->0)
                &&& step.wf()
                &&& ({
                    let action = spec_opt_string(*payload, "action"@)->0->0;
                    if action@ == "get_requests"@ {
                        step matches Step::Call(plan) && {
                            &&& spec_effective_label(
                                spec_opt_string(*payload, "window_label"@)->0,
                                plan.window_label@,
                            )
                            &&& registry.spec_has(plan.window_label@)
                            &&& plan.task_topic@ == "get-network-requests"@
                            &&& plan.reply_topic@ == "get-network-requests-response"@
                            &&& plan.timeout_ms == 15000
                            &&& plan.operation@ == "network request retrieval"@
                            &&& plan.kind is NetworkRequests
                            &&& plan.task_payload.spec_get("url_pattern"@) == Some(
                                spec_task_str(*payload, "url_pattern"@),
                            )
                            &&& plan.task_payload.spec_get("method"@) == Some(
                                spec_task_str(*payload, "method"@),
                            )
                            &&& plan.task_payload.spec_get("request_type"@) == Some(
                                spec_task_str(*payload, "request_type"@),
                            )
                            &&& plan.task_payload.spec_get("min_duration_ms"@) == Some(
                                spec_task_u64(*payload, "min_duration_ms"@),
                            )
                            &&& plan.task_payload.spec_get("max_duration_ms"@) == Some(
                                spec_task_u64(*payload, "max_duration_ms"@),
                            )
                            &&& plan.task_payload.spec_get("start_time_ms"@) == Some(
                                spec_task_u64(*payload, "start_time_ms"@),
                            )
                            &&& plan.task_payload.spec_get("end_time_ms"@) == Some(
                                spec_task_u64(*payload, "end_time_ms"@),
                            )
                            &&& plan.task_payload.spec_get("status_code"@) == Some(
                                match spec_filter_of(*payload) {
                                    Some(f) => match spec_opt_u16(f, "status_code"@)->0 {
                                        Some(c) => Value::UInt(c as u64),
                                        None => Value::Null,
                                    },
                                    None => Value::Null,
                                },
                            )
                            &&& plan.task_payload.spec_get("limit"@) == Some(
                                Value::UInt(spec_task_limit(*payload)),
                            )
                        }
                    } else if action@ == "clear_requests"@ || action@ == "start_capture"@
                        || action@ == "stop_capture"@ {
                        step matches Step::Notify(plan) && {
                            &&& spec_effective_label(
                                spec_opt_string(*payload, "window_label"@)->0,
                                plan.window_label@,
                            )
                            &&& registry.spec_has(plan.window_label@)
                            &&& plan.topic@ == if action@ == "clear_requests"@ {
                                "clear-network-requests"@
                            } else if action@ == "start_capture"@ {
                                "start-network-capture"@
                            } else {
                                "stop-network-capture"@
                            }
                            &&& plan.operation@ == if action@ == "clear_requests"@ {
                                "Failed to emit clear event"@
                            } else {
                                "Failed to emit capture event"@
                            }
                            &&& plan.ok_data.spec_get("capture_active"@) == Some(
                                Value::Bool(action@ != "stop_capture"@),
                            )
                            &&& plan.ok_data.spec_get("returned_count"@) == Some(
                                Value::UInt(0),
                            )
                            &&& plan.ok_data.spec_get("total_count"@) == Some(Value::UInt(0))
                            &&& match plan.ok_data.spec_get("requests"@) {
                                Some(Value::Arr(items)) => items@.len() == 0,
                                _ => false,
                            }
                        }
                    } else {
                        step matches Step::Reply(env) && {
                            &&& !env.success
                            &&& env.error is Some
                            &&& env.error->0@ == "Parse error: Unknown action: "@ + action@
                        }
                    }
                })
            },
            Err(e) => match e {
                Error::SerializationError { message } => !spec_inspector_request_decodes(
                    *payload,
                ) && message@ == "Invalid payload for network inspector: "@
                    + spec_network_decode_error(*payload),
                Error::WindowNotFound { label } => {
                    &&& spec_inspector_request_decodes(*payload)
                    &&& spec_effective_label(
                        spec_opt_string(*payload, "window_label"@)->0,
                        label@,
                    )
                    &&& !registry.spec_has(label@)
                },
                _ => false,
            },
        },
{
    proof {
        lemma_action_literals_distinct();
    }
    let req = match parse_network_inspector_request(payload) {
        Ok(req) => req,
        Err(e) => {
            return Err(e);
        },
    };
    let window_label = match resolve_window(registry, &req.window_label) {
        Ok(l) => l,
        Err(e) => {
            return Err(e);
        },
    };
    if str_eq(req.action.as_str(), "get_requests") {
        let filter = match req.filter {
            Some(f) => f,
            None => NetworkRequestFilter {
                url_pattern: None,
                method: None,
                status_code: None,
                min_duration_ms: None,
                max_duration_ms: None,
                request_type: None,
                start_time_ms: None,
                end_time_ms: None,
                limit: Some(100),
            },
        };
        let task_payload = encode_network_filter(&filter);
        Ok(
            Step::Call(
                CallPlan {
                    window_label,
                    task_topic: String::from_str("get-network-requests"),
                    task_payload,
                    reply_topic: String::from_str("get-network-requests-response"),
                    timeout_ms: 15000,
                    operation: String::from_str("network request retrieval"),
                    kind: ReplyKind::NetworkRequests,
                },
            ),
        )
    } else if str_eq(req.action.as_str(), "clear_requests") {
        Ok(
            Step::Notify(
                NotifyPlan {
                    window_label,
                    topic: String::from_str("clear-network-requests"),
                    payload: Value::Null,
                    ok_data: control_response(true),
                    operation: String::from_str("Failed to emit clear event"),
                },
            ),
        )
    } else if str_eq(req.action.as_str(), "start_capture") {
        Ok(
            Step::Notify(
                NotifyPlan {
                    window_label,
                    topic: String::from_str("start-network-capture"),
                    payload: Value::Null,
                    ok_data: control_response(true),
                    operation: String::from_str("Failed to emit capture event"),
                },
            ),
        )
    } else if str_eq(req.action.as_str(), "stop_capture") {
        Ok(
            Step::Notify(
                NotifyPlan {
                    window_label,
                    topic: String::from_str("stop-network-capture"),
                    payload: Value::Null,
                    ok_data: control_response(false),
                    operation: String::from_str("Failed to emit capture event"),
                },
            ),
        )
    } else {
        let mut reason = String::from_str("Unknown action: ");
        reason.append(req.action.as_str());
        let e = NetworkInspectorError::ParseError(reason);
        let env = Envelope::fail(e.message());
        proof {
            reveal_strlit("Parse error: ");
            reveal_strlit("Unknown action: ");
            reveal_strlit("Parse error: Unknown action: ");
            assert(env.error->0@ =~= "Parse error: Unknown action: "@ + req.action@);
        }
        Ok(Step::Reply(env))
    }
}

proof fn lemma_action_literals_distinct()
    ensures
        "get_requests"@ != "clear_requests"@,
        "get_requests"@ != "start_capture"@,
        "get_requests"@ != "stop_capture"@,
        "clear_requests"@ != "start_capture"@,
        "clear_requests"@ != "stop_capture"@,
        "start_capture"@ != "stop_capture"@,
{
    reveal_strlit("get_requests");
    reveal_strlit("clear_requests");
    reveal_strlit("start_capture");
    reveal_strlit("stop_capture");
    assert("get_requests"@.len() == 12);
    assert("clear_requests"@.len() == 14);
    assert("start_capture"@.len() == 13);
    assert("stop_capture"@.len() == 12);
    assert("get_requests"@[0] == 'g' && "stop_capture"@[0] == 's');
}

/// Encodes a filter as the task object published to the context, absent
/// criteria as nulls and an absent limit as the default of one hundred.
pub fn encode_network_filter(f: &NetworkRequestFilter) -> (r: Value)
    ensures
        r.spec_get("url_pattern"@) == Some(
            match f.url_pattern {
                Some(p) => Value::Str(p),
                None => Value::Null,
            },
        ),
        r.spec_get("method"@) == Some(
            match f.method {
                Some(m) => Value::Str(m),
                None => Value::Null,
            },
        ),
        r.spec_get("status_code"@) == Some(
            match f.status_code {
                Some(c) => Value::UInt(c as u64),
                None => Value::Null,
            },
        ),
        r.spec_get("min_duration_ms"@) == Some(
            match f.min_duration_ms {
                Some(d) => Value::UInt(d),
                None => Value::Null,
            },
        ),
        r.spec_get("max_duration_ms"@) == Some(
            match f.max_duration_ms {
                Some(d) => Value::UInt(d),
                None => Value::Null,
            },
        ),
        r.spec_get("request_type"@) == Some(
            match f.request_type {
                Some(t) => Value::Str(t),
                None => Value::Null,
            },
        ),
        r.spec_get("start_time_ms"@) == Some(
            match f.start_time_ms {
                Some(t) => Value::UInt(t),
                None => Value::Null,
            },
        ),
        r.spec_get("end_time_ms"@) == Some(
            match f.end_time_ms {
                Some(t) => Value::UInt(t),
                None => Value::Null,
            },
        ),
        r.spec_get("limit"@) == Some(
            Value::UInt(
                match f.limit {
                    Some(l) => l as u64,
                    None => 100,
                },
            ),
        ),
{
    let mut fields: Vec<(String, Value)> = Vec::new();
    fields.push(
        (
            String::from_str("url_pattern"),
            match &f.url_pattern {
                Some(p) => Value::Str(p.clone()),
                None => Value::Null,
            },
        ),
    );
    fields.push(
        (
            String::from_str("method"),
            match &f.method {
                Some(m) => Value::Str(m.clone()),
                None => Value::Null,
            },
        ),
    );
    fields.push(
        (
            String::from_str("status_code"),
            match f.status_code {
                Some(c) => Value::UInt(c as u64),
                None => Value::Null,
            },
        ),
    );
    fields.push(
        (
            String::from_str("min_duration_ms"),
            match f.min_duration_ms {
                Some(d) => Value::UInt(d),
                None => Value::Null,
            },
        ),
    );
    fields.push(
        (
            String::from_str("max_duration_ms"),
            match f.max_duration_ms {
                Some(d) => Value::UInt(d),
                None => Value::Null,
            },
        ),
    );
    fields.push(
        (
            String::from_str("request_type"),
            match &f.request_type {
                Some(t) => Value::Str(t.clone()),
                None => Value::Null,
            },
        ),
    );
    fields.push(
        (
            String::from_str("start_time_ms"),
            match f.start_time_ms {
                Some(t) => Value::UInt(t),
                None => Value::Null,
            },
        ),
    );
    fields.push(
        (
            String::from_str("end_time_ms"),
            match f.end_time_ms {
                Some(t) => Value::UInt(t),
                None => Value::Null,
            },
        ),
    );
    fields.push(
        (
            String::from_str("limit"),
            Value::UInt(
                match f.limit {
                    Some(l) => l as u64,
                    None => 100,
                },
            ),
        ),
    );
    let r = Value::Obj(fields);
    proof {
        lemma_network_filter_keys(r->Obj_0@);
    }
    r
}

proof fn lemma_network_filter_keys(fields: Seq<(String, Value)>)
    requires
        fields.len() == 9,
        fields[0].0@ == "url_pattern"@,
        fields[1].0@ == "method"@,
        fields[2].0@ == "status_code"@,
        fields[3].0@ == "min_duration_ms"@,
        fields[4].0@ == "max_duration_ms"@,
        fields[5].0@ == "request_type"@,
        fields[6].0@ == "start_time_ms"@,
        fields[7].0@ == "end_time_ms"@,
        fields[8].0@ == "limit"@,
    ensures
        obj_get(fields, "url_pattern"@) == Some(fields[0].1),
        obj_get(fields, "method"@) == Some(fields[1].1),
        obj_get(fields, "status_code"@) == Some(fields[2].1),
        obj_get(fields, "min_duration_ms"@) == Some(fields[3].1),
        obj_get(fields, "max_duration_ms"@) == Some(fields[4].1),
        obj_get(fields, "request_type"@) == Some(fields[5].1),
        obj_get(fields, "start_time_ms"@) == Some(fields[6].1),
        obj_get(fields, "end_time_ms"@) == Some(fields[7].1),
        obj_get(fields, "limit"@) == Some(fields[8].1),
{
    reveal_strlit("url_pattern");
    reveal_strlit("method");
    reveal_strlit("status_code");
    reveal_strlit("min_duration_ms");
    reveal_strlit("max_duration_ms");
    reveal_strlit("request_type");
    reveal_strlit("start_time_ms");
    reveal_strlit("end_time_ms");
    reveal_strlit("limit");
    assert("url_pattern"@.len() == 11);
    assert("method"@.len() == 6);
    assert("status_code"@.len() == 11);
    assert("min_duration_ms"@.len() == 15);
    assert("max_duration_ms"@.len() == 15);
    assert("request_type"@.len() == 12);
    assert("start_time_ms"@.len() == 13);
    assert("end_time_ms"@.len() == 11);
    assert("limit"@.len() == 5);
    assert("url_pattern"@[0] == 'u' && "status_code"@[0] == 's' && "end_time_ms"@[0] == 'e');
    assert("min_duration_ms"@[1] == 'i' && "max_duration_ms"@[1] == 'a');
    assert("status_code"@[1] == 't' && "start_time_ms"@[1] == 't' && "status_code"@[2] == 'a'
        && "start_time_ms"@[2] == 'a');
    assert("status_code"@[3] == 't' && "start_time_ms"@[3] == 'r');
    assert("url_pattern"@[1] == 'r' && "end_time_ms"@[1] == 'n');
    lemma_obj_get_at(fields, 0, "url_pattern"@);
    lemma_obj_get_at(fields, 1, "method"@);
    lemma_obj_get_at(fields, 2, "status_code"@);
    lemma_obj_get_at(fields, 3, "min_duration_ms"@);
    lemma_obj_get_at(fields, 4, "max_duration_ms"@);
    lemma_obj_get_at(fields, 5, "request_type"@);
    lemma_obj_get_at(fields, 6, "start_time_ms"@);
    lemma_obj_get_at(fields, 7, "end_time_ms"@);
    lemma_obj_get_at(fields, 8, "limit"@);
}

/// Shapes the outcome of a `get_requests` bridge call into the final
/// envelope, mirroring the console-log shaping with this command's texts.
pub fn finish_network_inspector(outcome: CallOutcome) -> (r: Envelope)
    ensures
        r.wf(),
        match outcome {
            CallOutcome::Reply(v) => match spec_reply_error(v) {
                Some(msg) => {
                    &&& !r.success
                    &&& r.error is Some
                    &&& r.error->0@ == "Network operation error: "@ + msg
                },
                None => {
                    &&& r.success
                    &&& r.data is Some
                    &&& r.data->0.spec_get("returned_count"@) == Some(
                        Value::UInt(spec_reply_requests_len(v) as u64),
                    )
                    &&& r.data->0.spec_get("total_count"@) == Some(
                        Value::UInt(spec_reply_total(v) as u64),
                    )
                    &&& r.data->0.spec_get("capture_active"@) == Some(
                        Value::Bool(spec_reply_capture_active(v)),
                    )
                },
            },
            CallOutcome::TimedOut => {
                &&& !r.success
                &&& r.error is Some
                &&& r.error->0@
                    == "Operation timed out: Timeout waiting for network inspector response"@
            },
            CallOutcome::PublishFailed(m) => {
                &&& !r.success
                &&& r.error is Some
                &&& r.error->0@ == "Network operation error: Failed to emit event: "@ + m@
            },
            CallOutcome::MalformedReply(m) => {
                &&& !r.success
                &&& r.error is Some
                &&& r.error->0@ == "Parse error: Failed to parse response: "@ + m@
            },
        },
{
    match outcome {
        CallOutcome::Reply(v) => match decode_network_reply(&v) {
            Ok(resp) => Envelope::ok(encode_network_response(resp)),
            Err(e) => Envelope::fail(e.message()),
        },
        CallOutcome::TimedOut => {
            let e = NetworkInspectorError::TimeoutError(
                String::from_str("Timeout waiting for network inspector response"),
            );
            let env = Envelope::fail(e.message());
            proof {
                reveal_strlit("Operation timed out: ");
                reveal_strlit("Timeout waiting for network inspector response");
                reveal_strlit(
                    "Operation timed out: Timeout waiting for network inspector response",
                );
                assert(env.error->0@
                    =~= "Operation timed out: Timeout waiting for network inspector response"@);
            }
            env
        },
        CallOutcome::PublishFailed(m) => {
            let mut reason = String::from_str("Failed to emit event: ");
            reason.append(m.as_str());
            let e = NetworkInspectorError::WebviewOperation(reason);
            let env = Envelope::fail(e.message());
            proof {
                reveal_strlit("Network operation error: ");
                reveal_strlit("Failed to emit event: ");
                reveal_strlit("Network operation error: Failed to emit event: ");
                assert(env.error->0@ =~= "Network operation error: Failed to emit event: "@
                    + m@);
            }
            env
        },
        CallOutcome::MalformedReply(m) => {
            let mut reason = String::from_str("Failed to parse response: ");
            reason.append(m.as_str());
            let e = NetworkInspectorError::ParseError(reason);
            let env = Envelope::fail(e.message());
            proof {
                reveal_strlit("Parse error: ");
                reveal_strlit("Failed to parse response: ");
                reveal_strlit("Parse error: Failed to parse response: ");
                assert(env.error->0@ =~= "Parse error: Failed to parse response: "@ + m@);
            }
            env
        },
    }
}

/// Validates an `inject-network-capture` payload and plans the notification
/// that installs the capture script.
pub fn start_inject_network_capture(payload: &Value, registry: &Registry) -> (r: Result<
    Step,
    Error,
>)
    ensures
        match r {
            Ok(step) => {
                &&& spec_opt_string(*payload, "window_label"@) is Some
                &&& step matches Step::Notify(plan) && {
                    &&& spec_effective_label(
                        spec_opt_string(*payload, "window_label"@)->0,
                        plan.window_label@,
                    )
                    &&& registry.spec_has(plan.window_label@)
                    &&& plan.topic@ == "inject-network-capture"@
                    &&& plan.operation@ == "Failed to emit injection event"@
                    &&& match plan.ok_data.spec_get("message"@) {
                        Some(Value::Str(s)) => s@ == "Network capture injected"@,
                        _ => false,
                    }
                }
            },
            Err(e) => match e {
                Error::SerializationError { message } => spec_opt_string(
                    *payload,
                    "window_label"@,
                ) is None && message@ == "Invalid payload for injection: "@ + spec_field_error(
                    "window_label"@,
                    "a string"@,
                ),
                Error::WindowNotFound { label } => {
                    &&& spec_opt_string(*payload, "window_label"@) is Some
                    &&& spec_effective_label(
                        spec_opt_string(*payload, "window_label"@)->0,
                        label@,
                    )
                    &&& !registry.spec_has(label@)
                },
                _ => false,
            },
        },
{
    let window_label_req = match opt_string_field(payload, "window_label") {
        Ok(v) => v,
        Err(m) => {
            let mut s = String::from_str("Invalid payload for injection: ");
            s.append(m.as_str());
            return Err(Error::serialization_error(s));
        },
    };
    let window_label = match resolve_window(registry, &window_label_req) {
        Ok(l) => l,
        Err(e) => {
            return Err(e);
        },
    };
    let mut fields: Vec<(String, Value)> = Vec::new();
    fields.push(
        (String::from_str("message"), Value::Str(String::from_str("Network capture injected"))),
    );
    let ok_data = Value::Obj(fields);
    Ok(
        Step::Notify(
            NotifyPlan {
                window_label,
                topic: String::from_str("inject-network-capture"),
                payload: Value::Null,
                ok_data,
                operation: String::from_str("Failed to emit injection event"),
            },
        ),
    )
}


/// Whether a captured request passes the filter: the URL pattern is a
/// substring check, the method and kind compare case-insensitively, the
/// status must equal the requested one, the duration bounds apply only to
/// requests that finished (an unfinished request fails a duration bound),
/// and the time window is over the start time.
pub open spec fn spec_request_selected(e: NetworkRequest, f: NetworkRequestFilter) -> bool {
    &&& match f.url_pattern {
        Some(p) => is_substring(e.url@, p@),
        None => true,
    }
    &&& match f.method {
        Some(m) => upper_of(m@) == upper_of(e.method@),
        None => true,
    }
    &&& match f.status_code {
        Some(c) => e.status_code == Some(c),
        None => true,
    }
    &&& match f.min_duration_ms {
        Some(d) => e.duration_ms matches Some(x) && x >= d,
        None => true,
    }
    &&& match f.max_duration_ms {
        Some(d) => e.duration_ms matches Some(x) && x <= d,
        None => true,
    }
    &&& match f.request_type {
        Some(t) => lower_of(t@) == lower_of(e.request_type@),
        None => true,
    }
    &&& match f.start_time_ms {
        Some(t) => e.start_time_ms >= t,
        None => true,
    }
    &&& match f.end_time_ms {
        Some(t) => e.start_time_ms <= t,
        None => true,
    }
}

/// The selection predicate of one query, as a function value.
pub open spec fn spec_request_pred(f: NetworkRequestFilter) -> spec_fn(NetworkRequest) -> bool {
    |e: NetworkRequest| spec_request_selected(e, f)
}

/// Field-for-field equality of two captured requests, over string views;
/// the headers and bodies are compared by presence and length.
pub open spec fn request_eq(a: NetworkRequest, b: NetworkRequest) -> bool {
    &&& a.id@ == b.id@
    &&& a.url@ == b.url@
    &&& a.method@ == b.method@
    &&& a.request_type@ == b.request_type@
    &&& a.status_code == b.status_code
    &&& a.request_headers@.len() == b.request_headers@.len()
    &&& a.response_headers@.len() == b.response_headers@.len()
    &&& a.start_time_ms == b.start_time_ms
    &&& a.end_time_ms == b.end_time_ms
    &&& a.duration_ms == b.duration_ms
}

fn clone_pairs(h: &Vec<(String, String)>) -> (r: Vec<(String, String)>)
    ensures
        r@.len() == h@.len(),
{
    let n = h.len();
    let mut out: Vec<(String, String)> = Vec::new();
    let mut i: usize = 0;
    while i < n
        invariant
            n == h@.len(),
            i <= n,
            out@.len() == i,
        decreases n - i,
    {
        out.push((h[i].0.clone(), h[i].1.clone()));
        i = i + 1;
    }
    out
}

impl NetworkRequest {
    /// An owned copy of this captured request.
    pub fn duplicate(&self) -> (r: NetworkRequest)
        ensures
            request_eq(r, *self),
    {
        NetworkRequest {
            id: self.id.clone(),
            url: self.url.clone(),
            method: self.method.clone(),
            request_type: self.request_type.clone(),
            status_code: self.status_code,
            request_headers: clone_pairs(&self.request_headers),
            response_headers: clone_pairs(&self.response_headers),
            request_body: match &self.request_body {
                Some(b) => Some(b.clone()),
                None => None,
            },
            response_body: match &self.response_body {
                Some(b) => Some(b.clone()),
                None => None,
            },
            error: match &self.error {
                Some(b) => Some(b.clone()),
                None => None,
            },
            start_time_ms: self.start_time_ms,
            end_time_ms: self.end_time_ms,
            duration_ms: self.duration_ms,
        }
    }
}

/// The buffer semantics a well-behaved context implements for
/// `get_requests`: the filter selects requests first, `total_count` counts
/// every selected request, and `limit` caps only how many are returned,
/// in capture order.
pub fn query_network_buffer(
    entries: &Vec<NetworkRequest>,
    filter: &NetworkRequestFilter,
    limit: usize,
    capture_active: bool,
) -> (r: NetworkInspectorResponse)
    ensures
        ({
            let selected = entries@.filter(spec_request_pred(*filter));
            &&& r.total_count == selected.len()
            &&& r.returned_count == r.requests@.len()
            &&& r.requests@.len() == if selected.len() <= limit {
                selected.len()
            } else {
                limit as nat
            }
            &&& forall|i: int|
                0 <= i < r.requests@.len() ==> request_eq(#[trigger] r.requests@[i], selected[i])
            &&& r.capture_active == capture_active
        }),
{
    let ghost pred = spec_request_pred(*filter);
    let n = entries.len();
    let mut requests: Vec<NetworkRequest> = Vec::new();
    let mut total: usize = 0;
    let mut i: usize = 0;
    proof {
        assert(entries@.take(0).filter(pred) =~= Seq::<NetworkRequest>::empty());
    }
    while i < n
        invariant
            pred == spec_request_pred(*filter),
            n == entries@.len(),
            i <= n,
            ({
                let sel = entries@.take(i as int).filter(pred);
                &&& total == sel.len()
                &&& requests@.len() == if sel.len() <= limit {
                    sel.len()
                } else {
                    limit as nat
                }
                &&& forall|k: int|
                    0 <= k < requests@.len() ==> request_eq(#[trigger] requests@[k], sel[k])
            }),
        decreases n - i,
    {
        let e = &entries[i];
        let url_ok: bool = match &filter.url_pattern {
            Some(p) => str_contains(e.url.as_str(), p.as_str()),
            None => true,
        };
        let method_ok: bool = match &filter.method {
            Some(m) => {
                let mf = to_uppercase(m.as_str());
                let me = to_uppercase(e.method.as_str());
                str_eq(mf.as_str(), me.as_str())
            },
            None => true,
        };
        let status_ok: bool = match filter.status_code {
            Some(c) => match e.status_code {
                Some(x) => x == c,
                None => false,
            },
            None => true,
        };
        let min_ok: bool = match filter.min_duration_ms {
            Some(d) => match e.duration_ms {
                Some(x) => x >= d,
                None => false,
            },
            None => true,
        };
        let max_ok: bool = match filter.max_duration_ms {
            Some(d) => match e.duration_ms {
                Some(x) => x <= d,
                None => false,
            },
            None => true,
        };
        let type_ok: bool = match &filter.request_type {
            Some(t) => {
                let tf = to_lowercase(t.as_str());
                let te = to_lowercase(e.request_type.as_str());
                str_eq(tf.as_str(), te.as_str())
            },
            None => true,
        };
        let start_ok: bool = match filter.start_time_ms {
            Some(t) => e.start_time_ms >= t,
            None => true,
        };
        let end_ok: bool = match filter.end_time_ms {
            Some(t) => e.start_time_ms <= t,
            None => true,
        };
        let take_it = url_ok && method_ok && status_ok && min_ok && max_ok && type_ok
            && start_ok && end_ok;
        proof {
            assert(take_it == pred(entries@[i as int]));
            let prefix = entries@.take(i + 1);
            assert(prefix.drop_last() =~= entries@.take(i as int));
            assert(prefix.last() == entries@[i as int]);
            reveal_with_fuel(Seq::filter, 2);
            assert(prefix.filter(pred) =~= entries@.take(i as int).filter(pred) + if pred(
                entries@[i as int],
            ) {
                seq![entries@[i as int]]
            } else {
                Seq::<NetworkRequest>::empty()
            });
            entries@.take(i as int).lemma_filter_len(pred);
        }
        if take_it {
            total = total + 1;
            if requests.len() < limit {
                requests.push(e.duplicate());
            }
        }
        i = i + 1;
    }
    proof {
        assert(entries@.take(n as int) =~= entries@);
    }
    let returned_count = requests.len();
    NetworkInspectorResponse { requests, total_count: total, returned_count, capture_active }
}

} // verus!
