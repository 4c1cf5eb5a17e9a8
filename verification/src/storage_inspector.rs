//! The storage-inspection command: get, clear, list and query over
//! key-value and indexed storage inside the context, paginated. The whole
//! decoded request is forwarded to the context as the task payload, and the
//! reply's `data` field passes through as the envelope data.

use vstd::prelude::*;
use crate::bridge::CallOutcome;
use crate::envelope::Envelope;
use crate::error::Error;
use crate::fields::{
    opt_string_field, opt_usize_field, req_string_field, spec_field_error, spec_opt_string,
    spec_opt_usize,
};
use crate::plan::{CallPlan, ReplyKind, Step};
use crate::registry::{resolve_window, spec_effective_label, Registry};
use crate::strutil::{lower_of, str_eq, to_lowercase};
use crate::value::{lemma_obj_get_at, Value};

verus! {

broadcast use vstd::string::group_string_axioms;

/// A failure local to the storage-inspection command; folded into a failed
/// envelope, never propagated.
pub enum StorageInspectorError {
    WebviewOperation(String),
    JavaScriptError(String),
    Timeout(String),
}

impl StorageInspectorError {
    pub open spec fn spec_message(&self) -> Seq<char> {
        match self {
            StorageInspectorError::WebviewOperation(s) => "Storage operation error: "@ + s@,
            StorageInspectorError::JavaScriptError(s) => "JavaScript error: "@ + s@,
            StorageInspectorError::Timeout(s) => "Operation timed out: "@ + s@,
        }
    }

    /// Renders this error as one message string.
    pub fn message(&self) -> (r: String)
        ensures
            r@ == self.spec_message(),
    {
        match self {
            StorageInspectorError::WebviewOperation(s) => {
                let mut m = String::from_str("Storage operation error: ");
                m.append(s.as_str());
                m
            },
            StorageInspectorError::JavaScriptError(s) => {
                let mut m = String::from_str("JavaScript error: ");
                m.append(s.as_str());
                m
            },
            StorageInspectorError::Timeout(s) => {
                let mut m = String::from_str("Operation timed out: ");
                m.append(s.as_str());
                m
            },
        }
    }
}

/// A kind of context-side storage.
#[derive(Clone, Copy, Debug, PartialEq, Eq, Structural)]
pub enum StorageType {
    LocalStorage,
    SessionStorage,
    IndexedDB,
}

/// The storage kind a lowercased name denotes.
pub open spec fn spec_storage_type(t: Seq<char>) -> Option<StorageType> {
    if t == "localstorage"@ {
        Some(StorageType::LocalStorage)
    } else if t == "sessionstorage"@ {
        Some(StorageType::SessionStorage)
    } else if t == "indexeddb"@ {
        Some(StorageType::IndexedDB)
    } else {
        None
    }
}

impl StorageType {
    /// Parses a storage kind, case-insensitively.
    pub fn from_str(s: &str) -> (r: Option<StorageType>)
        ensures
            r == spec_storage_type(lower_of(s@)),
    {
        let l = to_lowercase(s);
        if str_eq(l.as_str(), "localstorage") {
            Some(StorageType::LocalStorage)
        } else if str_eq(l.as_str(), "sessionstorage") {
            Some(StorageType::SessionStorage)
        } else if str_eq(l.as_str(), "indexeddb") {
            Some(StorageType::IndexedDB)
        } else {
            None
        }
    }
}

/// One stored key-value pair, with its serialized size.
pub struct StorageItem {
    pub key: String,
    pub value: Value,
    pub size_bytes: usize,
}

/// One object store of an indexed database.
pub struct IndexedDBStore {
    pub name: String,
    pub key_path: Option<Value>,
    pub auto_increment: bool,
    pub indexes: Vec<String>,
    pub item_count: usize,
}

/// One indexed database with its stores.
pub struct IndexedDBDatabase {
    pub name: String,
    pub version: u32,
    pub stores: Vec<IndexedDBStore>,
}

/// A page of key-value storage.
pub struct StorageQueryResult {
    pub storage_type: String,
    pub items: Vec<StorageItem>,
    pub total_items: usize,
    pub total_size_bytes: usize,
    pub paginated: bool,
    pub page: usize,
    pub page_size: usize,
}

/// The result of querying an indexed database.
pub struct IndexedDBQueryResult {
    pub databases: Vec<IndexedDBDatabase>,
    pub items_by_store: Vec<(String, Vec<StorageItem>)>,
    pub total_items: usize,
    pub total_size_bytes: usize,
}

/// The decoded request for `storage-inspector`.
pub struct StorageInspectorRequest {
    pub window_label: Option<String>,
    pub action: String,
    pub storage_type: Option<String>,
    pub key_pattern: Option<String>,
    pub page: Option<usize>,
    pub page_size: Option<usize>,
    pub db_name: Option<String>,
    pub store_name: Option<String>,
}

/// Whether a payload decodes into a [`StorageInspectorRequest`].
pub open spec fn spec_storage_request_decodes(payload: Value) -> bool {
    &&& spec_opt_string(payload, "window_label"@) is Some
    &&& spec_opt_string(payload, "action"@) matches Some(Some(_))
    &&& spec_opt_string(payload, "storage_type"@) is Some
    &&& spec_opt_string(payload, "key_pattern"@) is Some
    &&& spec_opt_usize(payload, "page"@) is Some
    &&& spec_opt_usize(payload, "page_size"@) is Some
    &&& spec_opt_string(payload, "db_name"@) is Some
    &&& spec_opt_string(payload, "store_name"@) is Some
}

/// The decode-failure text of the first request field of the wrong shape,
/// in the order the fields are read.
pub open spec fn spec_storage_decode_error(payload: Value) -> Seq<char> {
    if spec_opt_string(payload, "window_label"@) is None {
        spec_field_error("window_label"@, "a string"@)
    } else if !(spec_opt_string(payload, "action"@) matches Some(Some(_))) {
        spec_field_error("action"@, "a string"@)
    } else if spec_opt_string(payload, "storage_type"@) is None {
        spec_field_error("storage_type"@, "a string"@)
    } else if spec_opt_string(payload, "key_pattern"@) is None {
        spec_field_error("key_pattern"@, "a string"@)
    } else if spec_opt_usize(payload, "page"@) is None {
        spec_field_error("page"@, "an unsigned integer"@)
    } else if spec_opt_usize(payload, "page_size"@) is None {
        spec_field_error("page_size"@, "an unsigned integer"@)
    } else if spec_opt_string(payload, "db_name"@) is None {
        spec_field_error("db_name"@, "a string"@)
    } else {
        spec_field_error("store_name"@, "a string"@)
    }
}

/// Decodes the request payload; a field of the wrong shape is a
/// serialization error carrying the decode text.
pub fn parse_storage_inspector_request(payload: &Value) -> (r: Result<
    StorageInspectorRequest,
    Error,
>)
    ensures
        match r {
            Ok(req) => {
                &&& spec_storage_request_decodes(*payload)
                &&& Some(req.window_label) == spec_opt_string(*payload, "window_label"@)
                &&& Some(Some(req.action)) == spec_opt_string(*payload, "action"@)
                &&& Some(req.storage_type) == spec_opt_string(*payload, "storage_type"@)
                &&& Some(req.key_pattern) == spec_opt_string(*payload, "key_pattern"@)
                &&& Some(req.page) == spec_opt_usize(*payload, "page"@)
                &&& Some(req.page_size) == spec_opt_usize(*payload, "page_size"@)
                &&& Some(req.db_name) == spec_opt_string(*payload, "db_name"@)
                &&& Some(req.store_name) == spec_opt_string(*payload, "store_name"@)
            },
            Err(e) => {
                &&& !spec_storage_request_decodes(*payload)
                &&& e matches Error::SerializationError { message } && message@
                    == "Invalid payload for storage inspector: "@ + spec_storage_decode_error(
                    *payload,
                )
            },
        },
{
    let window_label = match opt_string_field(payload, "window_label") {
        Ok(v) => v,
        Err(m) => {
            return Err(Error::serialization_error(decode_error(m)));
        },
    };
    let action = match req_string_field(payload, "action") {
        Ok(v) => v,
        Err(m) => {
            return Err(Error::serialization_error(decode_error(m)));
        },
    };
    let storage_type = match opt_string_field(payload, "storage_type") {
        Ok(v) => v,
        Err(m) => {
            return Err(Error::serialization_error(decode_error(m)));
        },
    };
    let key_pattern = match opt_string_field(payload, "key_pattern") {
        Ok(v) => v,
        Err(m) => {
            return Err(Error::serialization_error(decode_error(m)));
        },
    };
    let page = match opt_usize_field(payload, "page") {
        Ok(v) => v,
        Err(m) => {
            return Err(Error::serialization_error(decode_error(m)));
        },
    };
    let page_size = match opt_usize_field(payload, "page_size") {
        Ok(v) => v,
        Err(m) => {
            return Err(Error::serialization_error(decode_error(m)));
        },
    };
    let db_name = match opt_string_field(payload, "db_name") {
        Ok(v) => v,
        Err(m) => {
            return Err(Error::serialization_error(decode_error(m)));
        },
    };
    let store_name = match opt_string_field(payload, "store_name") {
        Ok(v) => v,
        Err(m) => {
            return Err(Error::serialization_error(decode_error(m)));
        },
    };
    Ok(
        StorageInspectorRequest {
            window_label,
            action,
            storage_type,
            key_pattern,
            page,
            page_size,
            db_name,
            store_name,
        },
    )
}

fn decode_error(m: String) -> (r: String)
    ensures
        r@ == "Invalid payload for storage inspector: "@ + m@,
{
    let mut s = String::from_str("Invalid payload for storage inspector: ");
    s.append(m.as_str());
    s
}

/// Which validation failure a request's action has, if any: `get_storage`
/// and `clear_storage` need a storage type, `query_indexeddb` needs a
/// database and store name, `list_indexeddb` needs nothing more, and any
/// other action is unsupported.
pub open spec fn spec_storage_validation_error(req: StorageInspectorRequest) -> Option<
    Seq<char>,
> {
    if req.action@ == "get_storage"@ {
        if req.storage_type is None {
            Some("storage_type is required for get_storage action"@)
        } else {
            None
        }
    } else if req.action@ == "clear_storage"@ {
        if req.storage_type is None {
            Some("storage_type is required for clear_storage action"@)
        } else {
            None
        }
    } else if req.action@ == "list_indexeddb"@ {
        None
    } else if req.action@ == "query_indexeddb"@ {
        if req.db_name is None || req.store_name is None {
            Some("db_name and store_name are required for query_indexeddb action"@)
        } else {
            None
        }
    } else {
        Some("Unsupported storage inspector action: "@ + req.action@)
    }
}

/// The same validation verdict, read off the payload: which failure the
/// decoded request's action has, if any.
pub open spec fn spec_storage_payload_validation_error(payload: Value) -> Option<Seq<char>> {
    let action = spec_opt_string(payload, "action"@)->0->0;
    if action@ == "get_storage"@ {
        if spec_opt_string(payload, "storage_type"@)->0 is None {
            Some("storage_type is required for get_storage action"@)
        } else {
            None
        }
    } else if action@ == "clear_storage"@ {
        if spec_opt_string(payload, "storage_type"@)->0 is None {
            Some("storage_type is required for clear_storage action"@)
        } else {
            None
        }
    } else if action@ == "list_indexeddb"@ {
        None
    } else if action@ == "query_indexeddb"@ {
        if spec_opt_string(payload, "db_name"@)->0 is None || spec_opt_string(
            payload,
            "store_name"@,
        )->0 is None {
            Some("db_name and store_name are required for query_indexeddb action"@)
        } else {
            None
        }
    } else {
        Some("Unsupported storage inspector action: "@ + action@)
    }
}

proof fn lemma_storage_action_literals_distinct()
    ensures
        "get_storage"@ != "clear_storage"@,
        "get_storage"@ != "list_indexeddb"@,
        "get_storage"@ != "query_indexeddb"@,
        "clear_storage"@ != "list_indexeddb"@,
        "clear_storage"@ != "query_indexeddb"@,
        "list_indexeddb"@ != "query_indexeddb"@,
{
    reveal_strlit("get_storage");
    reveal_strlit("clear_storage");
    reveal_strlit("list_indexeddb");
    reveal_strlit("query_indexeddb");
    assert("get_storage"@.len() == 11);
    assert("clear_storage"@.len() == 13);
    assert("list_indexeddb"@.len() == 14);
    assert("query_indexeddb"@.len() == 15);
}

/// Checks a decoded request's parameters against its action.
pub fn validate_storage_request(req: &StorageInspectorRequest) -> (r: Option<String>)
    ensures
        match r {
            Some(m) => spec_storage_validation_error(*req) == Some(m@),
            None => spec_storage_validation_error(*req) is None,
        },
{
    proof {
        lemma_storage_action_literals_distinct();
    }
    if str_eq(req.action.as_str(), "get_storage") {
        if req.storage_type.is_none() {
            Some(String::from_str("storage_type is required for get_storage action"))
        } else {
            None
        }
    } else if str_eq(req.action.as_str(), "clear_storage") {
        if req.storage_type.is_none() {
            Some(String::from_str("storage_type is required for clear_storage action"))
        } else {
            None
        }
    } else if str_eq(req.action.as_str(), "list_indexeddb") {
        None
    } else if str_eq(req.action.as_str(), "query_indexeddb") {
        if req.db_name.is_none() || req.store_name.is_none() {
            Some(
                String::from_str("db_name and store_name are required for query_indexeddb action"),
            )
        } else {
            None
        }
    } else {
        let mut m = String::from_str("Unsupported storage inspector action: ");
        m.append(req.action.as_str());
        Some(m)
    }
}

/// Re-encodes the decoded request as the task object published to the
/// context under `inspect-storage`.
pub fn encode_storage_request(req: &StorageInspectorRequest) -> (r: Value)
    ensures
        match r.spec_get("action"@) {
            Some(Value::Str(s)) => s@ == req.action@,
            _ => false,
        },
        r.spec_get("storage_type"@) == Some(
            match req.storage_type {
                Some(s) => Value::Str(s),
                None => Value::Null,
            },
        ),
        r.spec_get("key_pattern"@) == Some(
            match req.key_pattern {
                Some(s) => Value::Str(s),
                None => Value::Null,
            },
        ),
        r.spec_get("page"@) == Some(
            match req.page {
                Some(p) => Value::UInt(p as u64),
                None => Value::Null,
            },
        ),
        r.spec_get("page_size"@) == Some(
            match req.page_size {
                Some(p) => Value::UInt(p as u64),
                None => Value::Null,
            },
        ),
        r.spec_get("db_name"@) == Some(
            match req.db_name {
                Some(s) => Value::Str(s),
                None => Value::Null,
            },
        ),
        r.spec_get("store_name"@) == Some(
            match req.store_name {
                Some(s) => Value::Str(s),
                None => Value::Null,
            },
        ),
{
    let mut fields: Vec<(String, Value)> = Vec::new();
    fields.push((String::from_str("action"), Value::Str(req.action.clone())));
    fields.push(
        (
            String::from_str("storage_type"),
            match &req.storage_type {
                Some(s) => Value::Str(s.clone()),
                None => Value::Null,
            },
        ),
    );
    fields.push(
        (
            String::from_str("key_pattern"),
            match &req.key_pattern {
                Some(s) => Value::Str(s.clone()),
                None => Value::Null,
            },
        ),
    );
    fields.push(
        (
            String::from_str("page"),
            match req.page {
                Some(p) => Value::UInt(p as u64),
                None => Value::Null,
            },
        ),
    );
    fields.push(
        (
            String::from_str("page_size"),
            match req.page_size {
                Some(p) => Value::UInt(p as u64),
                None => Value::Null,
            },
        ),
    );
    fields.push(
        (
            String::from_str("db_name"),
            match &req.db_name {
                Some(s) => Value::Str(s.clone()),
                None => Value::Null,
            },
        ),
    );
    fields.push(
        (
            String::from_str("store_name"),
            match &req.store_name {
                Some(s) => Value::Str(s.clone()),
                None => Value::Null,
            },
        ),
    );
    let r = Value::Obj(fields);
    proof {
        lemma_storage_request_keys(r->Obj_0@);
    }
    r
}

proof fn lemma_storage_request_keys(fields: Seq<(String, Value)>)
    requires
        fields.len() == 7,
        fields[0].0@ == "action"@,
        fields[1].0@ == "storage_type"@,
        fields[2].0@ == "key_pattern"@,
        fields[3].0@ == "page"@,
        fields[4].0@ == "page_size"@,
        fields[5].0@ == "db_name"@,
        fields[6].0@ == "store_name"@,
    ensures
        crate::value::obj_get(fields, "action"@) == Some(fields[0].1),
        crate::value::obj_get(fields, "storage_type"@) == Some(fields[1].1),
        crate::value::obj_get(fields, "key_pattern"@) == Some(fields[2].1),
        crate::value::obj_get(fields, "page"@) == Some(fields[3].1),
        crate::value::obj_get(fields, "page_size"@) == Some(fields[4].1),
        crate::value::obj_get(fields, "db_name"@) == Some(fields[5].1),
        crate::value::obj_get(fields, "store_name"@) == Some(fields[6].1),
{
    reveal_strlit("action");
    reveal_strlit("storage_type");
    reveal_strlit("key_pattern");
    reveal_strlit("page");
    reveal_strlit("page_size");
    reveal_strlit("db_name");
    reveal_strlit("store_name");
    assert("action"@.len() == 6);
    assert("storage_type"@.len() == 12);
    assert("key_pattern"@.len() == 11);
    assert("page"@.len() == 4);
    assert("page_size"@.len() == 9);
    assert("db_name"@.len() == 7);
    assert("store_name"@.len() == 10);
    lemma_obj_get_at(fields, 0, "action"@);
    lemma_obj_get_at(fields, 1, "storage_type"@);
    lemma_obj_get_at(fields, 2, "key_pattern"@);
    lemma_obj_get_at(fields, 3, "page"@);
    lemma_obj_get_at(fields, 4, "page_size"@);
    lemma_obj_get_at(fields, 5, "db_name"@);
    lemma_obj_get_at(fields, 6, "store_name"@);
}

/// Validates a `storage-inspector` payload against its action before any
/// window is resolved: a request whose parameters do not fit its action is
/// answered at once with a failed envelope naming the missing parameter or
/// the unsupported action, even if the target window is absent. Only a
/// valid request resolves its context and plans the ten-second bridge
/// round trip carrying the whole request under `inspect-storage`.
pub fn start_storage_inspector(payload: &Value, registry: &Registry) -> (r: Result<Step, Error>)
    ensures
        match r {
            Ok(step) => {
                &&& spec_storage_request_decodes(*payload)
                &&& step.wf()
                &&& ({
                    let action = spec_opt_string(*payload, "action"@)->0->0;
                    match step {
                        Step::Reply(env) => {
                            &&& spec_storage_payload_validation_error(*payload) matches Some(m)
                                && env.error is Some && env.error->0@ == m
                            &&& !env.success
                            &&& env.data is None
                        },
                        Step::Call(plan) => {
                            &&& spec_storage_payload_validation_error(*payload) is None
                            &&& spec_effective_label(
                                spec_opt_string(*payload, "window_label"@)->0,
                                plan.window_label@,
                            )
                            &&& registry.spec_has(plan.window_label@)
                            &&& plan.task_topic@ == "inspect-storage"@
                            &&& plan.reply_topic@ == "inspect-storage-response"@
                            &&& plan.timeout_ms == 10000
                            &&& plan.operation@ == "storage inspection"@
                            &&& plan.kind is Storage
                            &&& match plan.task_payload.spec_get("action"@) {
                                Some(Value::Str(s)) => s@ == action@,
                                _ => false,
                            }
                            &&& plan.task_payload.spec_get("storage_type"@) == Some(
                                match spec_opt_string(*payload, "storage_type"@)->0 {
                                    Some(t) => Value::Str(t),
                                    None => Value::Null,
                                },
                            )
                            &&& plan.task_payload.spec_get("key_pattern"@) == Some(
                                match spec_opt_string(*payload, "key_pattern"@)->0 {
                                    Some(p) => Value::Str(p),
                                    None => Value::Null,
                                },
                            )
                            &&& plan.task_payload.spec_get("page"@) == Some(
                                match spec_opt_usize(*payload, "page"@)->0 {
                                    Some(p) => Value::UInt(p as u64),
                                    None => Value::Null,
                                },
                            )
                            &&& plan.task_payload.spec_get("page_size"@) == Some(
                                match spec_opt_usize(*payload, "page_size"@)->0 {
                                    Some(p) => Value::UInt(p as u64),
                                    None => Value::Null,
                                },
                            )
                            &&& plan.task_payload.spec_get("db_name"@) == Some(
                                match spec_opt_string(*payload, "db_name"@)->0 {
                                    Some(n) => Value::Str(n),
                                    None => Value::Null,
                                },
                            )
                            &&& plan.task_payload.spec_get("store_name"@) == Some(
                                match spec_opt_string(*payload, "store_name"@)->0 {
                                    Some(n) => Value::Str(n),
                                    None => Value::Null,
                                },
                            )
                        },
                        _ => false,
                    }
                })
            },
            Err(e) => match e {
                Error::SerializationError { message } => !spec_storage_request_decodes(*payload)
                    && message@ == "Invalid payload for storage inspector: "@
                    + spec_storage_decode_error(*payload),
                Error::WindowNotFound { label } => {
                    &&& spec_storage_request_decodes(*payload)
                    &&& spec_storage_payload_validation_error(*payload) is None
                    &&& spec_effective_label(
                        spec_opt_string(*payload, "window_label"@)->0,
                        label@,
                    )
                    &&& !registry.spec_has(label@)
                },
                _ => false,
            },
        },
{
    let req = match parse_storage_inspector_request(payload) {
        Ok(req) => req,
        Err(e) => {
            return Err(e);
        },
    };
    if let Some(m) = validate_storage_request(&req) {
        return Ok(Step::Reply(Envelope::fail(m)));
    }
    let window_label = match resolve_window(registry, &req.window_label) {
        Ok(l) => l,
        Err(e) => {
            return Err(e);
        },
    };
    let task_payload = encode_storage_request(&req);
    Ok(
        Step::Call(
            CallPlan {
                window_label,
                task_topic: String::from_str("inspect-storage"),
                task_payload,
                reply_topic: String::from_str("inspect-storage-response"),
                timeout_ms: 10000,
                operation: String::from_str("storage inspection"),
                kind: ReplyKind::Storage,
            },
        ),
    )
}

/// The application-level error a reply carries: a string error passes
/// through, and an error of any other shape reads as unknown.
pub open spec fn spec_storage_reply_error(v: Value) -> Option<Seq<char>> {
    match v.spec_get("error"@) {
        Some(Value::Str(s)) => Some(s@),
        Some(_) => Some("Unknown error"@),
        None => None,
    }
}

/// Shapes the outcome of an `inspect-storage` bridge call into the final
/// envelope: the reply's `data` field passes through as the envelope data,
/// an absent `data` field reads as null data, and every failure becomes a
/// failed envelope with that failure's message.
pub fn finish_storage_inspector(outcome: CallOutcome) -> (r: Envelope)
    ensures
        r.wf(),
        match outcome {
            CallOutcome::Reply(v) => match spec_storage_reply_error(v) {
                Some(msg) => {
                    &&& !r.success
                    &&& r.error is Some
                    &&& r.error->0@ == "JavaScript error: "@ + msg
                },
                None => {
                    &&& r.success
                    &&& match v.spec_get("data"@) {
                        Some(d) => r.data == Some(d),
                        None => r.data == Some(Value::Null),
                    }
                },
            },
            CallOutcome::TimedOut => {
                &&& !r.success
                &&& r.error is Some
                &&& r.error->0@
                    == "Operation timed out: Timeout waiting for storage inspector response"@
            },
            CallOutcome::PublishFailed(m) => {
                &&& !r.success
                &&& r.error is Some
                &&& r.error->0@ == "Storage operation error: Failed to emit event: "@ + m@
            },
            CallOutcome::MalformedReply(m) => {
                &&& !r.success
                &&& r.error is Some
                &&& r.error->0@ == "JavaScript error: Failed to parse response: "@ + m@
            },
        },
{
    match outcome {
        CallOutcome::Reply(v) => {
            match v.get("error") {
                Some(err_v) => {
                    let msg = match err_v.as_str() {
                        Some(s) => s.clone(),
                        None => String::from_str("Unknown error"),
                    };
                    let e = StorageInspectorError::JavaScriptError(msg);
                    Envelope::fail(e.message())
                },
                None => {
                    let data = match v.take("data") {
                        Some(d) => d,
                        None => Value::Null,
                    };
                    Envelope::ok(data)
                },
            }
        },
        CallOutcome::TimedOut => {
            let e = StorageInspectorError::Timeout(
                String::from_str("Timeout waiting for storage inspector response"),
            );
            let env = Envelope::fail(e.message());
            proof {
                reveal_strlit("Operation timed out: ");
                reveal_strlit("Timeout waiting for storage inspector response");
                reveal_strlit(
                    "Operation timed out: Timeout waiting for storage inspector response",
                );
                assert(env.error->0@
                    =~= "Operation timed out: Timeout waiting for storage inspector response"@);
            }
            env
        },
        CallOutcome::PublishFailed(m) => {
            let mut reason = String::from_str("Failed to emit event: ");
            reason.append(m.as_str());
            let e = StorageInspectorError::WebviewOperation(reason);
            let env = Envelope::fail(e.message());
            proof {
                reveal_strlit("Storage operation error: ");
                reveal_strlit("Failed to emit event: ");
                reveal_strlit("Storage operation error: Failed to emit event: ");
                assert(env.error->0@ =~= "Storage operation error: Failed to emit event: "@
                    + m@);
            }
            env
        },
        CallOutcome::MalformedReply(m) => {
            let mut reason = String::from_str("Failed to parse response: ");
            reason.append(m.as_str());
            let e = StorageInspectorError::JavaScriptError(reason);
            let env = Envelope::fail(e.message());
            proof {
                reveal_strlit("JavaScript error: ");
                reveal_strlit("Failed to parse response: ");
                reveal_strlit("JavaScript error: Failed to parse response: ");
                assert(env.error->0@ =~= "JavaScript error: Failed to parse response: "@ + m@);
            }
            env
        },
    }
}

} // verus!
