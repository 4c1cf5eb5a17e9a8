//! The state-snapshot command: runs a bounded, cycle-safe snapshot of the
//! recognized state containers inside the context, optionally narrowed by
//! a dotted path. The snapshot runs as injected script; the bridge pins the
//! task text's shape — the depth cap and the escaped path are embedded at
//! fixed places, and the path block appears exactly when a path was given.
//! The bounded, cycle-safe walk that both this snapshot and the component
//! introspection rely on is modelled and verified once, as the component
//! module's graph walk.

use vstd::prelude::*;
use crate::bridge::CallOutcome;
use crate::error::Error;
use crate::fields::{
    opt_string_field, opt_u64_field, opt_usize_field, spec_field_error, spec_opt_string,
    spec_opt_u64, spec_opt_usize,
};
use crate::plan::{CallPlan, ReplyKind, Step};
use crate::registry::{resolve_window, spec_effective_label, Registry};
use crate::script::{script_reply_step, spec_script_error, spec_script_result, ScriptStep};
use crate::strutil::{dec_seq, escape_single_quotes, spec_escape_quotes, u64_to_string};
use crate::value::Value;

verus! {

broadcast use vstd::string::group_string_axioms;

/// The decoded request for `state-dump`.
pub struct StateDumpRequest {
    pub window_label: Option<String>,
    pub max_depth: Option<usize>,
    pub path: Option<String>,
    pub timeout_ms: Option<u64>,
}

/// The shaped response for `state-dump`.
pub struct StateDumpResponse {
    pub state: Value,
    pub detected_libraries: Vec<String>,
    pub metadata: StateDumpMetadata,
}

/// How the snapshot ended: whether limits cut it short, what was checked,
/// and what failed to serialize.
pub struct StateDumpMetadata {
    pub truncated: bool,
    pub max_depth_reached: bool,
    pub libraries_checked: Vec<String>,
    pub serialization_errors: Vec<String>,
}

/// Whether a payload decodes into a [`StateDumpRequest`].
pub open spec fn spec_state_dump_request_decodes(payload: Value) -> bool {
    &&& spec_opt_string(payload, "window_label"@) is Some
    &&& spec_opt_usize(payload, "max_depth"@) is Some
    &&& spec_opt_string(payload, "path"@) is Some
    &&& spec_opt_u64(payload, "timeout_ms"@) is Some
}

/// The decode-failure text of the first request field of the wrong shape,
/// in the order the fields are read.
pub open spec fn spec_state_dump_decode_error(payload: Value) -> Seq<char> {
    if spec_opt_string(payload, "window_label"@) is None {
        spec_field_error("window_label"@, "a string"@)
    } else if spec_opt_usize(payload, "max_depth"@) is None {
        spec_field_error("max_depth"@, "an unsigned integer"@)
    } else if spec_opt_string(payload, "path"@) is None {
        spec_field_error("path"@, "a string"@)
    } else {
        spec_field_error("timeout_ms"@, "an unsigned integer"@)
    }
}

/// Decodes the request payload; a field of the wrong shape is a
/// serialization error carrying the decode text.
pub fn parse_state_dump_request(payload: &Value) -> (r: Result<StateDumpRequest, Error>)
    ensures
        match r {
            Ok(req) => {
                &&& spec_state_dump_request_decodes(*payload)
                &&& Some(req.window_label) == spec_opt_string(*payload, "window_label"@)
                &&& Some(req.max_depth) == spec_opt_usize(*payload, "max_depth"@)
                &&& Some(req.path) == spec_opt_string(*payload, "path"@)
                &&& Some(req.timeout_ms) == spec_opt_u64(*payload, "timeout_ms"@)
            },
            Err(e) => {
                &&& !spec_state_dump_request_decodes(*payload)
                &&& e matches Error::SerializationError { message } && message@
                    == "Invalid payload for state_dump: "@ + spec_state_dump_decode_error(
                    *payload,
                )
            },
        },
{
    let window_label = match opt_string_field(payload, "window_label") {
        Ok(v) => v,
        Err(m) => {
            return Err(Error::serialization_error(decode_error(m)));
        },
    };
    let max_depth = match opt_usize_field(payload, "max_depth") {
        Ok(v) => v,
        Err(m) => {
            return Err(Error::serialization_error(decode_error(m)));
        },
    };
    let path = match opt_string_field(payload, "path") {
        Ok(v) => v,
        Err(m) => {
            return Err(Error::serialization_error(decode_error(m)));
        },
    };
    let timeout_ms = match opt_u64_field(payload, "timeout_ms") {
        Ok(v) => v,
        Err(m) => {
            return Err(Error::serialization_error(decode_error(m)));
        },
    };
    Ok(StateDumpRequest { window_label, max_depth, path, timeout_ms })
}

fn decode_error(m: String) -> (r: String)
    ensures
        r@ == "Invalid payload for state_dump: "@ + m@,
{
    let mut s = String::from_str("Invalid payload for state_dump: ");
    s.append(m.as_str());
    s
}

/// The snapshot task text: a fixed script frame around the depth cap, with
/// the path-narrowing block present exactly when a path was given.
pub open spec fn spec_state_dump_code(max_depth: nat, path: Seq<char>) -> Seq<char> {
    state_code_head() + dec_seq(max_depth) + state_code_mid() + (if path.len() > 0 {
        state_code_path_a() + spec_escape_quotes(path) + state_code_path_b()
            + spec_escape_quotes(path) + state_code_path_c()
    } else {
        Seq::<char>::empty()
    }) + state_code_tail()
}

/// The script frame before the depth cap.
pub open spec fn state_code_head() -> Seq<char> {
    "(async () => {
    try {
        const errors = [];
        const libraries = [];
        const MAX_DEPTH = "@
}

/// The snapshot walk: cycle-safe and size-capped, collecting each
/// recognized state container into the result.
pub open spec fn state_code_mid() -> Seq<char> {
    ";
        const MAX_SIZE = 1000000;
        let currentSize = 0;
        const seen = new WeakSet();
        function safeStringify(value, depth) {
            if (depth > MAX_DEPTH) return '[Max depth reached]';
            if (value === null || value === undefined) return value;
            if (typeof value !== 'object') {
                if (typeof value === 'function') return '[Function]';
                return value;
            }
            if (seen.has(value)) return '[Circular Reference]';
            try {
                const str = JSON.stringify(value);
                if (currentSize + str.length > MAX_SIZE) return '[Size limit exceeded]';
                currentSize += str.length;
            } catch (e) {}
            try { seen.add(value); } catch (e) {}
            if (Array.isArray(value)) { return value.map(item => safeStringify(item, depth + 1)); }
            const obj = {};
            for (const key of Object.keys(value).slice(0, 100)) {
                try { obj[key] = safeStringify(value[key], depth + 1); } catch (e) { obj[key] = '[Error: ' + e.message + ']'; }
            }
            return obj;
        }
        function getByPath(obj, path) {
            let current = obj;
            for (const part of path.split('.')) {
                if (current == null) return undefined;
                current = current[part];
            }
            return current;
        }
        const result = {};
        if (window.__zustand_state) { libraries.push('zustand'); result.zustand = safeStringify(window.__zustand_state, 0); }
        if (window.__REDUX_DEVTOOLS_EXTENSION__ && window.__store && typeof window.__store.getState === 'function') { libraries.push('redux'); result.redux = safeStringify(window.__store.getState(), 0); }
        if (window.__PINIA__) { libraries.push('pinia'); result.pinia = safeStringify(window.__PINIA__.state && window.__PINIA__.state.value, 0); }
        if (window.__VUE__) { libraries.push('vue2'); result.vue = safeStringify(window.__VUE__.$data, 0); }
        if (window.__RECOIL_INTERNAL_SNAPSHOT__) { libraries.push('recoil'); result.recoil = safeStringify(window.__RECOIL_INTERNAL_SNAPSHOT__, 0); }
        if (window.__mobxGlobalState) { libraries.push('mobx'); result.mobx = safeStringify(window.__mobxGlobalState, 0); }
        let finalResult = result;
"@
}

/// The opening of the path-narrowing block, before the first copy of the
/// escaped path.
pub open spec fn state_code_path_a() -> Seq<char> {
    "        try {
            const pathValue = getByPath(result, '"@
}

/// The middle of the path-narrowing block, before the second copy.
pub open spec fn state_code_path_b() -> Seq<char> {
    "');
            finalResult = {};
            finalResult['"@
}

/// The close of the path-narrowing block.
pub open spec fn state_code_path_c() -> Seq<char> {
    "'] = safeStringify(pathValue, 0);
        } catch (e) {
            errors.push('path-filter: ' + e.message);
        }
"@
}

/// The script frame after the optional path block: the response shape and
/// its dispatch on the script reply topic.
pub open spec fn state_code_tail() -> Seq<char> {
    "        const response = {
            state: finalResult,
            detected_libraries: libraries,
            metadata: {
                truncated: currentSize > MAX_SIZE,
                max_depth_reached: false,
                libraries_checked: ['zustand', 'redux', 'pinia', 'vue2', 'recoil', 'mobx'],
                serialization_errors: errors
            }
        };
        window.dispatchEvent(new CustomEvent('execute-js-response', { detail: { result: JSON.stringify(response), type: 'object' } }));
    } catch (error) {
        window.dispatchEvent(new CustomEvent('execute-js-response', { detail: { error: 'State dump error: ' + error.message, type: 'error' } }));
    }
})();"@
}

/// Builds the snapshot task text, embedding the depth cap and, when a path
/// was given, the path with its single quotes escaped.
pub fn generate_state_dump_code(max_depth: usize, path: Option<String>) -> (r: String)
    ensures
        r@ == spec_state_dump_code(
            max_depth as nat,
            match path {
                Some(p) => p@,
                None => Seq::<char>::empty(),
            },
        ),
{
    let path_str: String = match path {
        Some(p) => p,
        None => String::new(),
    };
    let mut code = String::from_str(
        "(async () => {
    try {
        const errors = [];
        const libraries = [];
        const MAX_DEPTH = ",
    );
    let depth_str = u64_to_string(max_depth as u64);
    code.append(depth_str.as_str());
    code.append(
        ";
        const MAX_SIZE = 1000000;
        let currentSize = 0;
        const seen = new WeakSet();
        function safeStringify(value, depth) {
            if (depth > MAX_DEPTH) return '[Max depth reached]';
            if (value === null || value === undefined) return value;
            if (typeof value !== 'object') {
                if (typeof value === 'function') return '[Function]';
                return value;
            }
            if (seen.has(value)) return '[Circular Reference]';
            try {
                const str = JSON.stringify(value);
                if (currentSize + str.length > MAX_SIZE) return '[Size limit exceeded]';
                currentSize += str.length;
            } catch (e) {}
            try { seen.add(value); } catch (e) {}
            if (Array.isArray(value)) { return value.map(item => safeStringify(item, depth + 1)); }
            const obj = {};
            for (const key of Object.keys(value).slice(0, 100)) {
                try { obj[key] = safeStringify(value[key], depth + 1); } catch (e) { obj[key] = '[Error: ' + e.message + ']'; }
            }
            return obj;
        }
        function getByPath(obj, path) {
            let current = obj;
            for (const part of path.split('.')) {
                if (current == null) return undefined;
                current = current[part];
            }
            return current;
        }
        const result = {};
        if (window.__zustand_state) { libraries.push('zustand'); result.zustand = safeStringify(window.__zustand_state, 0); }
        if (window.__REDUX_DEVTOOLS_EXTENSION__ && window.__store && typeof window.__store.getState === 'function') { libraries.push('redux'); result.redux = safeStringify(window.__store.getState(), 0); }
        if (window.__PINIA__) { libraries.push('pinia'); result.pinia = safeStringify(window.__PINIA__.state && window.__PINIA__.state.value, 0); }
        if (window.__VUE__) { libraries.push('vue2'); result.vue = safeStringify(window.__VUE__.$data, 0); }
        if (window.__RECOIL_INTERNAL_SNAPSHOT__) { libraries.push('recoil'); result.recoil = safeStringify(window.__RECOIL_INTERNAL_SNAPSHOT__, 0); }
        if (window.__mobxGlobalState) { libraries.push('mobx'); result.mobx = safeStringify(window.__mobxGlobalState, 0); }
        let finalResult = result;
",
    );
    if path_str.as_str().unicode_len() > 0 {
        let escaped = escape_single_quotes(path_str.as_str());
        code.append(
            "        try {
            const pathValue = getByPath(result, '",
        );
        code.append(escaped.as_str());
        code.append(
            "');
            finalResult = {};
            finalResult['",
        );
        code.append(escaped.as_str());
        code.append(
            "'] = safeStringify(pathValue, 0);
        } catch (e) {
            errors.push('path-filter: ' + e.message);
        }
",
        );
    }
    code.append(
        "        const response = {
            state: finalResult,
            detected_libraries: libraries,
            metadata: {
                truncated: currentSize > MAX_SIZE,
                max_depth_reached: false,
                libraries_checked: ['zustand', 'redux', 'pinia', 'vue2', 'recoil', 'mobx'],
                serialization_errors: errors
            }
        };
        window.dispatchEvent(new CustomEvent('execute-js-response', { detail: { result: JSON.stringify(response), type: 'object' } }));
    } catch (error) {
        window.dispatchEvent(new CustomEvent('execute-js-response', { detail: { error: 'State dump error: ' + error.message, type: 'error' } }));
    }
})();",
    );
    proof {
        assert(code@ =~= spec_state_dump_code(
            max_depth as nat,
            match path {
                Some(p) => p@,
                None => Seq::<char>::empty(),
            },
        ));
    }
    code
}

/// Validates a `state-dump` payload, resolves the target context, and
/// plans the bridge round trip: the generated task text is published under
/// `execute-js`, and one reply is awaited on the script reply topic.
pub fn start_state_dump(payload: &Value, registry: &Registry) -> (r: Result<Step, Error>)
    ensures
        match r {
            Ok(step) => {
                &&& spec_state_dump_request_decodes(*payload)
                &&& step matches Step::Call(plan) && {
                    &&& spec_effective_label(
                        spec_opt_string(*payload, "window_label"@)->0,
                        plan.window_label@,
                    )
                    &&& registry.spec_has(plan.window_label@)
                    &&& plan.task_topic@ == "execute-js"@
                    &&& plan.reply_topic@ == "execute-js-response"@
                    &&& plan.timeout_ms == (match spec_opt_u64(*payload, "timeout_ms"@)->0 {
                        Some(t) => t,
                        None => 5000,
                    })
                    &&& plan.kind is Script
                    &&& plan.operation@ == "state dump execution"@
                    &&& plan.task_payload matches Value::Str(code) && code@ == spec_state_dump_code(
                        match spec_opt_usize(*payload, "max_depth"@)->0 {
                            Some(d) => d as nat,
                            None => 10,
                        },
                        match spec_opt_string(*payload, "path"@)->0 {
                            Some(p) => p@,
                            None => Seq::<char>::empty(),
                        },
                    )
                }
            },
            Err(e) => match e {
                Error::SerializationError { message } => !spec_state_dump_request_decodes(
                    *payload,
                ) && message@ == "Invalid payload for state_dump: "@
                    + spec_state_dump_decode_error(*payload),
                Error::WindowNotFound { label } => {
                    &&& spec_state_dump_request_decodes(*payload)
                    &&& spec_effective_label(
                        spec_opt_string(*payload, "window_label"@)->0,
                        label@,
                    )
                    &&& !registry.spec_has(label@)
                },
                _ => false,
            },
        },
{
    let req = match parse_state_dump_request(payload) {
        Ok(req) => req,
        Err(e) => {
            return Err(e);
        },
    };
    let window_label = match resolve_window(registry, &req.window_label) {
        Ok(l) => l,
        Err(e) => {
            return Err(e);
        },
    };
    let max_depth: usize = match req.max_depth {
        Some(d) => d,
        None => 10,
    };
    let timeout_ms: u64 = match req.timeout_ms {
        Some(t) => t,
        None => 5000,
    };
    let code = generate_state_dump_code(max_depth, req.path);
    Ok(
        Step::Call(
            CallPlan {
                window_label,
                task_topic: String::from_str("execute-js"),
                task_payload: Value::Str(code),
                reply_topic: String::from_str("execute-js-response"),
                timeout_ms,
                operation: String::from_str("state dump execution"),
                kind: ReplyKind::Script,
            },
        ),
    )
}

/// Shapes the outcome of a `state-dump` call as far as the reply allows,
/// with this command's failure texts.
pub fn finish_state_dump(outcome: CallOutcome, timeout_ms: u64) -> (r: ScriptStep)
    ensures
        match r {
            ScriptStep::Done(env) => {
                &&& env.wf()
                &&& match outcome {
                    CallOutcome::Reply(v) => match spec_script_error(v) {
                        Some(msg) => !env.success && env.error is Some && env.error->0@ == msg,
                        None => match spec_script_result(v) {
                            Some(_) => false,
                            None => {
                                &&& !env.success
                                &&& env.error is Some
                                &&& if v.spec_get("result"@) is Some {
                                    env.error->0@ == "State dump result is not a string"@
                                } else {
                                    env.error->0@ == "No result in state dump response"@
                                }
                            },
                        },
                    },
                    CallOutcome::TimedOut => {
                        &&& !env.success
                        &&& env.error is Some
                        &&& env.error->0@
                            == "Operation timed out: state dump execution (exceeded "@
                            + dec_seq(timeout_ms as nat) + "ms)"@
                    },
                    CallOutcome::PublishFailed(_) => {
                        &&& !env.success
                        &&& env.error is Some
                        &&& env.error->0@
                            == "Communication error: Failed to emit execute-js event"@
                    },
                    CallOutcome::MalformedReply(m) => {
                        &&& !env.success
                        &&& env.error is Some
                        &&& env.error->0@
                            == "Serialization error: Failed to parse state dump response: "@
                            + m@
                    },
                }
            },
            ScriptStep::ParseResult(raw) => {
                &&& outcome matches CallOutcome::Reply(v) && spec_script_error(v) is None
                    && spec_script_result(v) == Some(raw@)
            },
        },
{
    let r = script_reply_step(
        outcome,
        "state dump execution",
        timeout_ms,
        "Failed to emit execute-js event",
        "Failed to parse state dump response: ",
        "No result in state dump response",
        "State dump result is not a string",
    );
    proof {
        reveal_strlit("Operation timed out: ");
        reveal_strlit("state dump execution");
        reveal_strlit("Operation timed out: state dump execution (exceeded ");
        reveal_strlit(" (exceeded ");
        reveal_strlit("Communication error: ");
        reveal_strlit("Failed to emit execute-js event");
        reveal_strlit("Communication error: Failed to emit execute-js event");
        reveal_strlit("Serialization error: ");
        reveal_strlit("Failed to parse state dump response: ");
        reveal_strlit("Serialization error: Failed to parse state dump response: ");
    }
    r
}

} // verus!
