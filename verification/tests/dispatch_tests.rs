use tauri_mcp::bridge::CallOutcome;
use tauri_mcp::console_logs::{query_console_buffer, ConsoleLogEntry};
use tauri_mcp::dispatch::{dispatch_start, dispatch_finish_call, HostInfo};
use tauri_mcp::plan::Step;
use tauri_mcp::registry::Registry;
use tauri_mcp::script::ScriptStep;
use tauri_mcp::value::Value;

fn host() -> HostInfo {
    HostInfo {
        plugin_version: String::from("1.0.0"),
        rust_version: String::from("1.75"),
        profile: String::from("debug"),
        os: String::from("Linux"),
        platform: String::from("Unix"),
        arch: String::from("x86_64"),
        cpu_count: 4,
    }
}

fn registry_with_main() -> Registry {
    let mut r = Registry::new();
    r.add(String::from("main"));
    r
}

fn obj(fields: Vec<(&str, Value)>) -> Value {
    Value::Obj(fields.into_iter().map(|(k, v)| (String::from(k), v)).collect())
}

fn s(v: &str) -> Value {
    Value::Str(String::from(v))
}

#[test]
fn unknown_command_names_the_command() {
    let step = dispatch_start("frobnicate", &Value::Null, &registry_with_main(), host());
    match step {
        Step::Reply(env) => {
            assert!(!env.success);
            assert!(env.data.is_none());
            assert_eq!(env.error.as_deref(), Some("Unknown command: frobnicate"));
        }
        _ => panic!("unknown command must reply at once"),
    }
}

#[test]
fn known_commands_keep_the_envelope_invariant() {
    let names = [
        "ping",
        "health-check",
        "take-screenshot",
        "get-dom",
        "execute-js",
        "manage-window",
        "simulate-input",
        "hot-reload",
        "get-console-logs",
        "inject-console-capture",
        "network-inspector",
        "inject-network-capture",
        "state-dump",
        "devtools-bridge",
        "get-exceptions",
        "inject-error-tracker",
        "clear-exceptions",
        "get-performance-metrics",
        "storage-inspector",
    ];
    for name in names {
        // An empty registry and an empty payload force many immediate replies;
        // every one of them must satisfy the envelope invariant.
        let step = dispatch_start(name, &obj(vec![]), &Registry::new(), host());
        if let Step::Reply(env) = step {
            if !env.success {
                assert!(env.data.is_none(), "failed envelope carried data for {name}");
            }
            if env.success {
                assert!(env.error.is_none(), "successful envelope carried error for {name}");
            }
        }
    }
}

#[test]
fn health_check_succeeds_without_any_context() {
    let step = dispatch_start("health-check", &obj(vec![]), &Registry::new(), host());
    match step {
        Step::Reply(env) => {
            assert!(env.success);
            assert!(env.error.is_none());
            let data = env.data.expect("health check data");
            match data.get("status").and_then(|v| v.as_str()) {
                Some(st) => assert_eq!(st.as_str(), "healthy"),
                None => panic!("missing status"),
            }
            match data.get("capabilities") {
                Some(Value::Arr(items)) => assert!(!items.is_empty()),
                _ => panic!("missing capabilities"),
            }
            let conn = data.get("connection_status").expect("connection status");
            assert_eq!(conn.get("socket_server_running").and_then(|v| v.as_bool()), Some(true));
        }
        _ => panic!("health check must reply at once"),
    }
}

#[test]
fn window_not_found_carries_the_exact_label() {
    let payload = obj(vec![("window_label", s("ghost"))]);
    let step = dispatch_start("get-console-logs", &payload, &registry_with_main(), host());
    match step {
        Step::Reply(env) => {
            assert!(!env.success);
            assert_eq!(env.error.as_deref(), Some("Window not found: ghost"));
        }
        _ => panic!("a missing window must reply at once"),
    }
}

#[test]
fn window_not_found_uses_default_label() {
    let step = dispatch_start("get-console-logs", &obj(vec![]), &Registry::new(), host());
    match step {
        Step::Reply(env) => {
            assert!(!env.success);
            assert_eq!(env.error.as_deref(), Some("Window not found: main"));
        }
        _ => panic!("a missing window must reply at once"),
    }
}

fn entry(ts: u64, level: &str, message: &str) -> ConsoleLogEntry {
    ConsoleLogEntry {
        timestamp: ts,
        level: String::from(level),
        message: String::from(message),
        args: Vec::new(),
    }
}

#[test]
fn console_logs_end_to_end_filters_before_counting() {
    let registry = registry_with_main();
    let payload = obj(vec![
        ("window_label", s("main")),
        ("level", s("error")),
        ("limit", Value::UInt(10)),
    ]);
    let step = dispatch_start("get-console-logs", &payload, &registry, host());
    let plan = match step {
        Step::Call(plan) => plan,
        _ => panic!("a valid retrieval request must plan a bridge call"),
    };
    assert_eq!(plan.task_topic.as_str(), "get-console-logs");
    assert_eq!(plan.reply_topic.as_str(), "get-console-logs-response");
    assert_eq!(plan.timeout_ms, 10000);

    // A well-behaved context: three buffered "error" entries and seven "info".
    let mut buffered: Vec<ConsoleLogEntry> = Vec::new();
    for i in 0..3 {
        buffered.push(entry(i, "error", "boom"));
    }
    for i in 0..7 {
        buffered.push(entry(100 + i, "info", "fine"));
    }
    let level = plan
        .task_payload
        .get("level")
        .and_then(|v| v.as_str())
        .cloned();
    let limit = plan
        .task_payload
        .get("limit")
        .and_then(|v| v.as_u64())
        .unwrap() as usize;
    let response = query_console_buffer(&buffered, &level, None, None, limit);
    assert_eq!(response.total_count, 3);
    assert_eq!(response.returned_count, 3);

    let reply = tauri_mcp::console_logs::encode_console_logs_response(response);
    let finish = dispatch_finish_call("get-console-logs", CallOutcome::Reply(reply), 10000);
    match finish {
        ScriptStep::Done(env) => {
            assert!(env.success);
            assert!(env.error.is_none());
            let data = env.data.expect("console data");
            assert_eq!(data.get("returned_count").and_then(|v| v.as_u64()), Some(3));
            assert_eq!(data.get("total_count").and_then(|v| v.as_u64()), Some(3));
            match data.get("logs") {
                Some(Value::Arr(items)) => assert_eq!(items.len(), 3),
                _ => panic!("missing logs"),
            }
        }
        _ => panic!("a console reply finishes at once"),
    }
}

#[test]
fn console_timeout_is_folded_into_a_failed_envelope() {
    let finish = dispatch_finish_call("get-console-logs", CallOutcome::TimedOut, 10000);
    match finish {
        ScriptStep::Done(env) => {
            assert!(!env.success);
            assert!(env.data.is_none());
            assert_eq!(
                env.error.as_deref(),
                Some("Operation timed out: Timeout waiting for console logs response")
            );
        }
        _ => panic!("a timeout finishes at once"),
    }
}

#[test]
fn context_reported_error_folds_into_failed_envelope() {
    let reply = obj(vec![("error", s("console capture not installed"))]);
    let finish = dispatch_finish_call("get-console-logs", CallOutcome::Reply(reply), 10000);
    match finish {
        ScriptStep::Done(env) => {
            assert!(!env.success);
            assert_eq!(
                env.error.as_deref(),
                Some("Console operation error: console capture not installed")
            );
        }
        _ => panic!("a reply error finishes at once"),
    }
}

#[test]
fn devtools_script_error_passes_through_verbatim() {
    let reply = obj(vec![("error", s("DevTools bridge error: hook missing"))]);
    let finish = dispatch_finish_call("devtools-bridge", CallOutcome::Reply(reply), 5000);
    match finish {
        ScriptStep::Done(env) => {
            assert!(!env.success);
            assert_eq!(env.error.as_deref(), Some("DevTools bridge error: hook missing"));
        }
        _ => panic!("a reply error finishes at once"),
    }
}

#[test]
fn devtools_result_string_is_handed_on_for_decoding() {
    let reply = obj(vec![("result", s("{\"components\":[]}"))]);
    let finish = dispatch_finish_call("devtools-bridge", CallOutcome::Reply(reply), 5000);
    match finish {
        ScriptStep::ParseResult(raw) => assert_eq!(raw.as_str(), "{\"components\":[]}"),
        _ => panic!("a string result still needs decoding"),
    }
}

#[test]
fn devtools_timeout_names_operation_and_duration() {
    let finish = dispatch_finish_call("devtools-bridge", CallOutcome::TimedOut, 5000);
    match finish {
        ScriptStep::Done(env) => {
            assert!(!env.success);
            assert_eq!(
                env.error.as_deref(),
                Some("Operation timed out: devtools bridge execution (exceeded 5000ms)")
            );
        }
        _ => panic!("a timeout finishes at once"),
    }
}

#[test]
fn script_raw_result_fallback_is_still_successful() {
    let env = tauri_mcp::dispatch::dispatch_finish_parse(
        String::from("not json"),
        Err(String::from("expected value at line 1")),
    );
    assert!(env.success);
    let data = env.data.expect("fallback data");
    assert_eq!(
        data.get("raw_result").and_then(|v| v.as_str()).map(|s| s.as_str()),
        Some("not json")
    );
    assert_eq!(
        data.get("parse_error").and_then(|v| v.as_str()).map(|s| s.as_str()),
        Some("expected value at line 1")
    );
}

#[test]
fn storage_reply_data_passes_through() {
    let reply = obj(vec![("data", obj(vec![("total_items", Value::UInt(5))]))]);
    let finish = dispatch_finish_call("storage-inspector", CallOutcome::Reply(reply), 10000);
    match finish {
        ScriptStep::Done(env) => {
            assert!(env.success);
            let data = env.data.expect("storage data");
            assert_eq!(data.get("total_items").and_then(|v| v.as_u64()), Some(5));
        }
        _ => panic!("a storage reply finishes at once"),
    }
}

#[test]
fn storage_unsupported_action_is_reported() {
    let payload = obj(vec![("window_label", s("main")), ("action", s("explode"))]);
    let step = dispatch_start("storage-inspector", &payload, &registry_with_main(), host());
    match step {
        Step::Reply(env) => {
            assert!(!env.success);
            assert_eq!(
                env.error.as_deref(),
                Some("Unsupported storage inspector action: explode")
            );
        }
        _ => panic!("an unsupported action must reply at once"),
    }
}

#[test]
fn storage_get_requires_storage_type() {
    let payload = obj(vec![("window_label", s("main")), ("action", s("get_storage"))]);
    let step = dispatch_start("storage-inspector", &payload, &registry_with_main(), host());
    match step {
        Step::Reply(env) => {
            assert!(!env.success);
            assert_eq!(
                env.error.as_deref(),
                Some("storage_type is required for get_storage action")
            );
        }
        _ => panic!("a missing storage_type must reply at once"),
    }
}

#[test]
fn network_inspector_routes_actions() {
    let registry = registry_with_main();
    let get = obj(vec![("window_label", s("main")), ("action", s("get_requests"))]);
    match dispatch_start("network-inspector", &get, &registry, host()) {
        Step::Call(plan) => {
            assert_eq!(plan.task_topic.as_str(), "get-network-requests");
            assert_eq!(plan.timeout_ms, 15000);
            assert_eq!(plan.task_payload.get("limit").and_then(|v| v.as_u64()), Some(100));
        }
        _ => panic!("get_requests must plan a bridge call"),
    }
    let stop = obj(vec![("window_label", s("main")), ("action", s("stop_capture"))]);
    match dispatch_start("network-inspector", &stop, &registry, host()) {
        Step::Notify(plan) => {
            assert_eq!(plan.topic.as_str(), "stop-network-capture");
            assert_eq!(
                plan.ok_data.get("capture_active").and_then(|v| v.as_bool()),
                Some(false)
            );
        }
        _ => panic!("stop_capture must plan a notification"),
    }
    let bad = obj(vec![("window_label", s("main")), ("action", s("nope"))]);
    match dispatch_start("network-inspector", &bad, &registry, host()) {
        Step::Reply(env) => {
            assert!(!env.success);
            assert_eq!(env.error.as_deref(), Some("Parse error: Unknown action: nope"));
        }
        _ => panic!("an unknown action must reply at once"),
    }
}

#[test]
fn bad_payload_is_a_serialization_error() {
    let payload = obj(vec![("limit", s("many"))]);
    let step = dispatch_start("get-console-logs", &payload, &registry_with_main(), host());
    match step {
        Step::Reply(env) => {
            assert!(!env.success);
            assert_eq!(
                env.error.as_deref(),
                Some(
                    "Serialization error: Invalid payload for console logs: \
                     field `limit`: expected an unsigned integer"
                )
            );
        }
        _ => panic!("a bad payload must reply at once"),
    }
}

#[test]
fn inject_error_tracker_defaults_buffer_size() {
    let payload = obj(vec![("window_label", s("main"))]);
    let step = dispatch_start("inject-error-tracker", &payload, &registry_with_main(), host());
    match step {
        Step::Notify(plan) => {
            assert_eq!(plan.topic.as_str(), "inject-error-tracker");
            assert_eq!(
                plan.payload.get("circular_buffer_size").and_then(|v| v.as_u64()),
                Some(1000)
            );
            assert_eq!(
                plan.ok_data.get("message").and_then(|v| v.as_str()).map(|s| s.as_str()),
                Some("Error tracking script injected successfully")
            );
            assert_eq!(
                plan.ok_data.get("circular_buffer_size").and_then(|v| v.as_u64()),
                Some(1000)
            );
        }
        _ => panic!("the injection must plan a notification"),
    }
}

#[test]
fn failed_publish_becomes_a_communication_error() {
    let payload = obj(vec![("window_label", s("main"))]);
    let step = dispatch_start("inject-console-capture", &payload, &registry_with_main(), host());
    let plan = match step {
        Step::Notify(plan) => plan,
        _ => panic!("the injection must plan a notification"),
    };
    let env = tauri_mcp::plan::finish_notify(
        plan,
        tauri_mcp::plan::NotifyOutcome::Failed(String::from("window closed")),
    );
    assert!(!env.success);
    assert!(env.data.is_none());
    assert_eq!(
        env.error.as_deref(),
        Some("Communication error: Failed to emit injection event")
    );
}

#[test]
fn successful_notify_keeps_prepared_data() {
    let payload = obj(vec![("window_label", s("main"))]);
    let step = dispatch_start("clear-exceptions", &payload, &registry_with_main(), host());
    let plan = match step {
        Step::Notify(plan) => plan,
        _ => panic!("clearing must plan a notification"),
    };
    assert_eq!(plan.topic.as_str(), "clear-exceptions");
    let env = tauri_mcp::plan::finish_notify(plan, tauri_mcp::plan::NotifyOutcome::Sent);
    assert!(env.success);
    let data = env.data.expect("confirmation data");
    assert_eq!(
        data.get("message").and_then(|v| v.as_str()).map(|s| s.as_str()),
        Some("Exceptions cleared")
    );
}

#[test]
fn storage_validates_before_resolving_the_window() {
    // An invalid request is answered by validation even when the window is
    // absent; a valid request against an absent window is a window error.
    let no_windows = Registry::new();
    let invalid = obj(vec![("window_label", s("ghost")), ("action", s("get_storage"))]);
    match dispatch_start("storage-inspector", &invalid, &no_windows, host()) {
        Step::Reply(env) => {
            assert!(!env.success);
            assert_eq!(
                env.error.as_deref(),
                Some("storage_type is required for get_storage action")
            );
        }
        _ => panic!("validation must answer before resolution"),
    }
    let valid = obj(vec![
        ("window_label", s("ghost")),
        ("action", s("list_indexeddb")),
    ]);
    match dispatch_start("storage-inspector", &valid, &no_windows, host()) {
        Step::Reply(env) => {
            assert!(!env.success);
            assert_eq!(env.error.as_deref(), Some("Window not found: ghost"));
        }
        _ => panic!("a valid request against an absent window is a window error"),
    }
    let good = obj(vec![
        ("window_label", s("main")),
        ("action", s("list_indexeddb")),
    ]);
    match dispatch_start("storage-inspector", &good, &registry_with_main(), host()) {
        Step::Call(plan) => {
            assert_eq!(plan.task_topic.as_str(), "inspect-storage");
            assert_eq!(plan.timeout_ms, 10000);
            assert_eq!(
                plan.task_payload.get("action").and_then(|v| v.as_str()).map(|x| x.as_str()),
                Some("list_indexeddb")
            );
        }
        _ => panic!("a valid resolvable request must plan the bridge call"),
    }
}

#[test]
fn network_resolves_window_before_action_dispatch() {
    let no_windows = Registry::new();
    let unknown = obj(vec![("window_label", s("ghost")), ("action", s("nope"))]);
    match dispatch_start("network-inspector", &unknown, &no_windows, host()) {
        Step::Reply(env) => {
            assert!(!env.success);
            assert_eq!(env.error.as_deref(), Some("Window not found: ghost"));
        }
        _ => panic!("resolution must come before action dispatch"),
    }
}

#[test]
fn health_check_reports_main_window_availability() {
    let step = dispatch_start("health-check", &obj(vec![]), &registry_with_main(), host());
    match step {
        Step::Reply(env) => {
            let data = env.data.expect("health data");
            let wv = data.get("webview_status").expect("webview status");
            assert_eq!(wv.get("main_window_available").and_then(|v| v.as_bool()), Some(true));
            match data.get("capabilities") {
                Some(Value::Arr(items)) => {
                    assert_eq!(items.len(), 20);
                    assert!(items.iter().any(
                        |c| c.as_str().map(|x| x.as_str()) == Some("health_check")
                    ));
                }
                _ => panic!("missing capabilities"),
            }
        }
        _ => panic!("health check must reply at once"),
    }
    let step = dispatch_start("health-check", &obj(vec![]), &Registry::new(), host());
    match step {
        Step::Reply(env) => {
            assert!(env.success);
            let data = env.data.expect("health data");
            let wv = data.get("webview_status").expect("webview status");
            assert_eq!(wv.get("main_window_available").and_then(|v| v.as_bool()), Some(false));
        }
        _ => panic!("health check must reply at once"),
    }
}
