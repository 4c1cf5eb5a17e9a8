use tauri_mcp::console_logs::{query_console_buffer, ConsoleLogEntry, LogLevel};
use tauri_mcp::devtools_bridge::{component_tree, generate_devtools_bridge_code, GraphNode};
use tauri_mcp::error::Error;
use tauri_mcp::error_tracker::{query_exception_buffer, ErrorType, ExceptionEntry};
use tauri_mcp::hot_reload::{finish_hot_reload, ReloadOutcome};
use tauri_mcp::network_inspector::{HttpMethod, RequestType};
use tauri_mcp::performance::{generate_performance_metrics_code, ResourceFilter};
use tauri_mcp::registry::{resolve_window, Registry};
use tauri_mcp::screenshot::{find_window, WindowMeta};
use tauri_mcp::state_dump::generate_state_dump_code;
use tauri_mcp::storage_inspector::StorageType;
use tauri_mcp::strutil::{escape_single_quotes, str_contains};
use tauri_mcp::value::Value;

fn entry(ts: u64, level: &str, message: &str) -> ConsoleLogEntry {
    ConsoleLogEntry {
        timestamp: ts,
        level: String::from(level),
        message: String::from(message),
        args: vec![String::from("arg")],
    }
}

#[test]
fn limit_caps_returned_count_but_not_total() {
    let mut buffered: Vec<ConsoleLogEntry> = Vec::new();
    for i in 0..150u64 {
        buffered.push(entry(i, "info", "spam"));
    }
    let r = query_console_buffer(&buffered, &None, None, None, 50);
    assert_eq!(r.returned_count, 50);
    assert_eq!(r.total_count, 150);
    assert_eq!(r.logs.len(), 50);
    // The returned entries are the first fifty, in buffer order.
    assert_eq!(r.logs[0].timestamp, 0);
    assert_eq!(r.logs[49].timestamp, 49);
}

#[test]
fn console_query_applies_level_and_window() {
    let buffered = vec![
        entry(10, "error", "a"),
        entry(20, "info", "b"),
        entry(30, "ERROR", "c"),
        entry(40, "error", "d"),
    ];
    let r = query_console_buffer(&buffered, &Some(String::from("Error")), Some(15), Some(35), 10);
    // Only the entry at 30 is an error inside the window; matching is
    // case-insensitive on both sides.
    assert_eq!(r.total_count, 1);
    assert_eq!(r.logs[0].message.as_str(), "c");
    let all = query_console_buffer(&buffered, &Some(String::from("all")), None, None, 10);
    assert_eq!(all.total_count, 4);
}

fn exception(ts: u64, kind: &str, message: &str) -> ExceptionEntry {
    ExceptionEntry {
        id: String::from("e1"),
        error_type: String::from(kind),
        message: String::from(message),
        stack_trace: Vec::new(),
        first_occurrence_ms: ts,
        last_occurrence_ms: ts,
        frequency: 1,
        error_details: None,
    }
}

#[test]
fn exception_query_honors_limit_and_pattern() {
    let mut buffered: Vec<ExceptionEntry> = Vec::new();
    for i in 0..150u64 {
        buffered.push(exception(i, "uncaught", "database timeout"));
    }
    let r = query_exception_buffer(&buffered, &None, &None, None, None, 50);
    assert_eq!(r.returned_count, 50);
    assert_eq!(r.total_count, 150);

    let buffered = vec![
        exception(1, "uncaught", "database timeout"),
        exception(2, "uncaught", "null dereference"),
        exception(3, "reactboundary", "database timeout"),
    ];
    let r = query_exception_buffer(
        &buffered,
        &Some(String::from("uncaught")),
        &Some(String::from("database")),
        None,
        None,
        10,
    );
    assert_eq!(r.total_count, 1);
    assert_eq!(r.exceptions[0].last_occurrence_ms, 1);
}

#[test]
fn cyclic_component_graph_terminates_with_circular_marker() {
    // Node zero and node one point at each other: a cycle.
    let nodes = vec![
        GraphNode { name: String::from("App"), children: vec![1] },
        GraphNode { name: String::from("Child"), children: vec![0] },
    ];
    let r = component_tree(&nodes, 0, 10, 500);
    assert_eq!(r.total_components, 2);
    assert!(r.entries.iter().any(|e| e.circular && e.name.as_str() == "[Circular Reference]"));
    assert!(!r.max_depth_reached);
}

#[test]
fn deep_chain_sets_max_depth_flag() {
    let nodes = vec![
        GraphNode { name: String::from("a"), children: vec![1] },
        GraphNode { name: String::from("b"), children: vec![2] },
        GraphNode { name: String::from("c"), children: vec![3] },
        GraphNode { name: String::from("d"), children: vec![] },
    ];
    let r = component_tree(&nodes, 0, 1, 500);
    assert!(r.max_depth_reached);
    assert_eq!(r.total_components, 2);
}

#[test]
fn size_cap_sets_truncated_flag() {
    let nodes = vec![
        GraphNode { name: String::from("a"), children: vec![1, 2] },
        GraphNode { name: String::from("b"), children: vec![] },
        GraphNode { name: String::from("c"), children: vec![] },
    ];
    let r = component_tree(&nodes, 0, 10, 1);
    assert!(r.truncated);
    assert_eq!(r.total_components, 1);
}

#[test]
fn level_names_parse_case_insensitively() {
    assert_eq!(LogLevel::from_str("Debug"), Some(LogLevel::Debug));
    assert_eq!(LogLevel::from_str("INFO"), Some(LogLevel::Info));
    assert_eq!(LogLevel::from_str("warn"), Some(LogLevel::Warn));
    assert_eq!(LogLevel::from_str("ERROR"), Some(LogLevel::Error));
    assert_eq!(LogLevel::from_str("all"), None);
    assert_eq!(LogLevel::from_str("fatal"), None);
}

#[test]
fn error_type_names_parse() {
    assert_eq!(ErrorType::from_str("Uncaught"), Some(ErrorType::Uncaught));
    assert_eq!(
        ErrorType::from_str("unhandledRejection"),
        Some(ErrorType::UnhandledRejection)
    );
    assert_eq!(ErrorType::from_str("REACTBOUNDARY"), Some(ErrorType::ReactBoundary));
    assert_eq!(ErrorType::from_str("panic"), None);
}

#[test]
fn http_method_names_parse() {
    assert_eq!(HttpMethod::from_str("get"), Some(HttpMethod::Get));
    assert_eq!(HttpMethod::from_str("Post"), Some(HttpMethod::Post));
    assert_eq!(HttpMethod::from_str("DELETE"), Some(HttpMethod::Delete));
    assert_eq!(HttpMethod::from_str("brew"), None);
}

#[test]
fn request_type_names_parse() {
    assert_eq!(RequestType::from_str("Fetch"), Some(RequestType::Fetch));
    assert_eq!(RequestType::from_str("XHR"), Some(RequestType::Xhr));
    assert_eq!(RequestType::from_str("ws"), None);
}

#[test]
fn storage_type_names_parse() {
    assert_eq!(StorageType::from_str("localStorage"), Some(StorageType::LocalStorage));
    assert_eq!(StorageType::from_str("SESSIONSTORAGE"), Some(StorageType::SessionStorage));
    assert_eq!(StorageType::from_str("indexeddb"), Some(StorageType::IndexedDB));
    assert_eq!(StorageType::from_str("cookies"), None);
}

#[test]
fn error_messages_render_exactly() {
    assert_eq!(
        Error::window_not_found(String::from("main")).message().as_str(),
        "Window not found: main"
    );
    assert_eq!(
        Error::window_operation_failed(String::from("reload"), String::from("gone"))
            .message()
            .as_str(),
        "Window operation failed: reload - gone"
    );
    assert_eq!(
        Error::invalid_parameter(
            String::from("limit"),
            String::from("integer"),
            String::from("string")
        )
        .message()
        .as_str(),
        "Invalid parameter 'limit': expected integer, got string"
    );
    assert_eq!(
        Error::timeout_error(String::from("console logs retrieval"), 1500)
            .message()
            .as_str(),
        "Operation timed out: console logs retrieval (exceeded 1500ms)"
    );
    assert_eq!(
        Error::serialization_error(String::from("bad json")).message().as_str(),
        "Serialization error: bad json"
    );
    assert_eq!(
        Error::communication_error(String::from("emit failed")).message().as_str(),
        "Communication error: emit failed"
    );
    assert_eq!(
        Error::communication_error_with_context(
            String::from("emit failed"),
            String::from("window: main")
        )
        .message()
        .as_str(),
        "Communication error: emit failed"
    );
    assert_eq!(
        Error::window_operation_failed_with_context(
            String::from("capture"),
            String::from("denied"),
            String::from("window: main")
        )
        .message()
        .as_str(),
        "Window operation failed: capture - denied"
    );
    assert_eq!(Error::generic(String::from("boom")).message().as_str(), "boom");
}

#[test]
fn resolve_window_defaults_to_main() {
    let mut registry = Registry::new();
    registry.add(String::from("main"));
    registry.add(String::from("settings"));
    match resolve_window(&registry, &None) {
        Ok(label) => assert_eq!(label.as_str(), "main"),
        Err(_) => panic!("the default label must resolve"),
    }
    match resolve_window(&registry, &Some(String::from("settings"))) {
        Ok(label) => assert_eq!(label.as_str(), "settings"),
        Err(_) => panic!("a live label must resolve"),
    }
    match resolve_window(&registry, &Some(String::from("ghost"))) {
        Err(Error::WindowNotFound { label }) => assert_eq!(label.as_str(), "ghost"),
        _ => panic!("a missing label must be a window-not-found error"),
    }
}

#[test]
fn escaping_protects_single_quotes() {
    assert_eq!(escape_single_quotes("App"), "App");
    assert_eq!(escape_single_quotes("it's"), "it\\'s");
    assert_eq!(escape_single_quotes("''"), "\\'\\'");
    assert_eq!(escape_single_quotes(""), "");
}

#[test]
fn substring_search_matches_std() {
    assert!(str_contains("hello world", "lo wo"));
    assert!(str_contains("hello", ""));
    assert!(!str_contains("hello", "world"));
    assert!(!str_contains("", "a"));
    assert!(str_contains("aaa", "aaa"));
}

#[test]
fn devtools_code_embeds_depth_and_escaped_filter() {
    let code = generate_devtools_bridge_code(7, Some(String::from("App's")));
    assert!(code.contains("const MAX_DEPTH = 7;"));
    assert!(code.contains("const FILTER = 'App\\'s';"));
    let bare = generate_devtools_bridge_code(10, None);
    assert!(bare.contains("const MAX_DEPTH = 10;"));
    assert!(bare.contains("const FILTER = '';"));
}

#[test]
fn state_dump_code_embeds_path_block_only_when_given() {
    let with_path = generate_state_dump_code(5, Some(String::from("store.user")));
    assert!(with_path.contains("const MAX_DEPTH = 5;"));
    assert!(with_path.contains("getByPath(result, 'store.user')"));
    let without = generate_state_dump_code(5, None);
    assert!(!without.contains("getByPath(result, '"));
}

#[test]
fn performance_code_respects_toggles_and_filter() {
    let filter = ResourceFilter {
        resource_type: Some(vec![String::from("script"), String::from("fetch")]),
        min_duration_ms: Some(250),
        max_duration_ms: None,
        url_pattern: None,
    };
    let code = generate_performance_metrics_code(true, true, false, false, false, Some(filter));
    assert!(code.contains("navigation_timing"));
    assert!(code.contains("resourceTypeFilter = [\"script\", \"fetch\"];"));
    assert!(code.contains("minDurationMs = 250;"));
    assert!(code.contains("maxDurationMs = Infinity;"));
    assert!(!code.contains("user_timing"));
    assert!(!code.contains("memory_usage"));
    assert!(!code.contains("long_tasks"));

    let minimal = generate_performance_metrics_code(false, false, false, false, false, None);
    assert!(!minimal.contains("navigation_timing"));
    assert!(minimal.contains("paint_timing"));
}

#[test]
fn hot_reload_outcomes_shape_the_envelope() {
    let ok = finish_hot_reload(String::from("main"), ReloadOutcome::Reloaded);
    assert!(ok.success);
    let data = ok.data.expect("reload data");
    assert_eq!(
        data.get("message").and_then(|v| v.as_str()).map(|s| s.as_str()),
        Some("Successfully reloaded window: main")
    );
    assert_eq!(data.get("success").and_then(|v| v.as_bool()), Some(true));

    let soft = finish_hot_reload(
        String::from("main"),
        ReloadOutcome::NavigateFailed(String::from("target lost")),
    );
    assert!(!soft.success);
    assert_eq!(
        soft.error.as_deref(),
        Some("Failed to reload window main: target lost")
    );

    let hard = finish_hot_reload(
        String::from("main"),
        ReloadOutcome::UrlUnavailable(String::from("no url")),
    );
    assert!(!hard.success);
    assert_eq!(
        hard.error.as_deref(),
        Some("Window operation failed: get window URL - no url")
    );
}

#[test]
fn window_search_skips_minimized_and_ignores_case() {
    let windows = vec![
        WindowMeta {
            title: String::from("My App"),
            app_name: String::from("MyApp"),
            minimized: true,
        },
        WindowMeta {
            title: String::from("Other"),
            app_name: String::from("Terminal"),
            minimized: false,
        },
        WindowMeta {
            title: String::from("My App"),
            app_name: String::from("MyApp"),
            minimized: false,
        },
    ];
    assert_eq!(find_window(&windows, "My App", "myapp"), Some(2));
    assert_eq!(find_window(&windows, "My App", "browser"), None);
    assert_eq!(find_window(&windows, "My App", ""), None);
}

#[test]
fn value_lookup_takes_first_binding() {
    let v = Value::Obj(vec![
        (String::from("k"), Value::UInt(1)),
        (String::from("k"), Value::UInt(2)),
    ]);
    assert_eq!(v.get("k").and_then(|x| x.as_u64()), Some(1));
    assert!(v.get("missing").is_none());
    assert_eq!(v.take("k").and_then(|x| x.as_u64()), Some(1));
}

fn captured(ts: u64, url: &str, method: &str, duration: Option<u64>) -> tauri_mcp::network_inspector::NetworkRequest {
    tauri_mcp::network_inspector::NetworkRequest {
        id: String::from("r1"),
        url: String::from(url),
        method: String::from(method),
        request_type: String::from("fetch"),
        status_code: Some(200),
        request_headers: Vec::new(),
        response_headers: Vec::new(),
        request_body: None,
        response_body: None,
        error: None,
        start_time_ms: ts,
        end_time_ms: duration.map(|d| ts + d),
        duration_ms: duration,
    }
}

#[test]
fn network_query_honors_limit() {
    let mut buffered = Vec::new();
    for i in 0..150u64 {
        buffered.push(captured(i, "https://api.example/a", "GET", Some(10)));
    }
    let filter = tauri_mcp::network_inspector::NetworkRequestFilter {
        url_pattern: None,
        method: None,
        status_code: None,
        min_duration_ms: None,
        max_duration_ms: None,
        request_type: None,
        start_time_ms: None,
        end_time_ms: None,
        limit: Some(50),
    };
    let r = tauri_mcp::network_inspector::query_network_buffer(&buffered, &filter, 50, true);
    assert_eq!(r.returned_count, 50);
    assert_eq!(r.total_count, 150);
    assert!(r.capture_active);
}

#[test]
fn network_query_applies_filters() {
    let buffered = vec![
        captured(10, "https://api.example/users", "GET", Some(30)),
        captured(20, "https://api.example/users", "post", Some(300)),
        captured(30, "https://cdn.example/app.js", "GET", Some(40)),
        captured(40, "https://api.example/users", "GET", None),
    ];
    let filter = tauri_mcp::network_inspector::NetworkRequestFilter {
        url_pattern: Some(String::from("api.example")),
        method: Some(String::from("get")),
        status_code: Some(200),
        min_duration_ms: Some(20),
        max_duration_ms: Some(100),
        request_type: Some(String::from("FETCH")),
        start_time_ms: None,
        end_time_ms: None,
        limit: Some(100),
    };
    // Only the first entry matches: the second is a POST, the third is on
    // another host, and the fourth never finished, so a duration bound
    // excludes it.
    let r = tauri_mcp::network_inspector::query_network_buffer(&buffered, &filter, 100, false);
    assert_eq!(r.total_count, 1);
    assert_eq!(r.requests[0].start_time_ms, 10);
    assert!(!r.capture_active);
}
