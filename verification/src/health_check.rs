//! The health-check command: local introspection only. It succeeds
//! whether or not any context exists, reporting the capability list, build
//! and system information, and the connection and webview status.

use vstd::prelude::*;
use crate::envelope::Envelope;
use crate::registry::Registry;
use crate::value::{lemma_obj_get_at, obj_get, Value};

verus! {

broadcast use vstd::string::group_string_axioms;

/// Build identity, as the host binary reports it.
pub struct BuildInfo {
    pub version: String,
    pub rust_version: String,
    pub profile: String,
}

/// The machine the host runs on, as the host reports it.
pub struct SystemInfo {
    pub os: String,
    pub platform: String,
    pub arch: String,
    pub cpu_count: usize,
}

/// Whether the transport and the event system are up. The socket server is
/// running whenever a health check can be answered at all.
pub struct ConnectionStatus {
    pub socket_server_running: bool,
    pub event_system_available: bool,
}

/// Whether a webview is available, and whether the default context is.
pub struct WebviewStatus {
    pub webview_available: bool,
    pub main_window_available: bool,
}

/// The full health report.
pub struct HealthCheckResponse {
    pub status: String,
    pub plugin_version: String,
    pub build_info: BuildInfo,
    pub system_info: SystemInfo,
    pub capabilities: Vec<String>,
    pub connection_status: ConnectionStatus,
    pub webview_status: WebviewStatus,
}

/// The capability list: one stable name per command the dispatcher serves.
pub fn detect_capabilities() -> (r: Vec<String>)
    ensures
        r@.len() == 20,
        r@[0]@ == "take_screenshot"@,
        r@[19]@ == "health_check"@,
{
    let mut caps: Vec<String> = Vec::new();
    caps.push(String::from_str("take_screenshot"));
    caps.push(String::from_str("get_dom"));
    caps.push(String::from_str("execute_js"));
    caps.push(String::from_str("manage_window"));
    caps.push(String::from_str("simulate_input"));
    caps.push(String::from_str("storage_inspector"));
    caps.push(String::from_str("hot_reload"));
    caps.push(String::from_str("get_console_logs"));
    caps.push(String::from_str("inject_console_capture"));
    caps.push(String::from_str("network_inspector"));
    caps.push(String::from_str("inject_network_capture"));
    caps.push(String::from_str("state_dump"));
    caps.push(String::from_str("devtools_bridge"));
    caps.push(String::from_str("get_exceptions"));
    caps.push(String::from_str("inject_error_tracker"));
    caps.push(String::from_str("clear_exceptions"));
    caps.push(String::from_str("get_performance_metrics"));
    caps.push(String::from_str("ping"));
    caps.push(String::from_str("get_element_position"));
    caps.push(String::from_str("health_check"));
    caps
}

/// Whether the default `"main"` context is live.
pub fn check_webview_status(registry: &Registry) -> (r: WebviewStatus)
    ensures
        r.webview_available,
        r.main_window_available == registry.spec_has("main"@),
{
    let main_window_available = registry.has("main");
    WebviewStatus { webview_available: true, main_window_available }
}

/// Builds the health report from the host-provided identity values and the
/// registry snapshot: the status is always healthy, the capability list is
/// never empty, and the socket server is reported running — a health check
/// can only be answered over a running server.
pub fn build_health_check_response(
    plugin_version: String,
    rust_version: String,
    profile: String,
    os: String,
    platform: String,
    arch: String,
    cpu_count: usize,
    registry: &Registry,
) -> (r: HealthCheckResponse)
    ensures
        r.status@ == "healthy"@,
        r.capabilities@.len() == 20,
        r.capabilities@[0]@ == "take_screenshot"@,
        r.capabilities@[19]@ == "health_check"@,
        r.connection_status.socket_server_running,
        r.connection_status.event_system_available,
        r.webview_status.webview_available,
        r.webview_status.main_window_available == registry.spec_has("main"@),
{
    let capabilities = detect_capabilities();
    let webview_status = check_webview_status(registry);
    let connection_status = ConnectionStatus {
        socket_server_running: true,
        event_system_available: true,
    };
    HealthCheckResponse {
        status: String::from_str("healthy"),
        plugin_version: plugin_version.clone(),
        build_info: BuildInfo { version: plugin_version, rust_version, profile },
        system_info: SystemInfo { os, platform, arch, cpu_count },
        capabilities,
        connection_status,
        webview_status,
    }
}

/// Whether an envelope's data carries a healthy report: a non-empty
/// capability list and a running socket server, the shape the health-check
/// command promises on every dispatch.
pub open spec fn spec_health_data_ok(v: Value) -> bool {
    &&& match v.spec_get("status"@) {
        Some(Value::Str(s)) => s@ == "healthy"@,
        _ => false,
    }
    &&& match v.spec_get("capabilities"@) {
        Some(Value::Arr(items)) => items@.len() > 0,
        _ => false,
    }
    &&& match v.spec_get("connection_status"@) {
        Some(cs) => cs.spec_get("socket_server_running"@) == Some(Value::Bool(true)),
        _ => false,
    }
}

/// Encodes the health report as the envelope's data object.
pub fn encode_health_check_response(resp: HealthCheckResponse) -> (r: Value)
    requires
        resp.status@ == "healthy"@,
        resp.capabilities@.len() > 0,
        resp.connection_status.socket_server_running,
    ensures
        spec_health_data_ok(r),
        match r.spec_get("capabilities"@) {
            Some(Value::Arr(items)) => items@.len() == resp.capabilities@.len() && forall|j: int|
                0 <= j < items@.len() ==> (#[trigger] items@[j]) is Str && items@[j]->Str_0@
                    == resp.capabilities@[j]@,
            _ => false,
        },
        match r.spec_get("webview_status"@) {
            Some(ws) => ws.spec_get("main_window_available"@) == Some(
                Value::Bool(resp.webview_status.main_window_available),
            ),
            _ => false,
        },
{
    let mut caps: Vec<Value> = Vec::new();
    let n = resp.capabilities.len();
    let mut i: usize = 0;
    while i < n
        invariant
            n == resp.capabilities@.len(),
            i <= n,
            caps@.len() == i,
            forall|j: int|
                0 <= j < i ==> (#[trigger] caps@[j]) is Str && caps@[j]->Str_0@
                    == resp.capabilities@[j]@,
        decreases n - i,
    {
        caps.push(Value::Str(resp.capabilities[i].clone()));
        i = i + 1;
    }
    let mut build_fields: Vec<(String, Value)> = Vec::new();
    build_fields.push((String::from_str("version"), Value::Str(resp.build_info.version)));
    build_fields.push(
        (String::from_str("rust_version"), Value::Str(resp.build_info.rust_version)),
    );
    build_fields.push((String::from_str("profile"), Value::Str(resp.build_info.profile)));
    let mut sys_fields: Vec<(String, Value)> = Vec::new();
    sys_fields.push((String::from_str("os"), Value::Str(resp.system_info.os)));
    sys_fields.push((String::from_str("platform"), Value::Str(resp.system_info.platform)));
    sys_fields.push((String::from_str("arch"), Value::Str(resp.system_info.arch)));
    sys_fields.push(
        (String::from_str("cpu_count"), Value::UInt(resp.system_info.cpu_count as u64)),
    );
    let mut conn_fields: Vec<(String, Value)> = Vec::new();
    conn_fields.push(
        (
            String::from_str("socket_server_running"),
            Value::Bool(resp.connection_status.socket_server_running),
        ),
    );
    conn_fields.push(
        (
            String::from_str("event_system_available"),
            Value::Bool(resp.connection_status.event_system_available),
        ),
    );
    let conn = Value::Obj(conn_fields);
    let mut wv_fields: Vec<(String, Value)> = Vec::new();
    wv_fields.push(
        (
            String::from_str("webview_available"),
            Value::Bool(resp.webview_status.webview_available),
        ),
    );
    wv_fields.push(
        (
            String::from_str("main_window_available"),
            Value::Bool(resp.webview_status.main_window_available),
        ),
    );
    let wv = Value::Obj(wv_fields);
    proof {
        reveal_strlit("socket_server_running");
        reveal_strlit("event_system_available");
        reveal_strlit("webview_available");
        reveal_strlit("main_window_available");
        assert("socket_server_running"@.len() == 21);
        assert("event_system_available"@.len() == 22);
        assert("webview_available"@.len() == 17);
        assert("main_window_available"@.len() == 21);
        lemma_obj_get_at(conn->Obj_0@, 0, "socket_server_running"@);
        lemma_obj_get_at(wv->Obj_0@, 1, "main_window_available"@);
        assert("webview_available"@[0] == 'w' && "main_window_available"@[0] == 'm');
    }
    let mut fields: Vec<(String, Value)> = Vec::new();
    fields.push((String::from_str("status"), Value::Str(resp.status)));
    fields.push((String::from_str("plugin_version"), Value::Str(resp.plugin_version)));
    fields.push((String::from_str("build_info"), Value::Obj(build_fields)));
    fields.push((String::from_str("system_info"), Value::Obj(sys_fields)));
    fields.push((String::from_str("capabilities"), Value::Arr(caps)));
    fields.push((String::from_str("connection_status"), conn));
    fields.push((String::from_str("webview_status"), wv));
    let r = Value::Obj(fields);
    proof {
        lemma_health_keys(r->Obj_0@);
    }
    r
}

proof fn lemma_health_keys(fields: Seq<(String, Value)>)
    requires
        fields.len() == 7,
        fields[0].0@ == "status"@,
        fields[1].0@ == "plugin_version"@,
        fields[2].0@ == "build_info"@,
        fields[3].0@ == "system_info"@,
        fields[4].0@ == "capabilities"@,
        fields[5].0@ == "connection_status"@,
        fields[6].0@ == "webview_status"@,
    ensures
        obj_get(fields, "status"@) == Some(fields[0].1),
        obj_get(fields, "capabilities"@) == Some(fields[4].1),
        obj_get(fields, "connection_status"@) == Some(fields[5].1),
        obj_get(fields, "webview_status"@) == Some(fields[6].1),
{
    reveal_strlit("status");
    reveal_strlit("plugin_version");
    reveal_strlit("build_info");
    reveal_strlit("system_info");
    reveal_strlit("capabilities");
    reveal_strlit("connection_status");
    reveal_strlit("webview_status");
    assert("status"@.len() == 6);
    assert("plugin_version"@.len() == 14);
    assert("build_info"@.len() == 10);
    assert("system_info"@.len() == 11);
    assert("capabilities"@.len() == 12);
    assert("connection_status"@.len() == 17);
    assert("webview_status"@.len() == 14);
    assert("plugin_version"@[0] == 'p' && "webview_status"@[0] == 'w');
    lemma_obj_get_at(fields, 0, "status"@);
    lemma_obj_get_at(fields, 4, "capabilities"@);
    lemma_obj_get_at(fields, 5, "connection_status"@);
    lemma_obj_get_at(fields, 6, "webview_status"@);
}

/// Answers a health check: always a successful envelope whose data reports
/// a healthy status, the fixed capability list with the health check
/// itself among its twenty entries, and a running socket server, whether
/// or not any context is live; only the default context's availability
/// varies with the registry.
pub fn handle_health_check(
    plugin_version: String,
    rust_version: String,
    profile: String,
    os: String,
    platform: String,
    arch: String,
    cpu_count: usize,
    registry: &Registry,
) -> (r: Envelope)
    ensures
        r.wf(),
        r.success,
        r.error is None,
        r.data is Some,
        spec_health_data_ok(r.data->0),
        match r.data->0.spec_get("capabilities"@) {
            Some(Value::Arr(items)) => items@.len() == 20 && items@[19] is Str
                && items@[19]->Str_0@ == "health_check"@,
            _ => false,
        },
        match r.data->0.spec_get("webview_status"@) {
            Some(ws) => ws.spec_get("main_window_available"@) == Some(
                Value::Bool(registry.spec_has("main"@)),
            ),
            _ => false,
        },
{
    let resp = build_health_check_response(
        plugin_version,
        rust_version,
        profile,
        os,
        platform,
        arch,
        cpu_count,
        registry,
    );
    Envelope::ok(encode_health_check_response(resp))
}

} // verus!
