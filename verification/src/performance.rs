//! The performance-metrics command: runs a metrics-collection task with
//! feature toggles for navigation timing, resource timing, user timing,
//! memory and long tasks, plus an optional resource filter. Each toggle
//! adds one fixed segment to the task text; the filter embeds its type
//! list and its duration bounds, in milliseconds, at fixed places.

use vstd::prelude::*;
use crate::bridge::CallOutcome;
use crate::error::Error;
use crate::fields::{
    opt_bool_field, opt_string_field, opt_u64_field, spec_field_error, spec_opt_bool,
    spec_opt_string, spec_opt_u64,
};
use crate::plan::{CallPlan, ReplyKind, Step};
use crate::registry::{resolve_window, spec_effective_label, Registry};
use crate::script::{script_reply_step, spec_script_error, spec_script_result, ScriptStep};
use crate::strutil::{dec_seq, u64_to_string};
use crate::value::Value;

verus! {

broadcast use vstd::string::group_string_axioms;

/// The filter narrowing which resource entries the task collects. The
/// duration bounds are whole milliseconds.
pub struct ResourceFilter {
    pub resource_type: Option<Vec<String>>,
    pub min_duration_ms: Option<u64>,
    pub max_duration_ms: Option<u64>,
    pub url_pattern: Option<String>,
}

/// The decoded request for `get-performance-metrics`.
pub struct PerformanceMetricsRequest {
    pub window_label: Option<String>,
    pub include_navigation: Option<bool>,
    pub include_resources: Option<bool>,
    pub include_user_timing: Option<bool>,
    pub include_memory: Option<bool>,
    pub include_long_tasks: Option<bool>,
    pub resource_filter: Option<ResourceFilter>,
    pub timeout_ms: Option<u64>,
}

/// Whether a payload decodes into a [`PerformanceMetricsRequest`]; a
/// present filter must be an object whose duration bounds are unsigned
/// integers and whose type list is an array of strings.
pub open spec fn spec_perf_request_decodes(payload: Value) -> bool {
    &&& spec_opt_string(payload, "window_label"@) is Some
    &&& spec_opt_bool(payload, "include_navigation"@) is Some
    &&& spec_opt_bool(payload, "include_resources"@) is Some
    &&& spec_opt_bool(payload, "include_user_timing"@) is Some
    &&& spec_opt_bool(payload, "include_memory"@) is Some
    &&& spec_opt_bool(payload, "include_long_tasks"@) is Some
    &&& spec_opt_u64(payload, "timeout_ms"@) is Some
    &&& match payload.spec_get("resource_filter"@) {
        None => true,
        Some(Value::Null) => true,
        Some(f) => spec_resource_filter_decodes(f),
    }
}

/// Whether a filter object decodes into a [`ResourceFilter`].
pub open spec fn spec_resource_filter_decodes(v: Value) -> bool {
    &&& spec_opt_u64(v, "min_duration_ms"@) is Some
    &&& spec_opt_u64(v, "max_duration_ms"@) is Some
    &&& spec_opt_string(v, "url_pattern"@) is Some
    &&& match v.spec_get("resource_type"@) {
        None => true,
        Some(Value::Null) => true,
        Some(Value::Arr(items)) => forall|i: int|
            0 <= i < items@.len() ==> (#[trigger] items@[i]) is Str,
        _ => false,
    }
}

/// Whether a decoded filter carries exactly a filter object's fields.
pub open spec fn spec_resource_filter_matches(ff: ResourceFilter, v: Value) -> bool {
    &&& Some(ff.min_duration_ms) == spec_opt_u64(v, "min_duration_ms"@)
    &&& Some(ff.max_duration_ms) == spec_opt_u64(v, "max_duration_ms"@)
    &&& Some(ff.url_pattern) == spec_opt_string(v, "url_pattern"@)
    &&& match v.spec_get("resource_type"@) {
        None => ff.resource_type is None,
        Some(Value::Null) => ff.resource_type is None,
        Some(Value::Arr(items)) => ff.resource_type matches Some(ts) && ts@.len()
            == items@.len() && forall|i: int|
            0 <= i < items@.len() ==> #[trigger] ts@[i]@ == items@[i]->Str_0@,
        _ => false,
    }
}

/// The decode-failure text of the first filter field of the wrong shape.
pub open spec fn spec_filter_decode_error(v: Value) -> Seq<char> {
    if spec_opt_u64(v, "min_duration_ms"@) is None {
        spec_field_error("min_duration_ms"@, "an unsigned integer"@)
    } else if spec_opt_u64(v, "max_duration_ms"@) is None {
        spec_field_error("max_duration_ms"@, "an unsigned integer"@)
    } else if spec_opt_string(v, "url_pattern"@) is None {
        spec_field_error("url_pattern"@, "a string"@)
    } else {
        match v.spec_get("resource_type"@) {
            Some(Value::Arr(_)) => "resource_type must hold strings"@,
            _ => "resource_type must be an array"@,
        }
    }
}

/// Decodes a filter object.
pub fn parse_resource_filter(v: &Value) -> (r: Result<ResourceFilter, String>)
    ensures
        match r {
            Ok(f) => {
                &&& spec_resource_filter_decodes(*v)
                &&& spec_resource_filter_matches(f, *v)
            },
            Err(m) => {
                &&& !spec_resource_filter_decodes(*v)
                &&& m@ == spec_filter_decode_error(*v)
            },
        },
{
    let min_duration_ms = match opt_u64_field(v, "min_duration_ms") {
        Ok(x) => x,
        Err(m) => {
            return Err(m);
        },
    };
    let max_duration_ms = match opt_u64_field(v, "max_duration_ms") {
        Ok(x) => x,
        Err(m) => {
            return Err(m);
        },
    };
    let url_pattern = match opt_string_field(v, "url_pattern") {
        Ok(x) => x,
        Err(m) => {
            return Err(m);
        },
    };
    let resource_type: Option<Vec<String>> = match v.get("resource_type") {
        None => None,
        Some(f) => {
            if f.is_null() {
                None
            } else {
                match f.as_arr() {
                    Some(items) => {
                        let n = items.len();
                        let mut ts: Vec<String> = Vec::new();
                        let mut i: usize = 0;
                        while i < n
                            invariant
                                spec_opt_u64(*v, "min_duration_ms"@) is Some,
                                spec_opt_u64(*v, "max_duration_ms"@) is Some,
                                spec_opt_string(*v, "url_pattern"@) is Some,
                                v.spec_get("resource_type"@) == Some(Value::Arr(*items)),
                                n == items@.len(),
                                i <= n,
                                ts@.len() == i,
                                forall|j: int|
                                    0 <= j < i ==> (#[trigger] items@[j]) is Str,
                                forall|j: int|
                                    0 <= j < i ==> #[trigger] ts@[j]@ == items@[j]->Str_0@,
                            decreases n - i,
                        {
                            match items[i].as_str() {
                                Some(s) => {
                                    ts.push(s.clone());
                                },
                                None => {
                                    return Err(
                                        String::from_str("resource_type must hold strings"),
                                    );
                                },
                            }
                            i = i + 1;
                        }
                        Some(ts)
                    },
                    None => {
                        return Err(String::from_str("resource_type must be an array"));
                    },
                }
            }
        },
    };
    Ok(ResourceFilter { resource_type, min_duration_ms, max_duration_ms, url_pattern })
}

/// The decode-failure text of the first failing part of the payload.
pub open spec fn spec_perf_decode_error(payload: Value) -> Seq<char> {
    if spec_opt_string(payload, "window_label"@) is None {
        spec_field_error("window_label"@, "a string"@)
    } else if spec_opt_bool(payload, "include_navigation"@) is None {
        spec_field_error("include_navigation"@, "a boolean"@)
    } else if spec_opt_bool(payload, "include_resources"@) is None {
        spec_field_error("include_resources"@, "a boolean"@)
    } else if spec_opt_bool(payload, "include_user_timing"@) is None {
        spec_field_error("include_user_timing"@, "a boolean"@)
    } else if spec_opt_bool(payload, "include_memory"@) is None {
        spec_field_error("include_memory"@, "a boolean"@)
    } else if spec_opt_bool(payload, "include_long_tasks"@) is None {
        spec_field_error("include_long_tasks"@, "a boolean"@)
    } else if spec_opt_u64(payload, "timeout_ms"@) is None {
        spec_field_error("timeout_ms"@, "an unsigned integer"@)
    } else {
        match payload.spec_get("resource_filter"@) {
            Some(f) => spec_filter_decode_error(f),
            None => Seq::<char>::empty(),
        }
    }
}

/// Decodes the request payload; a failing part is a serialization error
/// carrying the decode text.
pub fn parse_performance_request(payload: &Value) -> (r: Result<PerformanceMetricsRequest, Error>)
    ensures
        match r {
            Ok(req) => {
                &&& spec_perf_request_decodes(*payload)
                &&& Some(req.window_label) == spec_opt_string(*payload, "window_label"@)
                &&& Some(req.include_navigation) == spec_opt_bool(
                    *payload,
                    "include_navigation"@,
                )
                &&& Some(req.include_resources) == spec_opt_bool(
                    *payload,
                    "include_resources"@,
                )
                &&& Some(req.include_user_timing) == spec_opt_bool(
                    *payload,
                    "include_user_timing"@,
                )
                &&& Some(req.include_memory) == spec_opt_bool(*payload, "include_memory"@)
                &&& Some(req.include_long_tasks) == spec_opt_bool(
                    *payload,
                    "include_long_tasks"@,
                )
                &&& Some(req.timeout_ms) == spec_opt_u64(*payload, "timeout_ms"@)
                &&& match payload.spec_get("resource_filter"@) {
                    None => req.resource_filter is None,
                    Some(Value::Null) => req.resource_filter is None,
                    Some(f) => req.resource_filter matches Some(ff)
                        && spec_resource_filter_matches(ff, f),
                }
            },
            Err(e) => {
                &&& !spec_perf_request_decodes(*payload)
                &&& e matches Error::SerializationError { message } && message@
                    == "Invalid payload for performance metrics: "@ + spec_perf_decode_error(
                    *payload,
                )
            },
        },
{
    let window_label = match opt_string_field(payload, "window_label") {
        Ok(v) => v,
        Err(m) => {
            return Err(Error::serialization_error(decode_error(m)));
        },
    };
    let include_navigation = match opt_bool_field(payload, "include_navigation") {
        Ok(v) => v,
        Err(m) => {
            return Err(Error::serialization_error(decode_error(m)));
        },
    };
    let include_resources = match opt_bool_field(payload, "include_resources") {
        Ok(v) => v,
        Err(m) => {
            return Err(Error::serialization_error(decode_error(m)));
        },
    };
    let include_user_timing = match opt_bool_field(payload, "include_user_timing") {
        Ok(v) => v,
        Err(m) => {
            return Err(Error::serialization_error(decode_error(m)));
        },
    };
    let include_memory = match opt_bool_field(payload, "include_memory") {
        Ok(v) => v,
        Err(m) => {
            return Err(Error::serialization_error(decode_error(m)));
        },
    };
    let include_long_tasks = match opt_bool_field(payload, "include_long_tasks") {
        Ok(v) => v,
        Err(m) => {
            return Err(Error::serialization_error(decode_error(m)));
        },
    };
    let timeout_ms = match opt_u64_field(payload, "timeout_ms") {
        Ok(v) => v,
        Err(m) => {
            return Err(Error::serialization_error(decode_error(m)));
        },
    };
    let resource_filter: Option<ResourceFilter> = match payload.get("resource_filter") {
        None => None,
        Some(f) => {
            if f.is_null() {
                None
            } else {
                match parse_resource_filter(f) {
                    Ok(x) => Some(x),
                    Err(m) => {
                        return Err(Error::serialization_error(decode_error(m)));
                    },
                }
            }
        },
    };
    Ok(
        PerformanceMetricsRequest {
            window_label,
            include_navigation,
            include_resources,
            include_user_timing,
            include_memory,
            include_long_tasks,
            resource_filter,
            timeout_ms,
        },
    )
}

fn decode_error(m: String) -> (r: String)
    ensures
        r@ == "Invalid payload for performance metrics: "@ + m@,
{
    let mut s = String::from_str("Invalid payload for performance metrics: ");
    s.append(m.as_str());
    s
}

/// The quoted, comma-separated rendering of a resource-type list.
pub open spec fn spec_quoted_types(items: Seq<String>) -> Seq<char>
    decreases items.len(),
{
    if items.len() == 0 {
        Seq::<char>::empty()
    } else if items.len() == 1 {
        "\""@ + items[0]@ + "\""@
    } else {
        spec_quoted_types(items.drop_last()) + ", \""@ + items.last()@ + "\""@
    }
}

/// Renders a resource-type list as quoted names separated by commas.
pub fn quoted_types(items: &Vec<String>) -> (r: String)
    ensures
        r@ == spec_quoted_types(items@),
{
    let n = items.len();
    let mut out = String::new();
    let mut i: usize = 0;
    proof {
        assert(items@.take(0) =~= Seq::<String>::empty());
    }
    while i < n
        invariant
            n == items@.len(),
            i <= n,
            out@ == spec_quoted_types(items@.take(i as int)),
        decreases n - i,
    {
        proof {
            assert(items@.take(i + 1).drop_last() =~= items@.take(i as int));
            assert(items@.take(i + 1).last() == items@[i as int]);
            assert(items@.take(i + 1)[0] == items@[0]);
        }
        if i == 0 {
            out.append("\"");
        } else {
            out.append(", \"");
        }
        out.append(items[i].as_str());
        out.append("\"");
        proof {
            assert(out@ =~= spec_quoted_types(items@.take(i + 1)));
        }
        i = i + 1;
    }
    proof {
        assert(items@.take(n as int) =~= items@);
    }
    out
}

/// The collection task text: a fixed frame, one segment per enabled
/// toggle, and — when the filter names types or a lower duration bound —
/// the filter block with its embedded type list and bounds.
pub open spec fn spec_perf_code(
    include_navigation: bool,
    include_resources: bool,
    include_user_timing: bool,
    include_memory: bool,
    include_long_tasks: bool,
    filter: Option<ResourceFilter>,
) -> Seq<char> {
    perf_code_head() + (if include_navigation {
        perf_code_nav()
    } else {
        Seq::<char>::empty()
    }) + (if include_resources {
        perf_code_res_open() + spec_perf_filter_block(filter) + perf_code_res_close()
    } else {
        Seq::<char>::empty()
    }) + (if include_user_timing {
        perf_code_user_timing()
    } else {
        Seq::<char>::empty()
    }) + (if include_memory {
        perf_code_memory()
    } else {
        Seq::<char>::empty()
    }) + (if include_long_tasks {
        perf_code_long_tasks()
    } else {
        Seq::<char>::empty()
    }) + perf_code_tail()
}

/// The filter block, present when the filter names types or a lower bound.
pub open spec fn spec_perf_filter_block(filter: Option<ResourceFilter>) -> Seq<char> {
    match filter {
        None => Seq::<char>::empty(),
        Some(f) => if f.resource_type is Some || f.min_duration_ms is Some {
            perf_filter_a() + (match f.resource_type {
                Some(ts) => spec_quoted_types(ts@),
                None => Seq::<char>::empty(),
            }) + perf_filter_b() + (match f.min_duration_ms {
                Some(d) => dec_seq(d as nat),
                None => "0"@,
            }) + perf_filter_c() + (match f.max_duration_ms {
                Some(d) => dec_seq(d as nat),
                None => "Infinity"@,
            }) + perf_filter_d()
        } else {
            Seq::<char>::empty()
        },
    }
}

pub open spec fn perf_code_head() -> Seq<char> {
    "(async () => {
    try {
        const metrics = {};
        const errors = [];
        function safeGetEntries(entryType) {
            try {
                if (typeof performance !== 'undefined' && performance.getEntriesByType) { return performance.getEntriesByType(entryType); }
                return [];
            } catch (e) { errors.push('entries ' + entryType + ': ' + e.message); return []; }
        }
"@
}

pub open spec fn perf_code_nav() -> Seq<char> {
    "        try {
            if (typeof performance !== 'undefined' && performance.timing) {
                const timing = performance.timing;
                const navigationStart = timing.navigationStart;
                metrics.navigation_timing = {
                    dns_lookup_ms: timing.domainLookupEnd - timing.domainLookupStart,
                    tcp_connection_ms: timing.connectEnd - timing.connectStart,
                    request_time_ms: timing.responseStart - timing.requestStart,
                    response_time_ms: timing.responseEnd - timing.responseStart,
                    dom_interactive_ms: timing.domInteractive - navigationStart,
                    dom_complete_ms: timing.domComplete - navigationStart,
                    page_load_ms: timing.loadEventEnd - navigationStart
                };
            }
        } catch (e) { errors.push('navigation timing: ' + e.message); }
"@
}

pub open spec fn perf_code_res_open() -> Seq<char> {
    "        try {
            const resources = safeGetEntries('resource');
            const allResources = [];
            resources.forEach(resource => {
                const resourceType = resource.initiatorType || 'other';
"@
}

pub open spec fn perf_filter_a() -> Seq<char> {
    "                const resourceTypeFilter = ["@
}

pub open spec fn perf_filter_b() -> Seq<char> {
    "];
                const minDurationMs = "@
}

pub open spec fn perf_filter_c() -> Seq<char> {
    ";
                const maxDurationMs = "@
}

pub open spec fn perf_filter_d() -> Seq<char> {
    ";
                if (resourceTypeFilter.length > 0 && resourceTypeFilter.indexOf(resourceType) < 0) { return; }
                const duration = resource.responseEnd - resource.startTime;
                if (duration < minDurationMs || duration > maxDurationMs) { return; }
"@
}

pub open spec fn perf_code_res_close() -> Seq<char> {
    "                allResources.push({
                    name: resource.name,
                    type: resourceType,
                    start_time_ms: resource.startTime,
                    duration_ms: resource.responseEnd - resource.startTime,
                    transfer_size: resource.transferSize || 0
                });
            });
            metrics.resource_timing = {
                summary: { total_resources: allResources.length },
                resources: allResources.slice(0, 100)
            };
        } catch (e) { errors.push('resource timing: ' + e.message); }
"@
}

pub open spec fn perf_code_user_timing() -> Seq<char> {
    "        try {
            const marks = safeGetEntries('mark');
            const measures = safeGetEntries('measure');
            metrics.user_timing = {
                marks: marks.map(mark => ({ name: mark.name, start_time_ms: mark.startTime })).slice(0, 100),
                measures: measures.map(measure => ({ name: measure.name, start_time_ms: measure.startTime, duration_ms: measure.duration })).slice(0, 100)
            };
        } catch (e) { errors.push('user timing: ' + e.message); }
"@
}

pub open spec fn perf_code_memory() -> Seq<char> {
    "        try {
            if (typeof performance !== 'undefined' && performance.memory) {
                const memory = performance.memory;
                metrics.memory_usage = {
                    js_heap_size_limit_bytes: memory.jsHeapSizeLimit,
                    total_js_heap_size_bytes: memory.totalJSHeapSize,
                    used_js_heap_size_bytes: memory.usedJSHeapSize
                };
            } else {
                metrics.memory_usage = { available: false };
            }
        } catch (e) { errors.push('memory usage: ' + e.message); }
"@
}

pub open spec fn perf_code_long_tasks() -> Seq<char> {
    "        try {
            const longTasks = safeGetEntries('longtask');
            metrics.long_tasks = {
                count: longTasks.length,
                tasks: longTasks.filter(t => t.duration > 50).map(t => ({ start_time_ms: t.startTime, duration_ms: t.duration, name: t.name })).slice(0, 50)
            };
        } catch (e) { errors.push('long tasks: ' + e.message); }
"@
}

pub open spec fn perf_code_tail() -> Seq<char> {
    "        try {
            const paints = safeGetEntries('paint');
            if (paints.length > 0) { metrics.paint_timing = paints.map(paint => ({ name: paint.name, start_time_ms: paint.startTime })); }
        } catch (e) { errors.push('paint timing: ' + e.message); }
        const response = { metrics: metrics, collected_at_ms: Date.now(), errors: errors };
        window.dispatchEvent(new CustomEvent('execute-js-response', { detail: { result: JSON.stringify(response), type: 'object' } }));
    } catch (error) {
        window.dispatchEvent(new CustomEvent('execute-js-response', { detail: { error: 'Performance metrics collection error: ' + error.message, type: 'error' } }));
    }
})();"@
}

/// Builds the filter block alone.
fn perf_filter_code(resource_filter: &Option<ResourceFilter>) -> (r: String)
    ensures
        r@ == spec_perf_filter_block(*resource_filter),
{
    match resource_filter {
        Some(f) => {
            if f.resource_type.is_some() || f.min_duration_ms.is_some() {
                let mut code = String::from_str("                const resourceTypeFilter = [");
                match &f.resource_type {
                    Some(ts) => {
                        let q = quoted_types(ts);
                        code.append(q.as_str());
                    },
                    None => {},
                }
                code.append(
                    "];
                const minDurationMs = ",
                );
                match f.min_duration_ms {
                    Some(d) => {
                        let ds = u64_to_string(d);
                        code.append(ds.as_str());
                    },
                    None => {
                        code.append("0");
                    },
                }
                code.append(
                    ";
                const maxDurationMs = ",
                );
                match f.max_duration_ms {
                    Some(d) => {
                        let ds = u64_to_string(d);
                        code.append(ds.as_str());
                    },
                    None => {
                        code.append("Infinity");
                    },
                }
                code.append(
                    ";
                if (resourceTypeFilter.length > 0 && resourceTypeFilter.indexOf(resourceType) < 0) { return; }
                const duration = resource.responseEnd - resource.startTime;
                if (duration < minDurationMs || duration > maxDurationMs) { return; }
",
                );
                proof {
                    reveal_strlit("0");
                    reveal_strlit("Infinity");
                    assert(code@ =~= spec_perf_filter_block(*resource_filter));
                }
                code
            } else {
                String::new()
            }
        },
        None => String::new(),
    }
}

/// Builds the collection task text from the toggles and the filter.
pub fn generate_performance_metrics_code(
    include_navigation: bool,
    include_resources: bool,
    include_user_timing: bool,
    include_memory: bool,
    include_long_tasks: bool,
    resource_filter: Option<ResourceFilter>,
) -> (r: String)
    ensures
        r@ == spec_perf_code(
            include_navigation,
            include_resources,
            include_user_timing,
            include_memory,
            include_long_tasks,
            resource_filter,
        ),
{
    let mut code = String::from_str(
        "(async () => {
    try {
        const metrics = {};
        const errors = [];
        function safeGetEntries(entryType) {
            try {
                if (typeof performance !== 'undefined' && performance.getEntriesByType) { return performance.getEntriesByType(entryType); }
                return [];
            } catch (e) { errors.push('entries ' + entryType + ': ' + e.message); return []; }
        }
",
    );
    if include_navigation {
        code.append(
            "        try {
            if (typeof performance !== 'undefined' && performance.timing) {
                const timing = performance.timing;
                const navigationStart = timing.navigationStart;
                metrics.navigation_timing = {
                    dns_lookup_ms: timing.domainLookupEnd - timing.domainLookupStart,
                    tcp_connection_ms: timing.connectEnd - timing.connectStart,
                    request_time_ms: timing.responseStart - timing.requestStart,
                    response_time_ms: timing.responseEnd - timing.responseStart,
                    dom_interactive_ms: timing.domInteractive - navigationStart,
                    dom_complete_ms: timing.domComplete - navigationStart,
                    page_load_ms: timing.loadEventEnd - navigationStart
                };
            }
        } catch (e) { errors.push('navigation timing: ' + e.message); }
",
        );
    }
    proof {
        assert(code@ =~= perf_code_head() + (if include_navigation {
            perf_code_nav()
        } else {
            Seq::<char>::empty()
        }));
    }
    let ghost after_nav = code@;
    if include_resources {
        code.append(
            "        try {
            const resources = safeGetEntries('resource');
            const allResources = [];
            resources.forEach(resource => {
                const resourceType = resource.initiatorType || 'other';
",
        );
        let fb = perf_filter_code(&resource_filter);
        code.append(fb.as_str());
        code.append(
            "                allResources.push({
                    name: resource.name,
                    type: resourceType,
                    start_time_ms: resource.startTime,
                    duration_ms: resource.responseEnd - resource.startTime,
                    transfer_size: resource.transferSize || 0
                });
            });
            metrics.resource_timing = {
                summary: { total_resources: allResources.length },
                resources: allResources.slice(0, 100)
            };
        } catch (e) { errors.push('resource timing: ' + e.message); }
",
        );
    }
    proof {
        assert(code@ =~= after_nav + (if include_resources {
            perf_code_res_open() + spec_perf_filter_block(resource_filter)
                + perf_code_res_close()
        } else {
            Seq::<char>::empty()
        }));
    }
    let ghost after_res = code@;
    if include_user_timing {
        code.append(
            "        try {
            const marks = safeGetEntries('mark');
            const measures = safeGetEntries('measure');
            metrics.user_timing = {
                marks: marks.map(mark => ({ name: mark.name, start_time_ms: mark.startTime })).slice(0, 100),
                measures: measures.map(measure => ({ name: measure.name, start_time_ms: measure.startTime, duration_ms: measure.duration })).slice(0, 100)
            };
        } catch (e) { errors.push('user timing: ' + e.message); }
",
        );
    }
    proof {
        assert(code@ =~= after_res + (if include_user_timing {
            perf_code_user_timing()
        } else {
            Seq::<char>::empty()
        }));
    }
    let ghost after_ut = code@;
    if include_memory {
        code.append(
            "        try {
            if (typeof performance !== 'undefined' && performance.memory) {
                const memory = performance.memory;
                metrics.memory_usage = {
                    js_heap_size_limit_bytes: memory.jsHeapSizeLimit,
                    total_js_heap_size_bytes: memory.totalJSHeapSize,
                    used_js_heap_size_bytes: memory.usedJSHeapSize
                };
            } else {
                metrics.memory_usage = { available: false };
            }
        } catch (e) { errors.push('memory usage: ' + e.message); }
",
        );
    }
    proof {
        assert(code@ =~= after_ut + (if include_memory {
            perf_code_memory()
        } else {
            Seq::<char>::empty()
        }));
    }
    let ghost after_mem = code@;
    if include_long_tasks {
        code.append(
            "        try {
            const longTasks = safeGetEntries('longtask');
            metrics.long_tasks = {
                count: longTasks.length,
                tasks: longTasks.filter(t => t.duration > 50).map(t => ({ start_time_ms: t.startTime, duration_ms: t.duration, name: t.name })).slice(0, 50)
            };
        } catch (e) { errors.push('long tasks: ' + e.message); }
",
        );
    }
    proof {
        assert(code@ =~= after_mem + (if include_long_tasks {
            perf_code_long_tasks()
        } else {
            Seq::<char>::empty()
        }));
    }
    code.append(
        "        try {
            const paints = safeGetEntries('paint');
            if (paints.length > 0) { metrics.paint_timing = paints.map(paint => ({ name: paint.name, start_time_ms: paint.startTime })); }
        } catch (e) { errors.push('paint timing: ' + e.message); }
        const response = { metrics: metrics, collected_at_ms: Date.now(), errors: errors };
        window.dispatchEvent(new CustomEvent('execute-js-response', { detail: { result: JSON.stringify(response), type: 'object' } }));
    } catch (error) {
        window.dispatchEvent(new CustomEvent('execute-js-response', { detail: { error: 'Performance metrics collection error: ' + error.message, type: 'error' } }));
    }
})();",
    );
    proof {
        assert(code@ =~= spec_perf_code(
            include_navigation,
            include_resources,
            include_user_timing,
            include_memory,
            include_long_tasks,
            resource_filter,
        ));
    }
    code
}

/// Validates a `get-performance-metrics` payload, resolves the target
/// context, and plans the bridge round trip: the generated task text is
/// published under `execute-js`, with every toggle defaulting to on except
/// long tasks, and a ten-second default deadline.
pub fn start_performance_metrics(payload: &Value, registry: &Registry) -> (r: Result<Step, Error>)
    ensures
        match r {
            Ok(step) => {
                &&& spec_perf_request_decodes(*payload)
                &&& step matches Step::Call(plan) && {
                    &&& spec_effective_label(
                        spec_opt_string(*payload, "window_label"@)->0,
                        plan.window_label@,
                    )
                    &&& registry.spec_has(plan.window_label@)
                    &&& plan.task_topic@ == "execute-js"@
                    &&& plan.reply_topic@ == "execute-js-response"@
                    &&& plan.timeout_ms == (match spec_opt_u64(*payload, "timeout_ms"@)->0 {
                        Some(t) => t,
                        None => 10000,
                    })
                    &&& plan.kind is Script
                    &&& plan.operation@ == "performance metrics execution"@
                    &&& plan.task_payload matches Value::Str(code) && ({
                        let nav = match spec_opt_bool(*payload, "include_navigation"@)->0 {
                            Some(b) => b,
                            None => true,
                        };
                        let res = match spec_opt_bool(*payload, "include_resources"@)->0 {
                            Some(b) => b,
                            None => true,
                        };
                        let ut = match spec_opt_bool(*payload, "include_user_timing"@)->0 {
                            Some(b) => b,
                            None => true,
                        };
                        let mem = match spec_opt_bool(*payload, "include_memory"@)->0 {
                            Some(b) => b,
                            None => true,
                        };
                        let lt = match spec_opt_bool(*payload, "include_long_tasks"@)->0 {
                            Some(b) => b,
                            None => false,
                        };
                        match payload.spec_get("resource_filter"@) {
                            None => code@ == spec_perf_code(nav, res, ut, mem, lt, None),
                            Some(Value::Null) => code@ == spec_perf_code(
                                nav,
                                res,
                                ut,
                                mem,
                                lt,
                                None,
                            ),
                            Some(f) => exists|ff: ResourceFilter|
                                #[trigger] spec_resource_filter_matches(ff, f) && code@
                                    == spec_perf_code(nav, res, ut, mem, lt, Some(ff)),
                        }
                    })
                }
            },
            Err(e) => match e {
                Error::SerializationError { message } => !spec_perf_request_decodes(*payload)
                    && message@ == "Invalid payload for performance metrics: "@
                    + spec_perf_decode_error(*payload),
                Error::WindowNotFound { label } => {
                    &&& spec_perf_request_decodes(*payload)
                    &&& spec_effective_label(
                        spec_opt_string(*payload, "window_label"@)->0,
                        label@,
                    )
                    &&& !registry.spec_has(label@)
                },
                _ => false,
            },
        },
{
    let req = match parse_performance_request(payload) {
        Ok(req) => req,
        Err(e) => {
            return Err(e);
        },
    };
    let window_label = match resolve_window(registry, &req.window_label) {
        Ok(l) => l,
        Err(e) => {
            return Err(e);
        },
    };
    let timeout_ms: u64 = match req.timeout_ms {
        Some(t) => t,
        None => 10000,
    };
    let ghost gfilter = req.resource_filter;
    let code = generate_performance_metrics_code(
        match req.include_navigation {
            Some(b) => b,
            None => true,
        },
        match req.include_resources {
            Some(b) => b,
            None => true,
        },
        match req.include_user_timing {
            Some(b) => b,
            None => true,
        },
        match req.include_memory {
            Some(b) => b,
            None => true,
        },
        match req.include_long_tasks {
            Some(b) => b,
            None => false,
        },
        req.resource_filter,
    );
    proof {
        match payload.spec_get("resource_filter"@) {
            Some(f) => {
                if !(f is Null) {
                    assert(spec_resource_filter_matches(gfilter->0, f));
                }
            },
            None => {},
        }
    }
    Ok(
        Step::Call(
            CallPlan {
                window_label,
                task_topic: String::from_str("execute-js"),
                task_payload: Value::Str(code),
                reply_topic: String::from_str("execute-js-response"),
                timeout_ms,
                operation: String::from_str("performance metrics execution"),
                kind: ReplyKind::Script,
            },
        ),
    )
}

/// Shapes the outcome of a `get-performance-metrics` call as far as the
/// reply allows, with this command's failure texts.
pub fn finish_performance_metrics(outcome: CallOutcome, timeout_ms: u64) -> (r: ScriptStep)
    ensures
        match r {
            ScriptStep::Done(env) => {
                &&& env.wf()
                &&& match outcome {
                    CallOutcome::Reply(v) => match spec_script_error(v) {
                        Some(msg) => !env.success && env.error is Some && env.error->0@ == msg,
                        None => match spec_script_result(v) {
                            Some(_) => false,
                            None => {
                                &&& !env.success
                                &&& env.error is Some
                                &&& if v.spec_get("result"@) is Some {
                                    env.error->0@
                                        == "Performance metrics result is not a string"@
                                } else {
                                    env.error->0@ == "No result in performance metrics response"@
                                }
                            },
                        },
                    },
                    CallOutcome::TimedOut => {
                        &&& !env.success
                        &&& env.error is Some
                        &&& env.error->0@
                            == "Operation timed out: performance metrics execution (exceeded "@
                            + dec_seq(timeout_ms as nat) + "ms)"@
                    },
                    CallOutcome::PublishFailed(_) => {
                        &&& !env.success
                        &&& env.error is Some
                        &&& env.error->0@
                            == "Communication error: Failed to emit execute-js event"@
                    },
                    CallOutcome::MalformedReply(m) => {
                        &&& !env.success
                        &&& env.error is Some
                        &&& env.error->0@
                            == "Serialization error: Failed to parse performance metrics response: "@
                            + m@
                    },
                }
            },
            ScriptStep::ParseResult(raw) => {
                &&& outcome matches CallOutcome::Reply(v) && spec_script_error(v) is None
                    && spec_script_result(v) == Some(raw@)
            },
        },
{
    let r = script_reply_step(
        outcome,
        "performance metrics execution",
        timeout_ms,
        "Failed to emit execute-js event",
        "Failed to parse performance metrics response: ",
        "No result in performance metrics response",
        "Performance metrics result is not a string",
    );
    proof {
        reveal_strlit("Operation timed out: ");
        reveal_strlit("performance metrics execution");
        reveal_strlit("Operation timed out: performance metrics execution (exceeded ");
        reveal_strlit(" (exceeded ");
        reveal_strlit("Communication error: ");
        reveal_strlit("Failed to emit execute-js event");
        reveal_strlit("Communication error: Failed to emit execute-js event");
        reveal_strlit("Serialization error: ");
        reveal_strlit("Failed to parse performance metrics response: ");
        reveal_strlit("Serialization error: Failed to parse performance metrics response: ");
    }
    r
}

} // verus!
