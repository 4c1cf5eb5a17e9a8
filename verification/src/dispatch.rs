//! The command dispatcher: maps an incoming command name to its handler
//! and returns the envelope verbatim. Dispatch is total — an unknown name
//! produces a failed envelope naming it, never a propagated error — and it
//! is the single chokepoint where every handler error is folded into
//! envelope form.
//!
//! A dispatch has up to two halves. [`dispatch_start`] validates the
//! payload and either answers at once or asks the host for one effect; the
//! host performs it and hands the outcome to [`dispatch_finish_call`] (for
//! bridge calls) or to the plan module's `finish_notify` and
//! `finish_native`, which produce the final envelope.

use vstd::prelude::*;
use crate::bridge::CallOutcome;
use crate::console_logs;
use crate::devtools_bridge;
use crate::envelope::Envelope;
use crate::error::Error;
use crate::error_tracker;
use crate::fields::{opt_string_field, opt_u64_field, req_string_field, spec_field_error, spec_opt_string, spec_opt_u64};
use crate::health_check::{handle_health_check, spec_health_data_ok};
use crate::hot_reload;
use crate::network_inspector;
use crate::performance;
use crate::plan::{CallPlan, NativeAction, NativePlan, ReplyKind, Step};
use crate::registry::{resolve_window, spec_effective_label, spec_resolves, Registry};
use crate::screenshot;
use crate::script::{script_parse_done, script_reply_step, spec_script_error, spec_script_result, ScriptStep};
use crate::state_dump;
use crate::storage_inspector;
use crate::strutil::str_eq;
use crate::value::Value;

verus! {

broadcast use vstd::string::group_string_axioms;

/// The host identity a health check reports; read once at startup and
/// passed in with every dispatch.
pub struct HostInfo {
    pub plugin_version: String,
    pub rust_version: String,
    pub profile: String,
    pub os: String,
    pub platform: String,
    pub arch: String,
    pub cpu_count: usize,
}

/// Whether a name is in the command catalogue.
pub open spec fn spec_known_command(c: Seq<char>) -> bool {
    ||| c == "ping"@
    ||| c == "health-check"@
    ||| c == "take-screenshot"@
    ||| c == "get-dom"@
    ||| c == "execute-js"@
    ||| c == "manage-window"@
    ||| c == "simulate-input"@
    ||| c == "hot-reload"@
    ||| c == "get-console-logs"@
    ||| c == "inject-console-capture"@
    ||| c == "network-inspector"@
    ||| c == "inject-network-capture"@
    ||| c == "state-dump"@
    ||| c == "devtools-bridge"@
    ||| c == "get-exceptions"@
    ||| c == "inject-error-tracker"@
    ||| c == "clear-exceptions"@
    ||| c == "get-performance-metrics"@
    ||| c == "storage-inspector"@
}

/// Answers a ping: a successful envelope whose data confirms liveness.
fn handle_ping() -> (r: Envelope)
    ensures
        r.wf(),
        r.success,
        r.data is Some,
        match r.data->0.spec_get("message"@) {
            Some(Value::Str(s)) => s@ == "pong"@,
            _ => false,
        },
{
    let mut fields: Vec<(String, Value)> = Vec::new();
    fields.push((String::from_str("message"), Value::Str(String::from_str("pong"))));
    let data = Value::Obj(fields);
    Envelope::ok(data)
}

/// Validates an `execute-js` payload: the script body is required, and the
/// bridge runs it under `execute-js` with a five-second default deadline.
fn start_execute_js(payload: &Value, registry: &Registry) -> (r: Result<Step, Error>)
    ensures
        match r {
            Ok(step) => step matches Step::Call(plan) && {
                &&& spec_effective_label(
                    spec_opt_string(*payload, "window_label"@)->0,
                    plan.window_label@,
                )
                &&& registry.spec_has(plan.window_label@)
                &&& plan.task_topic@ == "execute-js"@
                &&& plan.reply_topic@ == "execute-js-response"@
                &&& plan.timeout_ms == (match spec_opt_u64(*payload, "timeout_ms"@)->0 {
                    Some(t) => t,
                    None => 5000,
                })
                &&& plan.kind is Script
                &&& plan.task_payload matches Value::Str(code) && Some(Some(code))
                    == spec_opt_string(*payload, "code"@)
            },
            Err(e) => match e {
                Error::SerializationError { message } => message@ == (
                if spec_opt_string(*payload, "window_label"@) is None {
                    spec_field_error("window_label"@, "a string"@)
                } else if !(spec_opt_string(*payload, "code"@) matches Some(Some(_))) {
                    spec_field_error("code"@, "a string"@)
                } else {
                    spec_field_error("timeout_ms"@, "an unsigned integer"@)
                }),
                Error::WindowNotFound { label } => {
                    &&& spec_effective_label(
                        spec_opt_string(*payload, "window_label"@)->0,
                        label@,
                    )
                    &&& !registry.spec_has(label@)
                },
                _ => false,
            },
        },
{
    let window_label_req = match opt_string_field(payload, "window_label") {
        Ok(v) => v,
        Err(m) => {
            return Err(Error::serialization_error(m));
        },
    };
    let code = match req_string_field(payload, "code") {
        Ok(v) => v,
        Err(m) => {
            return Err(Error::serialization_error(m));
        },
    };
    let timeout_ms: u64 = match opt_u64_field(payload, "timeout_ms") {
        Ok(Some(t)) => t,
        Ok(None) => 5000,
        Err(m) => {
            return Err(Error::serialization_error(m));
        },
    };
    let window_label = match resolve_window(registry, &window_label_req) {
        Ok(l) => l,
        Err(e) => {
            return Err(e);
        },
    };
    Ok(
        Step::Call(
            CallPlan {
                window_label,
                task_topic: String::from_str("execute-js"),
                task_payload: Value::Str(code),
                reply_topic: String::from_str("execute-js-response"),
                timeout_ms,
                operation: String::from_str("script execution"),
                kind: ReplyKind::Script,
            },
        ),
    )
}

/// Validates a `get-dom` payload: the bridge asks the context for its
/// serialized document under `get-dom`.
fn start_get_dom(payload: &Value, registry: &Registry) -> (r: Result<Step, Error>)
    ensures
        match r {
            Ok(step) => step matches Step::Call(plan) && {
                &&& spec_effective_label(
                    spec_opt_string(*payload, "window_label"@)->0,
                    plan.window_label@,
                )
                &&& registry.spec_has(plan.window_label@)
                &&& plan.task_topic@ == "get-dom"@
                &&& plan.reply_topic@ == "get-dom-response"@
                &&& plan.timeout_ms == (match spec_opt_u64(*payload, "timeout_ms"@)->0 {
                    Some(t) => t,
                    None => 5000,
                })
                &&& plan.kind is Script
            },
            Err(e) => match e {
                Error::SerializationError { message } => message@ == (
                if spec_opt_string(*payload, "window_label"@) is None {
                    spec_field_error("window_label"@, "a string"@)
                } else {
                    spec_field_error("timeout_ms"@, "an unsigned integer"@)
                }),
                Error::WindowNotFound { label } => {
                    &&& spec_effective_label(
                        spec_opt_string(*payload, "window_label"@)->0,
                        label@,
                    )
                    &&& !registry.spec_has(label@)
                },
                _ => false,
            },
        },
{
    let window_label_req = match opt_string_field(payload, "window_label") {
        Ok(v) => v,
        Err(m) => {
            return Err(Error::serialization_error(m));
        },
    };
    let timeout_ms: u64 = match opt_u64_field(payload, "timeout_ms") {
        Ok(Some(t)) => t,
        Ok(None) => 5000,
        Err(m) => {
            return Err(Error::serialization_error(m));
        },
    };
    let window_label = match resolve_window(registry, &window_label_req) {
        Ok(l) => l,
        Err(e) => {
            return Err(e);
        },
    };
    Ok(
        Step::Call(
            CallPlan {
                window_label,
                task_topic: String::from_str("get-dom"),
                task_payload: Value::Null,
                reply_topic: String::from_str("get-dom-response"),
                timeout_ms,
                operation: String::from_str("dom retrieval"),
                kind: ReplyKind::Script,
            },
        ),
    )
}

/// Validates a `manage-window` payload: the action is required, and the
/// host performs it natively.
fn start_manage_window(payload: &Value, registry: &Registry) -> (r: Result<Step, Error>)
    ensures
        match r {
            Ok(step) => step matches Step::Native(plan) && {
                &&& spec_effective_label(
                    spec_opt_string(*payload, "window_label"@)->0,
                    plan.window_label@,
                )
                &&& registry.spec_has(plan.window_label@)
                &&& plan.action matches NativeAction::WindowControl { action } && Some(
                    Some(action),
                ) == spec_opt_string(*payload, "action"@)
            },
            Err(e) => match e {
                Error::SerializationError { message } => message@ == (
                if spec_opt_string(*payload, "window_label"@) is None {
                    spec_field_error("window_label"@, "a string"@)
                } else {
                    spec_field_error("action"@, "a string"@)
                }),
                Error::WindowNotFound { label } => {
                    &&& spec_effective_label(
                        spec_opt_string(*payload, "window_label"@)->0,
                        label@,
                    )
                    &&& !registry.spec_has(label@)
                },
                _ => false,
            },
        },
{
    let window_label_req = match opt_string_field(payload, "window_label") {
        Ok(v) => v,
        Err(m) => {
            return Err(Error::serialization_error(m));
        },
    };
    let action = match req_string_field(payload, "action") {
        Ok(v) => v,
        Err(m) => {
            return Err(Error::serialization_error(m));
        },
    };
    let window_label = match resolve_window(registry, &window_label_req) {
        Ok(l) => l,
        Err(e) => {
            return Err(e);
        },
    };
    Ok(Step::Native(NativePlan { window_label, action: NativeAction::WindowControl { action } }))
}

/// Validates a `simulate-input` payload: the host synthesizes the input
/// natively.
fn start_simulate_input(payload: &Value, registry: &Registry) -> (r: Result<Step, Error>)
    ensures
        match r {
            Ok(step) => step matches Step::Native(plan) && {
                &&& spec_effective_label(
                    spec_opt_string(*payload, "window_label"@)->0,
                    plan.window_label@,
                )
                &&& registry.spec_has(plan.window_label@)
                &&& plan.action is Input
            },
            Err(e) => match e {
                Error::SerializationError { message } => spec_opt_string(
                    *payload,
                    "window_label"@,
                ) is None && message@ == spec_field_error("window_label"@, "a string"@),
                Error::WindowNotFound { label } => {
                    &&& spec_effective_label(
                        spec_opt_string(*payload, "window_label"@)->0,
                        label@,
                    )
                    &&& !registry.spec_has(label@)
                },
                _ => false,
            },
        },
{
    let window_label_req = match opt_string_field(payload, "window_label") {
        Ok(v) => v,
        Err(m) => {
            return Err(Error::serialization_error(m));
        },
    };
    let window_label = match resolve_window(registry, &window_label_req) {
        Ok(l) => l,
        Err(e) => {
            return Err(e);
        },
    };
    Ok(Step::Native(NativePlan { window_label, action: NativeAction::Input }))
}

/// Folds a handler error into envelope form as an immediate reply.
fn reply_error(e: &Error) -> (r: Step)
    ensures
        r matches Step::Reply(env) && env.wf() && !env.success && env.error is Some
            && env.error->0@ == e.spec_message(),
{
    Step::Reply(Envelope::from_error(e))
}

/// Routes one command to its handler and returns the handler's decision:
/// an immediate envelope, or one effect for the host to perform. Dispatch
/// is total — an unknown command name yields a failed envelope carrying
/// that exact name — every envelope it can immediately carry satisfies the
/// envelope invariant, and a health check always succeeds with a healthy
/// report, whether or not any context is live.
#[verifier::rlimit(30)]
pub fn dispatch_start(command: &str, payload: &Value, registry: &Registry, host: HostInfo) -> (r:
    Step)
    ensures
        r.wf(),
        !spec_known_command(command@) ==> (r matches Step::Reply(env) && !env.success
            && env.error is Some && env.error->0@ == "Unknown command: "@ + command@),
        command@ == "ping"@ ==> (r matches Step::Reply(env) && env.success),
        command@ == "health-check"@ ==> (r matches Step::Reply(env) && {
            &&& env.success
            &&& env.error is None
            &&& env.data is Some
            &&& spec_health_data_ok(env.data->0)
            &&& match env.data->0.spec_get("capabilities"@) {
                Some(Value::Arr(items)) => items@.len() == 20 && items@[19] is Str
                    && items@[19]->Str_0@ == "health_check"@,
                _ => false,
            }
            &&& match env.data->0.spec_get("webview_status"@) {
                Some(ws) => ws.spec_get("main_window_available"@) == Some(
                    Value::Bool(registry.spec_has("main"@)),
                ),
                _ => false,
            }
        }),
        command@ == "get-console-logs"@ ==> ({
            &&& (console_logs::spec_request_decodes(*payload) && spec_resolves(
                registry,
                spec_opt_string(*payload, "window_label"@)->0,
            ) ==> r is Call)
            &&& match r {
                Step::Call(p) => {
                    &&& p.kind is ConsoleLogs
                    &&& p.task_topic@ == "get-console-logs"@
                    &&& p.reply_topic@ == "get-console-logs-response"@
                    &&& p.timeout_ms == 10000
                    &&& registry.spec_has(p.window_label@)
                },
                Step::Reply(env) => !env.success,
                _ => false,
            }
        }),
        command@ == "get-exceptions"@ ==> ({
            &&& (error_tracker::spec_tracker_request_decodes(*payload) && spec_resolves(
                registry,
                spec_opt_string(*payload, "window_label"@)->0,
            ) ==> r is Call)
            &&& match r {
                Step::Call(p) => {
                    &&& p.kind is Exceptions
                    &&& p.task_topic@ == "get-exceptions"@
                    &&& p.reply_topic@ == "get-exceptions-response"@
                    &&& registry.spec_has(p.window_label@)
                },
                Step::Reply(env) => !env.success,
                _ => false,
            }
        }),
        command@ == "network-inspector"@ ==> ({
            &&& (network_inspector::spec_inspector_request_decodes(*payload) && !spec_resolves(
                registry,
                spec_opt_string(*payload, "window_label"@)->0,
            ) ==> (r matches Step::Reply(env) && !env.success))
            &&& match r {
                Step::Call(p) => p.kind is NetworkRequests && p.task_topic@
                    == "get-network-requests"@ && registry.spec_has(p.window_label@),
                Step::Notify(p) => registry.spec_has(p.window_label@),
                Step::Reply(env) => env.wf(),
                _ => false,
            }
        }),
        command@ == "storage-inspector"@ ==> ({
            &&& (storage_inspector::spec_storage_request_decodes(*payload)
                && storage_inspector::spec_storage_payload_validation_error(*payload) is None
                && spec_resolves(registry, spec_opt_string(*payload, "window_label"@)->0)
                ==> r is Call)
            &&& (storage_inspector::spec_storage_request_decodes(*payload)
                && storage_inspector::spec_storage_payload_validation_error(
                *payload,
            ) is Some ==> (r matches Step::Reply(env) && env.error is Some && Some(
                env.error->0@,
            ) == storage_inspector::spec_storage_payload_validation_error(*payload)))
            &&& match r {
                Step::Call(p) => p.kind is Storage && p.task_topic@ == "inspect-storage"@
                    && registry.spec_has(p.window_label@),
                Step::Reply(env) => !env.success,
                _ => false,
            }
        }),
        command@ == "devtools-bridge"@ ==> ({
            &&& (devtools_bridge::spec_devtools_request_decodes(*payload) && spec_resolves(
                registry,
                spec_opt_string(*payload, "window_label"@)->0,
            ) ==> r is Call)
            &&& match r {
                Step::Call(p) => p.kind is Script && p.task_topic@ == "execute-js"@
                    && registry.spec_has(p.window_label@),
                Step::Reply(env) => !env.success,
                _ => false,
            }
        }),
        command@ == "state-dump"@ ==> ({
            &&& (state_dump::spec_state_dump_request_decodes(*payload) && spec_resolves(
                registry,
                spec_opt_string(*payload, "window_label"@)->0,
            ) ==> r is Call)
            &&& match r {
                Step::Call(p) => p.kind is Script && p.task_topic@ == "execute-js"@
                    && registry.spec_has(p.window_label@),
                Step::Reply(env) => !env.success,
                _ => false,
            }
        }),
        command@ == "get-performance-metrics"@ ==> ({
            &&& (performance::spec_perf_request_decodes(*payload) && spec_resolves(
                registry,
                spec_opt_string(*payload, "window_label"@)->0,
            ) ==> r is Call)
            &&& match r {
                Step::Call(p) => p.kind is Script && p.task_topic@ == "execute-js"@
                    && registry.spec_has(p.window_label@),
                Step::Reply(env) => !env.success,
                _ => false,
            }
        }),
        command@ == "execute-js"@ ==> (match r {
            Step::Call(p) => p.kind is Script && p.task_topic@ == "execute-js"@
                && registry.spec_has(p.window_label@),
            Step::Reply(env) => !env.success,
            _ => false,
        }),
        command@ == "get-dom"@ ==> (match r {
            Step::Call(p) => p.kind is Script && p.task_topic@ == "get-dom"@
                && registry.spec_has(p.window_label@),
            Step::Reply(env) => !env.success,
            _ => false,
        }),
        command@ == "inject-console-capture"@ ==> (match r {
            Step::Notify(p) => p.topic@ == "inject-console-capture"@ && registry.spec_has(
                p.window_label@,
            ),
            Step::Reply(env) => !env.success,
            _ => false,
        }),
        command@ == "inject-network-capture"@ ==> (match r {
            Step::Notify(p) => p.topic@ == "inject-network-capture"@ && registry.spec_has(
                p.window_label@,
            ),
            Step::Reply(env) => !env.success,
            _ => false,
        }),
        command@ == "inject-error-tracker"@ ==> (match r {
            Step::Notify(p) => p.topic@ == "inject-error-tracker"@ && registry.spec_has(
                p.window_label@,
            ),
            Step::Reply(env) => !env.success,
            _ => false,
        }),
        command@ == "clear-exceptions"@ ==> (match r {
            Step::Notify(p) => p.topic@ == "clear-exceptions"@ && registry.spec_has(
                p.window_label@,
            ),
            Step::Reply(env) => !env.success,
            _ => false,
        }),
        command@ == "hot-reload"@ ==> (match r {
            Step::Native(p) => p.action is Reload && registry.spec_has(p.window_label@),
            Step::Reply(env) => !env.success,
            _ => false,
        }),
        command@ == "take-screenshot"@ ==> (match r {
            Step::Native(p) => p.action is Screenshot && registry.spec_has(p.window_label@),
            Step::Reply(env) => !env.success,
            _ => false,
        }),
        command@ == "manage-window"@ ==> (match r {
            Step::Native(p) => p.action is WindowControl && registry.spec_has(p.window_label@),
            Step::Reply(env) => !env.success,
            _ => false,
        }),
        command@ == "simulate-input"@ ==> (match r {
            Step::Native(p) => p.action is Input && registry.spec_has(p.window_label@),
            Step::Reply(env) => !env.success,
            _ => false,
        }),
{
    proof {
        lemma_command_literals_distinct();
    }
    if str_eq(command, "ping") {
        Step::Reply(handle_ping())
    } else if str_eq(command, "health-check") {
        Step::Reply(
            handle_health_check(
                host.plugin_version,
                host.rust_version,
                host.profile,
                host.os,
                host.platform,
                host.arch,
                host.cpu_count,
                registry,
            ),
        )
    } else if str_eq(command, "take-screenshot") {
        match screenshot::start_take_screenshot(payload, registry) {
            Ok(step) => step,
            Err(e) => reply_error(&e),
        }
    } else if str_eq(command, "get-dom") {
        match start_get_dom(payload, registry) {
            Ok(step) => step,
            Err(e) => reply_error(&e),
        }
    } else if str_eq(command, "execute-js") {
        match start_execute_js(payload, registry) {
            Ok(step) => step,
            Err(e) => reply_error(&e),
        }
    } else if str_eq(command, "manage-window") {
        match start_manage_window(payload, registry) {
            Ok(step) => step,
            Err(e) => reply_error(&e),
        }
    } else if str_eq(command, "simulate-input") {
        match start_simulate_input(payload, registry) {
            Ok(step) => step,
            Err(e) => reply_error(&e),
        }
    } else if str_eq(command, "hot-reload") {
        match hot_reload::start_hot_reload(payload, registry) {
            Ok(step) => step,
            Err(e) => reply_error(&e),
        }
    } else if str_eq(command, "get-console-logs") {
        match console_logs::start_get_console_logs(payload, registry) {
            Ok(step) => step,
            Err(e) => reply_error(&e),
        }
    } else if str_eq(command, "inject-console-capture") {
        match console_logs::start_inject_console_capture(payload, registry) {
            Ok(step) => step,
            Err(e) => reply_error(&e),
        }
    } else if str_eq(command, "network-inspector") {
        match network_inspector::start_network_inspector(payload, registry) {
            Ok(step) => step,
            Err(e) => reply_error(&e),
        }
    } else if str_eq(command, "inject-network-capture") {
        match network_inspector::start_inject_network_capture(payload, registry) {
            Ok(step) => step,
            Err(e) => reply_error(&e),
        }
    } else if str_eq(command, "state-dump") {
        match state_dump::start_state_dump(payload, registry) {
            Ok(step) => step,
            Err(e) => reply_error(&e),
        }
    } else if str_eq(command, "devtools-bridge") {
        match devtools_bridge::start_devtools_bridge(payload, registry) {
            Ok(step) => step,
            Err(e) => reply_error(&e),
        }
    } else if str_eq(command, "get-exceptions") {
        match error_tracker::start_get_exceptions(payload, registry) {
            Ok(step) => step,
            Err(e) => reply_error(&e),
        }
    } else if str_eq(command, "inject-error-tracker") {
        match error_tracker::start_inject_error_tracker(payload, registry) {
            Ok(step) => step,
            Err(e) => reply_error(&e),
        }
    } else if str_eq(command, "clear-exceptions") {
        match error_tracker::start_clear_exceptions(payload, registry) {
            Ok(step) => step,
            Err(e) => reply_error(&e),
        }
    } else if str_eq(command, "get-performance-metrics") {
        match performance::start_performance_metrics(payload, registry) {
            Ok(step) => step,
            Err(e) => reply_error(&e),
        }
    } else if str_eq(command, "storage-inspector") {
        match storage_inspector::start_storage_inspector(payload, registry) {
            Ok(step) => step,
            Err(e) => reply_error(&e),
        }
    } else {
        let mut msg = String::from_str("Unknown command: ");
        msg.append(command);
        Step::Reply(Envelope::fail(msg))
    }
}

/// The bridge commands whose replies this dispatcher can finish.
pub open spec fn spec_call_command(c: Seq<char>) -> bool {
    ||| c == "get-console-logs"@
    ||| c == "get-exceptions"@
    ||| c == "network-inspector"@
    ||| c == "storage-inspector"@
    ||| c == "devtools-bridge"@
    ||| c == "state-dump"@
    ||| c == "get-performance-metrics"@
    ||| c == "execute-js"@
    ||| c == "get-dom"@
}

/// Finishes one bridge call for the command that started it: the four
/// data-retrieval commands produce their envelope at once, and the
/// script commands may still need the reply's `result` text decoded, in
/// which case [`script_parse_done`] takes the transport's verdict.
pub fn dispatch_finish_call(command: &str, outcome: CallOutcome, timeout_ms: u64) -> (r:
    ScriptStep)
    ensures
        (r matches ScriptStep::Done(env) ==> env.wf()),
        !spec_call_command(command@) ==> (r matches ScriptStep::Done(env) && !env.success),
        command@ == "get-console-logs"@ ==> (r matches ScriptStep::Done(env) && (
        match outcome {
            CallOutcome::Reply(v) => match console_logs::spec_reply_error(v) {
                Some(msg) => !env.success && env.error is Some && env.error->0@
                    == "Console operation error: "@ + msg,
                None => {
                    &&& env.success
                    &&& env.data is Some
                    &&& env.data->0.spec_get("returned_count"@) == Some(
                        Value::UInt(console_logs::spec_reply_logs_len(v) as u64),
                    )
                    &&& env.data->0.spec_get("total_count"@) == Some(
                        Value::UInt(console_logs::spec_reply_total(v) as u64),
                    )
                },
            },
            CallOutcome::TimedOut => !env.success,
            CallOutcome::PublishFailed(_) => !env.success,
            CallOutcome::MalformedReply(_) => !env.success,
        })),
        command@ == "get-exceptions"@ ==> (r matches ScriptStep::Done(env) && (
        match outcome {
            CallOutcome::Reply(v) => match error_tracker::spec_reply_error(v) {
                Some(msg) => !env.success && env.error is Some && env.error->0@
                    == "Error tracking operation error: "@ + msg,
                None => {
                    &&& env.success
                    &&& env.data is Some
                    &&& env.data->0.spec_get("returned_count"@) == Some(
                        Value::UInt(error_tracker::spec_reply_exceptions_len(v) as u64),
                    )
                    &&& env.data->0.spec_get("total_count"@) == Some(
                        Value::UInt(error_tracker::spec_reply_total(v) as u64),
                    )
                },
            },
            _ => !env.success,
        })),
        command@ == "network-inspector"@ ==> (r matches ScriptStep::Done(env) && (
        match outcome {
            CallOutcome::Reply(v) => match network_inspector::spec_reply_error(v) {
                Some(msg) => !env.success && env.error is Some && env.error->0@
                    == "Network operation error: "@ + msg,
                None => {
                    &&& env.success
                    &&& env.data is Some
                    &&& env.data->0.spec_get("returned_count"@) == Some(
                        Value::UInt(network_inspector::spec_reply_requests_len(v) as u64),
                    )
                    &&& env.data->0.spec_get("total_count"@) == Some(
                        Value::UInt(network_inspector::spec_reply_total(v) as u64),
                    )
                },
            },
            _ => !env.success,
        })),
        command@ == "storage-inspector"@ ==> (r matches ScriptStep::Done(env) && (
        match outcome {
            CallOutcome::Reply(v) => match storage_inspector::spec_storage_reply_error(v) {
                Some(msg) => !env.success && env.error is Some && env.error->0@
                    == "JavaScript error: "@ + msg,
                None => env.success && (match v.spec_get("data"@) {
                    Some(d) => env.data == Some(d),
                    None => env.data == Some(Value::Null),
                }),
            },
            _ => !env.success,
        })),
        (command@ == "devtools-bridge"@ || command@ == "state-dump"@ || command@
            == "get-performance-metrics"@ || command@ == "execute-js"@ || command@
            == "get-dom"@) ==> (match r {
            ScriptStep::Done(env) => match outcome {
                CallOutcome::Reply(v) => match spec_script_error(v) {
                    Some(msg) => !env.success && env.error is Some && env.error->0@ == msg,
                    None => spec_script_result(v) is None && !env.success,
                },
                _ => !env.success,
            },
            ScriptStep::ParseResult(raw) => outcome matches CallOutcome::Reply(v)
                && spec_script_error(v) is None && spec_script_result(v) == Some(raw@),
        }),
{
    proof {
        lemma_command_literals_distinct();
    }
    if str_eq(command, "get-console-logs") {
        ScriptStep::Done(console_logs::finish_get_console_logs(outcome))
    } else if str_eq(command, "get-exceptions") {
        ScriptStep::Done(error_tracker::finish_get_exceptions(outcome))
    } else if str_eq(command, "network-inspector") {
        ScriptStep::Done(network_inspector::finish_network_inspector(outcome))
    } else if str_eq(command, "storage-inspector") {
        ScriptStep::Done(storage_inspector::finish_storage_inspector(outcome))
    } else if str_eq(command, "devtools-bridge") {
        devtools_bridge::finish_devtools_bridge(outcome, timeout_ms)
    } else if str_eq(command, "state-dump") {
        state_dump::finish_state_dump(outcome, timeout_ms)
    } else if str_eq(command, "get-performance-metrics") {
        performance::finish_performance_metrics(outcome, timeout_ms)
    } else if str_eq(command, "execute-js") || str_eq(command, "get-dom") {
        script_reply_step(
            outcome,
            "script execution",
            timeout_ms,
            "Failed to emit execute-js event",
            "Failed to parse response: ",
            "No result in response",
            "Result is not a string",
        )
    } else {
        let mut msg = String::from_str("Unknown command: ");
        msg.append(command);
        ScriptStep::Done(Envelope::fail(msg))
    }
}

proof fn lemma_command_literals_distinct()
    ensures
        forall|a: Seq<char>, b: Seq<char>|
            spec_command_index(a) is Some && spec_command_index(b) is Some && a != b
                ==> #[trigger] spec_command_index(a) != #[trigger] spec_command_index(b),
        spec_command_index("ping"@) == Some(0int),
        spec_command_index("health-check"@) == Some(1int),
        spec_command_index("take-screenshot"@) == Some(2int),
        spec_command_index("get-dom"@) == Some(3int),
        spec_command_index("execute-js"@) == Some(4int),
        spec_command_index("manage-window"@) == Some(5int),
        spec_command_index("simulate-input"@) == Some(6int),
        spec_command_index("hot-reload"@) == Some(7int),
        spec_command_index("get-console-logs"@) == Some(8int),
        spec_command_index("inject-console-capture"@) == Some(9int),
        spec_command_index("network-inspector"@) == Some(10int),
        spec_command_index("inject-network-capture"@) == Some(11int),
        spec_command_index("state-dump"@) == Some(12int),
        spec_command_index("devtools-bridge"@) == Some(13int),
        spec_command_index("get-exceptions"@) == Some(14int),
        spec_command_index("inject-error-tracker"@) == Some(15int),
        spec_command_index("clear-exceptions"@) == Some(16int),
        spec_command_index("get-performance-metrics"@) == Some(17int),
        spec_command_index("storage-inspector"@) == Some(18int),
{
    reveal_strlit("ping");
    reveal_strlit("health-check");
    reveal_strlit("take-screenshot");
    reveal_strlit("get-dom");
    reveal_strlit("execute-js");
    reveal_strlit("manage-window");
    reveal_strlit("simulate-input");
    reveal_strlit("hot-reload");
    reveal_strlit("get-console-logs");
    reveal_strlit("inject-console-capture");
    reveal_strlit("network-inspector");
    reveal_strlit("inject-network-capture");
    reveal_strlit("state-dump");
    reveal_strlit("devtools-bridge");
    reveal_strlit("get-exceptions");
    reveal_strlit("inject-error-tracker");
    reveal_strlit("clear-exceptions");
    reveal_strlit("get-performance-metrics");
    reveal_strlit("storage-inspector");
    assert("ping"@.len() == 4);
    assert("health-check"@.len() == 12);
    assert("take-screenshot"@.len() == 15);
    assert("get-dom"@.len() == 7);
    assert("execute-js"@.len() == 10);
    assert("manage-window"@.len() == 13);
    assert("simulate-input"@.len() == 14);
    assert("hot-reload"@.len() == 10);
    assert("get-console-logs"@.len() == 16);
    assert("inject-console-capture"@.len() == 22);
    assert("network-inspector"@.len() == 17);
    assert("inject-network-capture"@.len() == 22);
    assert("state-dump"@.len() == 10);
    assert("devtools-bridge"@.len() == 15);
    assert("get-exceptions"@.len() == 14);
    assert("inject-error-tracker"@.len() == 20);
    assert("clear-exceptions"@.len() == 16);
    assert("get-performance-metrics"@.len() == 23);
    assert("storage-inspector"@.len() == 17);
    assert("execute-js"@[0] == 'e' && "hot-reload"@[0] == 'h' && "state-dump"@[0] == 's');
    assert("simulate-input"@[0] == 's' && "get-exceptions"@[0] == 'g');
    assert("take-screenshot"@[0] == 't' && "devtools-bridge"@[0] == 'd');
    assert("inject-console-capture"@[7] == 'c' && "inject-network-capture"@[7] == 'n');
    assert("get-console-logs"@[0] == 'g' && "clear-exceptions"@[0] == 'c');
    assert("network-inspector"@[0] == 'n' && "storage-inspector"@[0] == 's');
}

/// The position of a catalogue name in the routing table; distinct names
/// have distinct positions, which is how the router tells them apart.
pub open spec fn spec_command_index(c: Seq<char>) -> Option<int> {
    if c == "ping"@ {
        Some(0int)
    } else if c == "health-check"@ {
        Some(1int)
    } else if c == "take-screenshot"@ {
        Some(2int)
    } else if c == "get-dom"@ {
        Some(3int)
    } else if c == "execute-js"@ {
        Some(4int)
    } else if c == "manage-window"@ {
        Some(5int)
    } else if c == "simulate-input"@ {
        Some(6int)
    } else if c == "hot-reload"@ {
        Some(7int)
    } else if c == "get-console-logs"@ {
        Some(8int)
    } else if c == "inject-console-capture"@ {
        Some(9int)
    } else if c == "network-inspector"@ {
        Some(10int)
    } else if c == "inject-network-capture"@ {
        Some(11int)
    } else if c == "state-dump"@ {
        Some(12int)
    } else if c == "devtools-bridge"@ {
        Some(13int)
    } else if c == "get-exceptions"@ {
        Some(14int)
    } else if c == "inject-error-tracker"@ {
        Some(15int)
    } else if c == "clear-exceptions"@ {
        Some(16int)
    } else if c == "get-performance-metrics"@ {
        Some(17int)
    } else if c == "storage-inspector"@ {
        Some(18int)
    } else {
        None
    }
}

/// Finishes a script command's envelope after the transport decoded the
/// reply's `result` text; offered here so that every dispatch half lives
/// behind the dispatcher's interface.
pub fn dispatch_finish_parse(raw: String, parsed: Result<Value, String>) -> (r: Envelope)
    ensures
        r.wf(),
        r.success,
        r.data is Some,
        match parsed {
            Ok(v) => r.data == Some(v),
            Err(e) => {
                &&& match r.data->0.spec_get("raw_result"@) {
                    Some(Value::Str(s)) => s@ == raw@,
                    _ => false,
                }
                &&& match r.data->0.spec_get("parse_error"@) {
                    Some(Value::Str(s)) => s@ == e@,
                    _ => false,
                }
            },
        },
{
    script_parse_done(raw, parsed)
}

} // verus!
