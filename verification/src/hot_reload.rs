//! The hot-reload command: reloads one context's page without restarting
//! the application, by navigating the window to its current URL. The
//! navigation itself is the host's native work; this module validates the
//! request, resolves the window, and shapes the navigation's outcome.

use vstd::prelude::*;
use crate::envelope::Envelope;
use crate::error::Error;
use crate::fields::{opt_string_field, spec_field_error, spec_opt_string};
use crate::plan::{NativeAction, NativePlan, Step};
use crate::registry::{resolve_window, spec_effective_label, Registry};
use crate::value::{lemma_obj_get_at, obj_get, Value};

verus! {

broadcast use vstd::string::group_string_axioms;

/// What the host reports after attempting the reload.
pub enum ReloadOutcome {
    /// Navigation to the current URL succeeded.
    Reloaded,
    /// The current URL could not be read; propagated as a window-operation
    /// error. Carries the host's reason.
    UrlUnavailable(String),
    /// Navigation failed; folded into a failed envelope. Carries the
    /// host's reason.
    NavigateFailed(String),
}

/// Validates a `hot-reload` payload and plans the native reload.
pub fn start_hot_reload(payload: &Value, registry: &Registry) -> (r: Result<Step, Error>)
    ensures
        match r {
            Ok(step) => {
                &&& spec_opt_string(*payload, "window_label"@) is Some
                &&& step matches Step::Native(plan) && {
                    &&& spec_effective_label(
                        spec_opt_string(*payload, "window_label"@)->0,
                        plan.window_label@,
                    )
                    &&& registry.spec_has(plan.window_label@)
                    &&& plan.action is Reload
                }
            },
            Err(e) => match e {
                Error::SerializationError { message } => spec_opt_string(
                    *payload,
                    "window_label"@,
                ) is None && message@ == "Invalid payload for hot_reload: "@ + spec_field_error(
                    "window_label"@,
                    "a string"@,
                ),
                Error::WindowNotFound { label } => {
                    &&& spec_opt_string(*payload, "window_label"@) is Some
                    &&& spec_effective_label(
                        spec_opt_string(*payload, "window_label"@)->0,
                        label@,
                    )
                    &&& !registry.spec_has(label@)
                },
                _ => false,
            },
        },
{
    let window_label_req = match opt_string_field(payload, "window_label") {
        Ok(v) => v,
        Err(m) => {
            let mut s = String::from_str("Invalid payload for hot_reload: ");
            s.append(m.as_str());
            return Err(Error::serialization_error(s));
        },
    };
    let window_label = match resolve_window(registry, &window_label_req) {
        Ok(l) => l,
        Err(e) => {
            return Err(e);
        },
    };
    Ok(Step::Native(NativePlan { window_label, action: NativeAction::Reload }))
}

/// Shapes the reload's outcome: success reports the reloaded window by
/// label and a confirmation message; a navigation failure is folded into
/// a failed envelope naming the window; an unreadable URL is the
/// propagated window-operation error, folded at this chokepoint.
pub fn finish_hot_reload(window_label: String, outcome: ReloadOutcome) -> (r: Envelope)
    ensures
        r.wf(),
        match outcome {
            ReloadOutcome::Reloaded => {
                &&& r.success
                &&& r.data is Some
                &&& match r.data->0.spec_get("window_label"@) {
                    Some(Value::Str(s)) => s@ == window_label@,
                    _ => false,
                }
                &&& r.data->0.spec_get("success"@) == Some(Value::Bool(true))
                &&& match r.data->0.spec_get("message"@) {
                    Some(Value::Str(s)) => s@ == "Successfully reloaded window: "@
                        + window_label@,
                    _ => false,
                }
            },
            ReloadOutcome::UrlUnavailable(reason) => {
                &&& !r.success
                &&& r.error is Some
                &&& r.error->0@ == "Window operation failed: get window URL - "@ + reason@
            },
            ReloadOutcome::NavigateFailed(reason) => {
                &&& !r.success
                &&& r.error is Some
                &&& r.error->0@ == "Failed to reload window "@ + window_label@ + ": "@
                    + reason@
            },
        },
{
    match outcome {
        ReloadOutcome::Reloaded => {
            let mut message = String::from_str("Successfully reloaded window: ");
            message.append(window_label.as_str());
            let mut fields: Vec<(String, Value)> = Vec::new();
            fields.push((String::from_str("success"), Value::Bool(true)));
            fields.push((String::from_str("window_label"), Value::Str(window_label)));
            fields.push((String::from_str("message"), Value::Str(message)));
            let data = Value::Obj(fields);
            proof {
                lemma_reload_keys(data->Obj_0@);
            }
            Envelope::ok(data)
        },
        ReloadOutcome::UrlUnavailable(reason) => {
            let e = Error::window_operation_failed(String::from_str("get window URL"), reason);
            let env = Envelope::from_error(&e);
            proof {
                reveal_strlit("Window operation failed: ");
                reveal_strlit("get window URL");
                reveal_strlit(" - ");
                reveal_strlit("Window operation failed: get window URL - ");
                assert(env.error->0@ =~= "Window operation failed: get window URL - "@
                    + e->WindowOperationFailed_reason@);
            }
            env
        },
        ReloadOutcome::NavigateFailed(reason) => {
            let mut msg = String::from_str("Failed to reload window ");
            msg.append(window_label.as_str());
            msg.append(": ");
            msg.append(reason.as_str());
            let env = Envelope::fail(msg);
            proof {
                assert(env.error->0@ =~= "Failed to reload window "@ + window_label@ + ": "@
                    + reason@);
            }
            env
        },
    }
}

proof fn lemma_reload_keys(fields: Seq<(String, Value)>)
    requires
        fields.len() == 3,
        fields[0].0@ == "success"@,
        fields[1].0@ == "window_label"@,
        fields[2].0@ == "message"@,
    ensures
        obj_get(fields, "success"@) == Some(fields[0].1),
        obj_get(fields, "window_label"@) == Some(fields[1].1),
        obj_get(fields, "message"@) == Some(fields[2].1),
{
    reveal_strlit("success");
    reveal_strlit("window_label");
    reveal_strlit("message");
    assert("success"@.len() == 7);
    assert("window_label"@.len() == 12);
    assert("message"@.len() == 7);
    assert("success"@[0] == 's' && "message"@[0] == 'm');
    lemma_obj_get_at(fields, 0, "success"@);
    lemma_obj_get_at(fields, 1, "window_label"@);
    lemma_obj_get_at(fields, 2, "message"@);
}

} // verus!
