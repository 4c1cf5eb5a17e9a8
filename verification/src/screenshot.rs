//! The screenshot command's window search: the host enumerates the
//! on-screen windows and captures pixels; this module holds the selection
//! logic — which window the capture targets — over a plain model of what
//! the search reads of each window.

use vstd::prelude::*;
use crate::error::Error;
use crate::fields::{opt_string_field, spec_field_error, spec_opt_string};
use crate::plan::{NativeAction, NativePlan, Step};
use crate::registry::{resolve_window, spec_effective_label, Registry};
use crate::strutil::{is_substring, lower_of, str_contains, to_lowercase};
use crate::value::Value;

verus! {

/// What the window search reads of one on-screen window.
pub struct WindowMeta {
    pub title: String,
    pub app_name: String,
    pub minimized: bool,
}

/// Whether a window is a capture candidate for the query: it is not
/// minimized, and its lowercased application name contains the lowercased
/// query.
pub open spec fn spec_window_matches(w: WindowMeta, app_query: Seq<char>) -> bool {
    &&& !w.minimized
    &&& is_substring(lower_of(w.app_name@), lower_of(app_query))
}

/// Finds the capture target among the on-screen windows: the first
/// non-minimized window whose application name contains the query,
/// case-insensitively. An empty query matches no window, as no application
/// was named to search for. The window title identifies the request in the
/// host's diagnostics and plays no part in the selection.
pub fn find_window(windows: &Vec<WindowMeta>, window_title: &str, application_name: &str) -> (r:
    Option<usize>)
    ensures
        match r {
            Some(i) => {
                &&& application_name@.len() != 0
                &&& i < windows@.len()
                &&& spec_window_matches(windows@[i as int], application_name@)
                &&& forall|j: int|
                    0 <= j < i ==> !spec_window_matches(
                        #[trigger] windows@[j],
                        application_name@,
                    )
            },
            None => application_name@.len() == 0 || forall|j: int|
                0 <= j < windows@.len() ==> !spec_window_matches(
                    #[trigger] windows@[j],
                    application_name@,
                ),
        },
{
    if application_name.unicode_len() == 0 {
        return None;
    }
    let query = to_lowercase(application_name);
    let n = windows.len();
    let mut i: usize = 0;
    while i < n
        invariant
            application_name@.len() != 0,
            query@ == lower_of(application_name@),
            n == windows@.len(),
            i <= n,
            forall|j: int|
                0 <= j < i ==> !spec_window_matches(#[trigger] windows@[j], application_name@),
        decreases n - i,
    {
        let w = &windows[i];
        if !w.minimized {
            let app = to_lowercase(w.app_name.as_str());
            if str_contains(app.as_str(), query.as_str()) {
                return Some(i);
            }
        }
        i = i + 1;
    }
    None
}

/// Validates a `take-screenshot` payload, resolves the target context, and
/// plans the native capture: the host locates the window by application
/// name and captures its pixels.
pub fn start_take_screenshot(payload: &Value, registry: &Registry) -> (r: Result<Step, Error>)
    ensures
        match r {
            Ok(step) => {
                &&& spec_opt_string(*payload, "window_label"@) is Some
                &&& spec_opt_string(*payload, "application_name"@) is Some
                &&& step matches Step::Native(plan) && {
                    &&& spec_effective_label(
                        spec_opt_string(*payload, "window_label"@)->0,
                        plan.window_label@,
                    )
                    &&& registry.spec_has(plan.window_label@)
                    &&& plan.action matches NativeAction::Screenshot { application_name }
                        && application_name@ == (
                    match spec_opt_string(*payload, "application_name"@)->0 {
                        Some(a) => a@,
                        None => Seq::<char>::empty(),
                    })
                }
            },
            Err(e) => match e {
                Error::SerializationError { message } => !(spec_opt_string(
                    *payload,
                    "window_label"@,
                ) is Some && spec_opt_string(*payload, "application_name"@) is Some)
                    && message@ == "Invalid payload for screenshot: "@ + (
                if spec_opt_string(*payload, "window_label"@) is None {
                    spec_field_error("window_label"@, "a string"@)
                } else {
                    spec_field_error("application_name"@, "a string"@)
                }),
                Error::WindowNotFound { label } => {
                    &&& spec_effective_label(
                        spec_opt_string(*payload, "window_label"@)->0,
                        label@,
                    )
                    &&& !registry.spec_has(label@)
                },
                _ => false,
            },
        },
{
    let window_label_req = match opt_string_field(payload, "window_label") {
        Ok(v) => v,
        Err(m) => {
            let mut s = String::from_str("Invalid payload for screenshot: ");
            s.append(m.as_str());
            return Err(Error::serialization_error(s));
        },
    };
    let application_name_req = match opt_string_field(payload, "application_name") {
        Ok(v) => v,
        Err(m) => {
            let mut s = String::from_str("Invalid payload for screenshot: ");
            s.append(m.as_str());
            return Err(Error::serialization_error(s));
        },
    };
    let window_label = match resolve_window(registry, &window_label_req) {
        Ok(l) => l,
        Err(e) => {
            return Err(e);
        },
    };
    let application_name: String = match application_name_req {
        Some(a) => a,
        None => String::new(),
    };
    Ok(
        Step::Native(
            NativePlan { window_label, action: NativeAction::Screenshot { application_name } },
        ),
    )
}

} // verus!
