//! What a handler decides to do, separated from the transport that does it.
//!
//! Every handler first validates its payload and resolves its target
//! context, then produces a [`Step`]: an immediate envelope, a
//! fire-and-forget notification, a correlation-bridge call, or a native
//! window action. The host performs the effect and reports an outcome; the
//! matching `finish` function shapes the outcome into the final envelope.

use vstd::prelude::*;
use crate::envelope::Envelope;
use crate::error::Error;
use crate::value::Value;

verus! {

/// Which decoder interprets a bridge reply for the command that asked.
pub enum ReplyKind {
    ConsoleLogs,
    Exceptions,
    NetworkRequests,
    Storage,
    Script,
}

/// One correlation-bridge round trip: publish `task_payload` to the context
/// under `task_topic`, await a single reply on `reply_topic`, give up after
/// `timeout_ms`.
pub struct CallPlan {
    pub window_label: String,
    pub task_topic: String,
    pub task_payload: Value,
    pub reply_topic: String,
    pub timeout_ms: u64,
    pub operation: String,
    pub kind: ReplyKind,
}

/// One fire-and-forget notification to a context, with the envelope data
/// already prepared for the success case.
pub struct NotifyPlan {
    pub window_label: String,
    pub topic: String,
    pub payload: Value,
    pub ok_data: Value,
    pub operation: String,
}

/// One native window action that no context script performs.
pub enum NativeAction {
    /// Reload the window by navigating to its current URL.
    Reload,
    /// Locate the window on screen and capture its pixels.
    Screenshot { application_name: String },
    /// A window-management action named by the request.
    WindowControl { action: String },
    /// Synthesize user input into the window.
    Input,
}

pub struct NativePlan {
    pub window_label: String,
    pub action: NativeAction,
}

/// A handler's decision: reply now, or ask the host for one effect.
pub enum Step {
    Reply(Envelope),
    Notify(NotifyPlan),
    Call(CallPlan),
    Native(NativePlan),
}

impl Step {
    /// Every envelope a step can immediately carry is well formed.
    pub open spec fn wf(&self) -> bool {
        match self {
            Step::Reply(env) => env.wf(),
            _ => true,
        }
    }
}

/// What the host reports for one notification.
pub enum NotifyOutcome {
    Sent,
    /// Publish failed; carries the transport's reason.
    Failed(String),
}

/// What the host reports for one native window action.
pub enum NativeOutcome {
    /// The action succeeded with this result data.
    Done(Value),
    /// The action failed in a way the handler folds into a failed envelope.
    Soft(String),
    /// The action failed before it could be attempted; propagated as a
    /// window-operation error.
    Hard { operation: String, reason: String },
}

/// Shapes a notification outcome: success keeps the prepared data, and a
/// failed publish becomes a communication error naming the operation and
/// the window, folded into envelope form.
pub fn finish_notify(plan: NotifyPlan, outcome: NotifyOutcome) -> (r: Envelope)
    ensures
        r.wf(),
        match outcome {
            NotifyOutcome::Sent => {
                &&& r.success
                &&& r.data == Some(plan.ok_data)
            },
            NotifyOutcome::Failed(reason) => {
                &&& !r.success
                &&& r.error is Some
                &&& r.error->0@ == (Error::CommunicationError {
                    message: plan.operation,
                    context: None,
                }).spec_message()
            },
        },
{
    match outcome {
        NotifyOutcome::Sent => Envelope::ok(plan.ok_data),
        NotifyOutcome::Failed(reason) => {
            let mut context = String::from_str("window: ");
            context.append(plan.window_label.as_str());
            context.append(", error: ");
            context.append(reason.as_str());
            let e = Error::communication_error_with_context(plan.operation, context);
            Envelope::from_error(&e)
        },
    }
}

/// Shapes a native action outcome: result data passes into a successful
/// envelope, a soft failure becomes a failed envelope with the reason, and
/// a hard failure is folded from the window-operation error.
pub fn finish_native(outcome: NativeOutcome) -> (r: Envelope)
    ensures
        r.wf(),
        match outcome {
            NativeOutcome::Done(data) => {
                &&& r.success
                &&& r.data == Some(data)
            },
            NativeOutcome::Soft(reason) => {
                &&& !r.success
                &&& r.error == Some(reason)
            },
            NativeOutcome::Hard { operation, reason } => {
                &&& !r.success
                &&& r.error is Some
                &&& r.error->0@ == (Error::WindowOperationFailed {
                    operation,
                    reason,
                    context: None,
                }).spec_message()
            },
        },
{
    match outcome {
        NativeOutcome::Done(data) => Envelope::ok(data),
        NativeOutcome::Soft(reason) => Envelope::fail(reason),
        NativeOutcome::Hard { operation, reason } => {
            let e = Error::window_operation_failed(operation, reason);
            Envelope::from_error(&e)
        },
    }
}

} // verus!
