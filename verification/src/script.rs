//! The shaping every script-execution command shares: a task is published
//! under `execute-js`, and the single reply carries either an `error`
//! string or a `result` string that itself holds the structured result.
//! Decoding that inner text is the transport's work; [`script_parse_done`]
//! takes the transport's verdict and finishes the envelope.

use vstd::prelude::*;
use crate::bridge::CallOutcome;
use crate::envelope::Envelope;
use crate::error::Error;
use crate::strutil::dec_seq;
use crate::value::{lemma_obj_get_at, Value};

verus! {

broadcast use vstd::string::group_string_axioms;

/// What remains to do after one script reply: the envelope is done, or the
/// reply's `result` text still has to be decoded as a structured value.
pub enum ScriptStep {
    Done(Envelope),
    ParseResult(String),
}

/// The application-level error a script reply carries, if any.
pub open spec fn spec_script_error(v: Value) -> Option<Seq<char>> {
    match v.spec_get("error"@) {
        Some(Value::Str(s)) => Some(s@),
        _ => None,
    }
}

/// The `result` text of a script reply, if it is a string.
pub open spec fn spec_script_result(v: Value) -> Option<Seq<char>> {
    match v.spec_get("result"@) {
        Some(Value::Str(s)) => Some(s@),
        _ => None,
    }
}

/// Shapes a script call's outcome as far as the reply alone allows: a
/// reply error is folded into a failed envelope verbatim; a missing or
/// non-string `result` fails with the command's own text; a timeout, a
/// failed publish and a malformed reply are propagated errors folded at
/// this chokepoint; and a string `result` is handed on for decoding.
pub fn script_reply_step(
    outcome: CallOutcome,
    operation: &str,
    timeout_ms: u64,
    emit_failed_msg: &str,
    parse_failed_prefix: &str,
    no_result_msg: &str,
    not_string_msg: &str,
) -> (r: ScriptStep)
    ensures
        match r {
            ScriptStep::Done(env) => {
                &&& env.wf()
                &&& match outcome {
                    CallOutcome::Reply(v) => match spec_script_error(v) {
                        Some(msg) => !env.success && env.error is Some && env.error->0@ == msg,
                        None => match spec_script_result(v) {
                            Some(_) => false,
                            None => {
                                &&& !env.success
                                &&& env.error is Some
                                &&& if v.spec_get("result"@) is Some {
                                    env.error->0@ == not_string_msg@
                                } else {
                                    env.error->0@ == no_result_msg@
                                }
                            },
                        },
                    },
                    CallOutcome::TimedOut => {
                        &&& !env.success
                        &&& env.error is Some
                        &&& env.error->0@ == "Operation timed out: "@ + operation@
                            + " (exceeded "@ + dec_seq(timeout_ms as nat) + "ms)"@
                    },
                    CallOutcome::PublishFailed(_) => {
                        &&& !env.success
                        &&& env.error is Some
                        &&& env.error->0@ == "Communication error: "@ + emit_failed_msg@
                    },
                    CallOutcome::MalformedReply(m) => {
                        &&& !env.success
                        &&& env.error is Some
                        &&& env.error->0@ == "Serialization error: "@ + parse_failed_prefix@
                            + m@
                    },
                }
            },
            ScriptStep::ParseResult(raw) => {
                &&& outcome matches CallOutcome::Reply(v) && spec_script_error(v) is None
                    && spec_script_result(v) == Some(raw@)
            },
        },
{
    match outcome {
        CallOutcome::Reply(v) => {
            if let Some(err_v) = v.get("error") {
                if let Some(s) = err_v.as_str() {
                    return ScriptStep::Done(Envelope::fail(s.clone()));
                }
            }
            match v.get("result") {
                Some(res) => match res.as_str() {
                    Some(s) => ScriptStep::ParseResult(s.clone()),
                    None => ScriptStep::Done(Envelope::fail(String::from_str(not_string_msg))),
                },
                None => ScriptStep::Done(Envelope::fail(String::from_str(no_result_msg))),
            }
        },
        CallOutcome::TimedOut => {
            let e = Error::timeout_error(String::from_str(operation), timeout_ms);
            ScriptStep::Done(Envelope::from_error(&e))
        },
        CallOutcome::PublishFailed(m) => {
            let mut context = String::from_str("transport: ");
            context.append(m.as_str());
            let e = Error::communication_error_with_context(
                String::from_str(emit_failed_msg),
                context,
            );
            ScriptStep::Done(Envelope::from_error(&e))
        },
        CallOutcome::MalformedReply(m) => {
            let mut msg = String::from_str(parse_failed_prefix);
            msg.append(m.as_str());
            let e = Error::serialization_error(msg);
            ScriptStep::Done(Envelope::from_error(&e))
        },
    }
}

/// Finishes a script envelope from the transport's decoding of the reply's
/// `result` text: a structured value becomes the envelope data verbatim,
/// and text that does not decode is still a successful envelope carrying
/// the raw text beside the decode error, as the raw-result fallback.
pub fn script_parse_done(raw: String, parsed: Result<Value, String>) -> (r: Envelope)
    ensures
        r.wf(),
        r.success,
        r.data is Some,
        match parsed {
            Ok(v) => r.data == Some(v),
            Err(e) => {
                &&& match r.data->0.spec_get("raw_result"@) {
                    Some(Value::Str(s)) => s@ == raw@,
                    _ => false,
                }
                &&& match r.data->0.spec_get("parse_error"@) {
                    Some(Value::Str(s)) => s@ == e@,
                    _ => false,
                }
            },
        },
{
    match parsed {
        Ok(v) => Envelope::ok(v),
        Err(e) => {
            let mut fields: Vec<(String, Value)> = Vec::new();
            fields.push((String::from_str("raw_result"), Value::Str(raw)));
            fields.push((String::from_str("parse_error"), Value::Str(e)));
            let data = Value::Obj(fields);
            proof {
                reveal_strlit("raw_result");
                reveal_strlit("parse_error");
                assert("raw_result"@.len() == 10);
                assert("parse_error"@.len() == 11);
                lemma_obj_get_at(data->Obj_0@, 0, "raw_result"@);
                lemma_obj_get_at(data->Obj_0@, 1, "parse_error"@);
            }
            Envelope::ok(data)
        },
    }
}

} // verus!
