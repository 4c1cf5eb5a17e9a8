//! The response envelope: the only shape ever returned to a client. When a
//! dispatch fails, only `error` is populated; when it succeeds, `error` is
//! absent.

use vstd::prelude::*;
use crate::error::Error;
use crate::value::Value;

verus! {

/// The uniform `{success, data, error}` result of every dispatch.
pub struct Envelope {
    pub success: bool,
    pub data: Option<Value>,
    pub error: Option<String>,
}

impl Envelope {
    /// The envelope invariant: a failed envelope carries no data, and a
    /// successful one carries no error.
    pub open spec fn wf(&self) -> bool {
        &&& !self.success ==> self.data is None
        &&& self.success ==> self.error is None
    }

    /// A successful envelope carrying `data`.
    pub fn ok(data: Value) -> (r: Envelope)
        ensures
            r.success,
            r.data == Some(data),
            r.error is None,
            r.wf(),
    {
        Envelope { success: true, data: Some(data), error: None }
    }

    /// A successful envelope with no data.
    pub fn ok_empty() -> (r: Envelope)
        ensures
            r.success,
            r.data is None,
            r.error is None,
            r.wf(),
    {
        Envelope { success: true, data: None, error: None }
    }

    /// A failed envelope carrying `message`.
    pub fn fail(message: String) -> (r: Envelope)
        ensures
            !r.success,
            r.data is None,
            r.error == Some(message),
            r.wf(),
    {
        Envelope { success: false, data: None, error: Some(message) }
    }

    /// Folds a propagated error into envelope form: the dispatcher's
    /// chokepoint, so no `Error` ever escapes to a client.
    pub fn from_error(e: &Error) -> (r: Envelope)
        ensures
            !r.success,
            r.data is None,
            r.error is Some,
            r.error->0@ == e.spec_message(),
            r.wf(),
    {
        Envelope { success: false, data: None, error: Some(e.message()) }
    }
}

} // verus!
