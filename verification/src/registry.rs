//! The execution-context registry, modelled by what the handlers read of it:
//! which logical context names are currently live. The host application owns
//! the real registry; callers snapshot the live labels into this model per
//! request, never caching across requests.

use vstd::prelude::*;
use crate::error::Error;
use crate::strutil::str_eq;

verus! {

/// The label every handler falls back to when a request names no context.
pub open spec fn spec_default_label() -> Seq<char> {
    "main"@
}

/// A snapshot of the registry: the labels of the live execution contexts.
pub struct Registry {
    pub labels: Vec<String>,
}

impl Registry {
    /// Whether a context with this label is live.
    pub open spec fn spec_has(&self, label: Seq<char>) -> bool {
        exists|i: int| 0 <= i < self.labels@.len() && #[trigger] self.labels@[i]@ == label
    }

    pub fn new() -> (r: Registry)
        ensures
            r.labels@ =~= Seq::<String>::empty(),
    {
        Registry { labels: Vec::new() }
    }

    /// Records one live context label.
    pub fn add(&mut self, label: String)
        ensures
            final(self).labels@ =~= old(self).labels@ + seq![label],
            final(self).spec_has(label@),
    {
        self.labels.push(label);
        proof {
            assert(final(self).labels@[old(self).labels@.len() as int]@ == label@);
        }
    }

    pub fn has(&self, label: &str) -> (r: bool)
        ensures
            r == self.spec_has(label@),
    {
        let n = self.labels.len();
        let mut i: usize = 0;
        while i < n
            invariant
                n == self.labels@.len(),
                i <= n,
                forall|j: int| 0 <= j < i ==> #[trigger] self.labels@[j]@ != label@,
            decreases n - i,
        {
            if str_eq(self.labels[i].as_str(), label) {
                return true;
            }
            i = i + 1;
        }
        false
    }
}

/// Whether the requested label (or the default) names a live context.
pub open spec fn spec_resolves(registry: &Registry, requested: Option<String>) -> bool {
    match requested {
        Some(l) => registry.spec_has(l@),
        None => registry.spec_has(spec_default_label()),
    }
}

/// The label a request resolves to: the one it names, or `"main"`.
pub open spec fn spec_effective_label(requested: Option<String>, label: Seq<char>) -> bool {
    match requested {
        Some(l) => label == l@,
        None => label == spec_default_label(),
    }
}

/// Resolves the requested context label against the registry: the label
/// defaults to `"main"`, and resolution fails with `WindowNotFound` carrying
/// that exact label when no such context is live.
pub fn resolve_window(registry: &Registry, requested: &Option<String>) -> (r: Result<
    String,
    Error,
>)
    ensures
        match r {
            Ok(label) => {
                &&& spec_effective_label(*requested, label@)
                &&& registry.spec_has(label@)
            },
            Err(e) => {
                &&& e is WindowNotFound
                &&& spec_effective_label(*requested, e->WindowNotFound_label@)
                &&& !registry.spec_has(e->WindowNotFound_label@)
            },
        },
{
    let label: String = match requested {
        Some(l) => l.clone(),
        None => String::from_str("main"),
    };
    if registry.has(label.as_str()) {
        Ok(label)
    } else {
        Err(Error::window_not_found(label))
    }
}

} // verus!
