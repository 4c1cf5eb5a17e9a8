//! The component-introspection command: runs a bounded tree walk over the
//! context's component graph, with depth and size limits, and returns the
//! framework kind, the component list and truncation metadata.
//!
//! The walk itself runs inside the context as injected script; its content
//! is opaque to the bridge's contract. What the bridge does pin down is the
//! task text's shape — the depth cap and the escaped filter are embedded at
//! fixed places — and, as [`component_tree`], the walk's own semantics over
//! a modelled component graph: bounded, cycle-safe, and honestly flagged
//! when it truncates.

use vstd::prelude::*;
use crate::bridge::CallOutcome;
use crate::error::Error;
use crate::fields::{opt_string_field, opt_u64_field, opt_usize_field, spec_field_error, spec_opt_string, spec_opt_u64, spec_opt_usize};
use crate::plan::{CallPlan, ReplyKind, Step};
use crate::registry::{resolve_window, spec_effective_label, Registry};
use crate::script::{script_reply_step, spec_script_error, spec_script_result, ScriptStep};
use crate::strutil::{dec_seq, escape_single_quotes, spec_escape_quotes, u64_to_string};
use crate::value::Value;
use vstd::pervasive::VecAdditionalExecFns;

verus! {

broadcast use vstd::string::group_string_axioms;

/// The decoded request for `devtools-bridge`.
pub struct DevToolsBridgeRequest {
    pub window_label: Option<String>,
    pub max_depth: Option<usize>,
    pub component_filter: Option<String>,
    pub timeout_ms: Option<u64>,
}

/// The framework detected inside the context.
pub struct FrameworkInfo {
    pub framework_type: String,
    pub react_version: Option<String>,
    pub vue_version: Option<String>,
}

/// One hook observed on a component.
pub struct HookInfo {
    pub hook_name: String,
    pub hook_value: Value,
}

/// One component of the walked tree.
pub struct ComponentInfo {
    pub name: String,
    pub id: String,
    pub props: Option<Value>,
    pub state: Option<Value>,
    pub hooks: Option<Vec<HookInfo>>,
    pub children: Option<Vec<ComponentInfo>>,
    pub depth: usize,
}

/// How the walk ended: what was counted, and whether a limit cut it short.
pub struct DevToolsMetadata {
    pub max_depth_reached: bool,
    pub total_components: usize,
    pub truncated: bool,
    pub errors: Vec<String>,
}

/// The shaped response for `devtools-bridge`.
pub struct DevToolsBridgeResponse {
    pub framework: FrameworkInfo,
    pub components: Vec<ComponentInfo>,
    pub metadata: DevToolsMetadata,
}

/// Whether a payload decodes into a [`DevToolsBridgeRequest`].
pub open spec fn spec_devtools_request_decodes(payload: Value) -> bool {
    &&& spec_opt_string(payload, "window_label"@) is Some
    &&& spec_opt_usize(payload, "max_depth"@) is Some
    &&& spec_opt_string(payload, "component_filter"@) is Some
    &&& spec_opt_u64(payload, "timeout_ms"@) is Some
}

/// The decode-failure text of the first request field of the wrong shape,
/// in the order the fields are read.
pub open spec fn spec_devtools_decode_error(payload: Value) -> Seq<char> {
    if spec_opt_string(payload, "window_label"@) is None {
        spec_field_error("window_label"@, "a string"@)
    } else if spec_opt_usize(payload, "max_depth"@) is None {
        spec_field_error("max_depth"@, "an unsigned integer"@)
    } else if spec_opt_string(payload, "component_filter"@) is None {
        spec_field_error("component_filter"@, "a string"@)
    } else {
        spec_field_error("timeout_ms"@, "an unsigned integer"@)
    }
}

/// Decodes the request payload; a field of the wrong shape is a
/// serialization error carrying the decode text.
pub fn parse_devtools_request(payload: &Value) -> (r: Result<DevToolsBridgeRequest, Error>)
    ensures
        match r {
            Ok(req) => {
                &&& spec_devtools_request_decodes(*payload)
                &&& Some(req.window_label) == spec_opt_string(*payload, "window_label"@)
                &&& Some(req.max_depth) == spec_opt_usize(*payload, "max_depth"@)
                &&& Some(req.component_filter) == spec_opt_string(*payload, "component_filter"@)
                &&& Some(req.timeout_ms) == spec_opt_u64(*payload, "timeout_ms"@)
            },
            Err(e) => {
                &&& !spec_devtools_request_decodes(*payload)
                &&& e matches Error::SerializationError { message } && message@
                    == "Invalid payload for devtools_bridge: "@ + spec_devtools_decode_error(
                    *payload,
                )
            },
        },
{
    let window_label = match opt_string_field(payload, "window_label") {
        Ok(v) => v,
        Err(m) => {
            return Err(Error::serialization_error(decode_error(m)));
        },
    };
    let max_depth = match opt_usize_field(payload, "max_depth") {
        Ok(v) => v,
        Err(m) => {
            return Err(Error::serialization_error(decode_error(m)));
        },
    };
    let component_filter = match opt_string_field(payload, "component_filter") {
        Ok(v) => v,
        Err(m) => {
            return Err(Error::serialization_error(decode_error(m)));
        },
    };
    let timeout_ms = match opt_u64_field(payload, "timeout_ms") {
        Ok(v) => v,
        Err(m) => {
            return Err(Error::serialization_error(decode_error(m)));
        },
    };
    Ok(DevToolsBridgeRequest { window_label, max_depth, component_filter, timeout_ms })
}

fn decode_error(m: String) -> (r: String)
    ensures
        r@ == "Invalid payload for devtools_bridge: "@ + m@,
{
    let mut s = String::from_str("Invalid payload for devtools_bridge: ");
    s.append(m.as_str());
    s
}

/// The introspection task text: a fixed script frame around the depth cap
/// and the escaped component filter.
pub open spec fn spec_devtools_code(max_depth: nat, filter: Seq<char>) -> Seq<char> {
    devtools_code_head() + dec_seq(max_depth) + devtools_code_mid() + spec_escape_quotes(filter)
        + devtools_code_tail()
}

/// The script frame before the depth cap.
pub open spec fn devtools_code_head() -> Seq<char> {
    "(async () => {
    try {
        const errors = [];
        const MAX_DEPTH = "@
}

/// The script frame between the depth cap and the filter.
pub open spec fn devtools_code_mid() -> Seq<char> {
    ";
        const MAX_COMPONENTS = 500;
        const seen = new WeakSet();
        const FILTER = '"@
}

/// The script frame after the filter: the walk itself, cycle-safe and
/// bounded, publishing one reply on the script reply topic.
pub open spec fn devtools_code_tail() -> Seq<char> {
    "';
        let componentCount = 0;
        let maxDepthReached = false;
        const components = [];
        function visit(node, depth) {
            if (!node) return;
            if (depth > MAX_DEPTH) { maxDepthReached = true; return; }
            if (componentCount >= MAX_COMPONENTS) return;
            if (seen.has(node)) { components.push({ name: '[Circular Reference]', depth: depth }); return; }
            try { seen.add(node); } catch (e) {}
            const name = node.name || 'Anonymous';
            if (!FILTER || name.indexOf(FILTER) >= 0) {
                componentCount++;
                components.push({ name: name, id: String(node.id || componentCount), depth: depth });
            }
            const kids = node.children || [];
            for (const child of kids) { visit(child, depth + 1); }
        }
        const hook = window.__REACT_DEVTOOLS_GLOBAL_HOOK__ || window.__VUE_DEVTOOLS_GLOBAL_HOOK__;
        const frameworkType = window.__REACT_DEVTOOLS_GLOBAL_HOOK__ ? (window.__VUE_DEVTOOLS_GLOBAL_HOOK__ ? 'both' : 'react') : (window.__VUE_DEVTOOLS_GLOBAL_HOOK__ ? 'vue' : 'none');
        if (hook && hook.currentFiber) { visit(hook.currentFiber, 0); }
        const response = {
            framework: { framework_type: frameworkType, react_version: (window.React && window.React.version) || null, vue_version: (window.__VUE__ && window.__VUE__.version) || null },
            components: components,
            metadata: { max_depth_reached: maxDepthReached, total_components: componentCount, truncated: componentCount >= MAX_COMPONENTS, errors: errors }
        };
        window.dispatchEvent(new CustomEvent('execute-js-response', { detail: { result: JSON.stringify(response), type: 'object' } }));
    } catch (error) {
        window.dispatchEvent(new CustomEvent('execute-js-response', { detail: { error: 'DevTools bridge error: ' + error.message, type: 'error' } }));
    }
})();"@
}

/// Builds the introspection task text, embedding the depth cap and the
/// filter with its single quotes escaped.
pub fn generate_devtools_bridge_code(max_depth: usize, component_filter: Option<String>) -> (r:
    String)
    ensures
        r@ == spec_devtools_code(
            max_depth as nat,
            match component_filter {
                Some(f) => f@,
                None => Seq::<char>::empty(),
            },
        ),
{
    let filter: String = match component_filter {
        Some(f) => f,
        None => String::new(),
    };
    let escaped = escape_single_quotes(filter.as_str());
    let mut code = String::from_str(
        "(async () => {
    try {
        const errors = [];
        const MAX_DEPTH = ",
    );
    let depth_str = u64_to_string(max_depth as u64);
    code.append(depth_str.as_str());
    code.append(
        ";
        const MAX_COMPONENTS = 500;
        const seen = new WeakSet();
        const FILTER = '",
    );
    code.append(escaped.as_str());
    code.append(
        "';
        let componentCount = 0;
        let maxDepthReached = false;
        const components = [];
        function visit(node, depth) {
            if (!node) return;
            if (depth > MAX_DEPTH) { maxDepthReached = true; return; }
            if (componentCount >= MAX_COMPONENTS) return;
            if (seen.has(node)) { components.push({ name: '[Circular Reference]', depth: depth }); return; }
            try { seen.add(node); } catch (e) {}
            const name = node.name || 'Anonymous';
            if (!FILTER || name.indexOf(FILTER) >= 0) {
                componentCount++;
                components.push({ name: name, id: String(node.id || componentCount), depth: depth });
            }
            const kids = node.children || [];
            for (const child of kids) { visit(child, depth + 1); }
        }
        const hook = window.__REACT_DEVTOOLS_GLOBAL_HOOK__ || window.__VUE_DEVTOOLS_GLOBAL_HOOK__;
        const frameworkType = window.__REACT_DEVTOOLS_GLOBAL_HOOK__ ? (window.__VUE_DEVTOOLS_GLOBAL_HOOK__ ? 'both' : 'react') : (window.__VUE_DEVTOOLS_GLOBAL_HOOK__ ? 'vue' : 'none');
        if (hook && hook.currentFiber) { visit(hook.currentFiber, 0); }
        const response = {
            framework: { framework_type: frameworkType, react_version: (window.React && window.React.version) || null, vue_version: (window.__VUE__ && window.__VUE__.version) || null },
            components: components,
            metadata: { max_depth_reached: maxDepthReached, total_components: componentCount, truncated: componentCount >= MAX_COMPONENTS, errors: errors }
        };
        window.dispatchEvent(new CustomEvent('execute-js-response', { detail: { result: JSON.stringify(response), type: 'object' } }));
    } catch (error) {
        window.dispatchEvent(new CustomEvent('execute-js-response', { detail: { error: 'DevTools bridge error: ' + error.message, type: 'error' } }));
    }
})();",
    );
    proof {
        assert(code@ =~= spec_devtools_code(
            max_depth as nat,
            match component_filter {
                Some(f) => f@,
                None => Seq::<char>::empty(),
            },
        ));
    }
    code
}

/// The default depth cap when a request names none.
pub open spec fn spec_default_max_depth() -> usize {
    10
}

/// The default deadline, in milliseconds, when a request names none.
pub open spec fn spec_default_script_timeout() -> u64 {
    5000
}

/// Validates a `devtools-bridge` payload, resolves the target context, and
/// plans the bridge round trip: the generated task text is published under
/// `execute-js`, and one reply is awaited on the script reply topic.
pub fn start_devtools_bridge(payload: &Value, registry: &Registry) -> (r: Result<Step, Error>)
    ensures
        match r {
            Ok(step) => {
                &&& spec_devtools_request_decodes(*payload)
                &&& step matches Step::Call(plan) && {
                    &&& spec_effective_label(
                        spec_opt_string(*payload, "window_label"@)->0,
                        plan.window_label@,
                    )
                    &&& registry.spec_has(plan.window_label@)
                    &&& plan.task_topic@ == "execute-js"@
                    &&& plan.reply_topic@ == "execute-js-response"@
                    &&& plan.timeout_ms == (match spec_opt_u64(*payload, "timeout_ms"@)->0 {
                        Some(t) => t,
                        None => spec_default_script_timeout(),
                    })
                    &&& plan.kind is Script
                    &&& plan.operation@ == "devtools bridge execution"@
                    &&& plan.task_payload matches Value::Str(code) && code@ == spec_devtools_code(
                        match spec_opt_usize(*payload, "max_depth"@)->0 {
                            Some(d) => d as nat,
                            None => spec_default_max_depth() as nat,
                        },
                        match spec_opt_string(*payload, "component_filter"@)->0 {
                            Some(f) => f@,
                            None => Seq::<char>::empty(),
                        },
                    )
                }
            },
            Err(e) => match e {
                Error::SerializationError { message } => !spec_devtools_request_decodes(
                    *payload,
                ) && message@ == "Invalid payload for devtools_bridge: "@
                    + spec_devtools_decode_error(*payload),
                Error::WindowNotFound { label } => {
                    &&& spec_devtools_request_decodes(*payload)
                    &&& spec_effective_label(
                        spec_opt_string(*payload, "window_label"@)->0,
                        label@,
                    )
                    &&& !registry.spec_has(label@)
                },
                _ => false,
            },
        },
{
    let req = match parse_devtools_request(payload) {
        Ok(req) => req,
        Err(e) => {
            return Err(e);
        },
    };
    let window_label = match resolve_window(registry, &req.window_label) {
        Ok(l) => l,
        Err(e) => {
            return Err(e);
        },
    };
    let max_depth: usize = match req.max_depth {
        Some(d) => d,
        None => 10,
    };
    let timeout_ms: u64 = match req.timeout_ms {
        Some(t) => t,
        None => 5000,
    };
    let code = generate_devtools_bridge_code(max_depth, req.component_filter);
    Ok(
        Step::Call(
            CallPlan {
                window_label,
                task_topic: String::from_str("execute-js"),
                task_payload: Value::Str(code),
                reply_topic: String::from_str("execute-js-response"),
                timeout_ms,
                operation: String::from_str("devtools bridge execution"),
                kind: ReplyKind::Script,
            },
        ),
    )
}

/// Shapes the outcome of a `devtools-bridge` call as far as the reply
/// allows, with this command's failure texts.
pub fn finish_devtools_bridge(outcome: CallOutcome, timeout_ms: u64) -> (r: ScriptStep)
    ensures
        match r {
            ScriptStep::Done(env) => {
                &&& env.wf()
                &&& match outcome {
                    CallOutcome::Reply(v) => match spec_script_error(v) {
                        Some(msg) => !env.success && env.error is Some && env.error->0@ == msg,
                        None => match spec_script_result(v) {
                            Some(_) => false,
                            None => {
                                &&& !env.success
                                &&& env.error is Some
                                &&& if v.spec_get("result"@) is Some {
                                    env.error->0@ == "DevTools result is not a string"@
                                } else {
                                    env.error->0@ == "No result in devtools response"@
                                }
                            },
                        },
                    },
                    CallOutcome::TimedOut => {
                        &&& !env.success
                        &&& env.error is Some
                        &&& env.error->0@ == "Operation timed out: devtools bridge execution (exceeded "@
                            + dec_seq(timeout_ms as nat) + "ms)"@
                    },
                    CallOutcome::PublishFailed(_) => {
                        &&& !env.success
                        &&& env.error is Some
                        &&& env.error->0@
                            == "Communication error: Failed to emit execute-js event"@
                    },
                    CallOutcome::MalformedReply(m) => {
                        &&& !env.success
                        &&& env.error is Some
                        &&& env.error->0@
                            == "Serialization error: Failed to parse devtools response: "@ + m@
                    },
                }
            },
            ScriptStep::ParseResult(raw) => {
                &&& outcome matches CallOutcome::Reply(v) && spec_script_error(v) is None
                    && spec_script_result(v) == Some(raw@)
            },
        },
{
    let r = script_reply_step(
        outcome,
        "devtools bridge execution",
        timeout_ms,
        "Failed to emit execute-js event",
        "Failed to parse devtools response: ",
        "No result in devtools response",
        "DevTools result is not a string",
    );
    proof {
        reveal_strlit("Operation timed out: ");
        reveal_strlit("devtools bridge execution");
        reveal_strlit("Operation timed out: devtools bridge execution (exceeded ");
        reveal_strlit(" (exceeded ");
        reveal_strlit("Communication error: ");
        reveal_strlit("Failed to emit execute-js event");
        reveal_strlit("Communication error: Failed to emit execute-js event");
        reveal_strlit("Serialization error: ");
        reveal_strlit("Failed to parse devtools response: ");
        reveal_strlit("Serialization error: Failed to parse devtools response: ");
    }
    r
}

/// One node of a modelled component graph: edges point at node indices, so
/// a cyclic graph is expressible.
pub struct GraphNode {
    pub name: String,
    pub children: Vec<usize>,
}

/// One walked entry: a component's name and depth, or a circular-reference
/// marker where the walk met an already-visited node.
pub struct WalkEntry {
    pub name: String,
    pub depth: usize,
    pub circular: bool,
}

/// The walk's result: the entries in visit order, and the truncation
/// metadata the command reports.
pub struct ComponentTreeResult {
    pub entries: Vec<WalkEntry>,
    pub total_components: usize,
    pub max_depth_reached: bool,
    pub truncated: bool,
}

/// Every edge of the graph stays inside it.
pub open spec fn graph_wf(nodes: Seq<GraphNode>) -> bool {
    forall|i: int, j: int|
        0 <= i < nodes.len() && 0 <= j < nodes[i].children@.len() ==> (
        #[trigger] nodes[i].children@[j]) < nodes.len()
}

/// How many nodes are still unvisited.
pub open spec fn count_unseen(seen: Seq<bool>) -> nat
    decreases seen.len(),
{
    if seen.len() == 0 {
        0
    } else {
        count_unseen(seen.drop_last()) + if seen.last() {
            0nat
        } else {
            1nat
        }
    }
}

/// How many entries of a walk are counted components: every entry that is
/// not a circular-reference marker.
pub open spec fn count_counted(entries: Seq<WalkEntry>) -> nat
    decreases entries.len(),
{
    if entries.len() == 0 {
        0
    } else {
        count_counted(entries.drop_last()) + if entries.last().circular {
            0nat
        } else {
            1nat
        }
    }
}

/// What one walked entry may say: a circular marker bears the marker text,
/// and a counted entry bears some node's name.
pub open spec fn entry_valid(nodes: Seq<GraphNode>, e: WalkEntry) -> bool {
    if e.circular {
        e.name@ == "[Circular Reference]"@
    } else {
        exists|j: int| 0 <= j < nodes.len() && (#[trigger] nodes[j].name)@ == e.name@
    }
}

proof fn lemma_count_unseen_set(before: Seq<bool>, after: Seq<bool>, i: int)
    requires
        0 <= i < before.len(),
        !before[i],
        after =~= before.update(i, true),
    ensures
        count_unseen(after) + 1 == count_unseen(before),
    decreases before.len(),
{
    if before.len() > 0 {
        if i == before.len() - 1 {
            assert(after.drop_last() =~= before.drop_last());
        } else {
            assert(after.drop_last() =~= before.drop_last().update(i, true));
            lemma_count_unseen_set(before.drop_last(), after.drop_last(), i);
        }
    }
}

proof fn lemma_count_unseen_le(a: Seq<bool>, b: Seq<bool>)
    requires
        a.len() == b.len(),
        forall|i: int| 0 <= i < a.len() ==> (#[trigger] a[i] ==> b[i]),
    ensures
        count_unseen(b) <= count_unseen(a),
    decreases a.len(),
{
    if a.len() > 0 {
        assert(forall|i: int|
            0 <= i < a.drop_last().len() ==> (#[trigger] a.drop_last()[i]
                ==> b.drop_last()[i]));
        lemma_count_unseen_le(a.drop_last(), b.drop_last());
    }
}

proof fn lemma_count_counted_push(entries: Seq<WalkEntry>, e: WalkEntry)
    ensures
        count_counted(entries.push(e)) == count_counted(entries) + if e.circular {
            0nat
        } else {
            1nat
        },
{
    assert(entries.push(e).drop_last() =~= entries);
    assert(entries.push(e).last() == e);
}

/// One step of the bounded, cycle-safe walk. A node beyond the depth cap
/// only sets the depth flag; once the size cap is reached, a visit only
/// sets the truncation flag; a node already visited records one circular
/// marker; and a fresh node is marked, recorded with its name and depth,
/// counted, and its children walked one level deeper.
fn walk_node(
    nodes: &Vec<GraphNode>,
    idx: usize,
    depth: usize,
    max_depth: usize,
    max_nodes: usize,
    seen: &mut Vec<bool>,
    out: &mut Vec<WalkEntry>,
    count: &mut usize,
    max_depth_reached: &mut bool,
    truncated: &mut bool,
)
    requires
        graph_wf(nodes@),
        idx < nodes@.len(),
        old(seen)@.len() == nodes@.len(),
        *old(count) <= max_nodes,
    ensures
        final(seen)@.len() == old(seen)@.len(),
        forall|i: int| 0 <= i < old(seen)@.len() ==> (#[trigger] old(seen)@[i] ==> final(seen)@[i]),
        count_unseen(final(seen)@) <= count_unseen(old(seen)@),
        *final(count) <= max_nodes,
        *final(count) >= *old(count),
        final(out)@.len() >= old(out)@.len(),
        final(out)@.subrange(0, old(out)@.len() as int) =~= old(out)@,
        forall|k: int|
            old(out)@.len() <= k < final(out)@.len() ==> entry_valid(
                nodes@,
                #[trigger] final(out)@[k],
            ),
        *final(count) - *old(count) == count_counted(final(out)@) - count_counted(old(out)@),
        *final(count) - *old(count) == count_unseen(old(seen)@) - count_unseen(final(seen)@),
        *old(max_depth_reached) ==> *final(max_depth_reached),
        *old(truncated) ==> *final(truncated),
        *final(max_depth_reached) && !*old(max_depth_reached) ==> depth > max_depth || exists|k: int|
            old(out)@.len() <= k < final(out)@.len() && !(#[trigger] final(out)@[k]).circular
                && final(out)@[k].depth == max_depth,
        *final(truncated) && !*old(truncated) ==> *final(count) == max_nodes,
        depth > max_depth ==> {
            &&& final(out)@ =~= old(out)@
            &&& final(seen)@ =~= old(seen)@
            &&& *final(count) == *old(count)
            &&& *final(max_depth_reached)
            &&& *final(truncated) == *old(truncated)
        },
        depth <= max_depth && *old(count) >= max_nodes ==> {
            &&& final(out)@ =~= old(out)@
            &&& final(seen)@ =~= old(seen)@
            &&& *final(count) == *old(count)
            &&& *final(truncated)
            &&& *final(max_depth_reached) == *old(max_depth_reached)
        },
        depth <= max_depth && *old(count) < max_nodes && old(seen)@[idx as int] ==> {
            &&& final(out)@.len() == old(out)@.len() + 1
            &&& final(out)@.last().circular
            &&& final(out)@.last().depth == depth
            &&& final(seen)@ =~= old(seen)@
            &&& *final(count) == *old(count)
        },
        depth <= max_depth && *old(count) < max_nodes && !old(seen)@[idx as int] ==> {
            &&& final(out)@.len() > old(out)@.len()
            &&& !final(out)@[old(out)@.len() as int].circular
            &&& final(out)@[old(out)@.len() as int].name@ == nodes@[idx as int].name@
            &&& final(out)@[old(out)@.len() as int].depth == depth
            &&& final(seen)@[idx as int]
        },
    decreases count_unseen(old(seen)@),
{
    if depth > max_depth {
        *max_depth_reached = true;
        return ;
    }
    if *count >= max_nodes {
        *truncated = true;
        return ;
    }
    if seen[idx] {
        let marker = WalkEntry {
            name: String::from_str("[Circular Reference]"),
            depth,
            circular: true,
        };
        proof {
            lemma_count_counted_push(out@, marker);
        }
        out.push(marker);
        return ;
    }
    let ghost seen0 = seen@;
    let ghost out0 = out@;
    let ghost count0 = *count;
    seen.set(idx, true);
    proof {
        lemma_count_unseen_set(seen0, seen@, idx as int);
    }
    *count = *count + 1;
    let entry = WalkEntry { name: nodes[idx].name.clone(), depth, circular: false };
    proof {
        lemma_count_counted_push(out@, entry);
        assert(entry_valid(nodes@, entry)) by {
            assert(0 <= idx < nodes@.len() && nodes@[idx as int].name@ == entry.name@);
        }
    }
    out.push(entry);
    let n_children = nodes[idx].children.len();
    let mut j: usize = 0;
    while j < n_children
        invariant
            graph_wf(nodes@),
            idx < nodes@.len(),
            n_children == nodes@[idx as int].children@.len(),
            j <= n_children,
            seen@.len() == nodes@.len(),
            seen0 == old(seen)@,
            out0 == old(out)@,
            count0 == *old(count),
            count0 < max_nodes,
            depth <= max_depth,
            !seen0[idx as int],
            seen0.len() == seen@.len(),
            forall|i: int| 0 <= i < seen0.len() ==> (#[trigger] seen0[i] ==> seen@[i]),
            count_unseen(seen@) < count_unseen(seen0),
            *count <= max_nodes,
            *count - count0 == count_unseen(seen0) - count_unseen(seen@),
            *count - count0 == count_counted(out@) - count_counted(out0),
            out@.len() > out0.len(),
            out@.subrange(0, out0.len() as int) =~= out0,
            !out@[out0.len() as int].circular,
            out@[out0.len() as int].name@ == nodes@[idx as int].name@,
            out@[out0.len() as int].depth == depth,
            seen@[idx as int],
            forall|k: int|
                out0.len() <= k < out@.len() ==> entry_valid(nodes@, #[trigger] out@[k]),
            *old(max_depth_reached) ==> *max_depth_reached,
            *old(truncated) ==> *truncated,
            *max_depth_reached && !*old(max_depth_reached) ==> exists|k: int|
                out0.len() <= k < out@.len() && !(#[trigger] out@[k]).circular && out@[k].depth
                    == max_depth,
            *truncated && !*old(truncated) ==> *count == max_nodes,
        decreases n_children - j,
    {
        let child = nodes[idx].children[j];
        let ghost seen_before = seen@;
        let ghost out_before = out@;
        let ghost count_before = *count;
        let ghost depth_flag_before = *max_depth_reached;
        let next_depth: usize = if depth < usize::MAX {
            depth + 1
        } else {
            depth
        };
        walk_node(
            nodes,
            child,
            next_depth,
            max_depth,
            max_nodes,
            seen,
            out,
            count,
            max_depth_reached,
            truncated,
        );
        proof {
            lemma_count_unseen_le(seen_before, seen@);
            assert(out@.subrange(0, out0.len() as int) =~= out_before.subrange(
                0,
                out0.len() as int,
            )) by {
                assert(out@.subrange(0, out_before.len() as int) =~= out_before);
                assert forall|k: int|
                    0 <= k < out0.len() implies out@.subrange(0, out0.len() as int)[k]
                    == out_before.subrange(0, out0.len() as int)[k] by {
                    assert(out@[k] == out@.subrange(0, out_before.len() as int)[k]);
                }
            }
            assert forall|k: int|
                out0.len() <= k < out_before.len() implies out@[k] == #[trigger] out_before[k] by {
                assert(out@.subrange(0, out_before.len() as int)[k] == out_before[k]);
            }
            assert(out@[out0.len() as int] == out_before[out0.len() as int]);
            assert forall|k: int|
                out0.len() <= k < out@.len() implies entry_valid(
                nodes@,
                #[trigger] out@[k],
            ) by {
                if k < out_before.len() {
                    assert(out@[k] == out_before[k]);
                    assert(entry_valid(nodes@, out_before[k]));
                }
            }
            if *max_depth_reached && !depth_flag_before {
                if next_depth > max_depth {
                    assert(!out@[out0.len() as int].circular && out@[out0.len() as int].depth
                        == max_depth);
                }
            }
        }
        j = j + 1;
    }
}

/// Walks a modelled component graph from a root, depth- and size-capped:
/// on any graph, cyclic or not, the walk terminates — Verus checks a
/// decreasing measure over the unvisited nodes — and visits each node at
/// most once. The result records one counted entry per visited node, with
/// its name and depth, starting at the root; a revisited node is recorded
/// as a circular-reference marker instead of being followed; the depth
/// flag is set only when the depth cap actually cut a walk short, with a
/// counted entry at the cap as witness, and the truncation flag only when
/// the size cap was reached.
pub fn component_tree(nodes: &Vec<GraphNode>, root: usize, max_depth: usize, max_nodes: usize) -> (r: ComponentTreeResult)
    requires
        graph_wf(nodes@),
        root < nodes@.len(),
    ensures
        r.total_components == count_counted(r.entries@),
        r.total_components <= nodes@.len(),
        r.entries@.len() >= r.total_components,
        forall|k: int|
            0 <= k < r.entries@.len() ==> entry_valid(nodes@, #[trigger] r.entries@[k]),
        max_nodes > 0 ==> {
            &&& r.entries@.len() > 0
            &&& !r.entries@[0].circular
            &&& r.entries@[0].name@ == nodes@[root as int].name@
            &&& r.entries@[0].depth == 0
            &&& r.total_components > 0
        },
        r.max_depth_reached ==> exists|k: int|
            0 <= k < r.entries@.len() && !(#[trigger] r.entries@[k]).circular
                && r.entries@[k].depth == max_depth,
        r.truncated ==> r.total_components == max_nodes,
{
    let n = nodes.len();
    let mut seen: Vec<bool> = Vec::new();
    let mut i: usize = 0;
    while i < n
        invariant
            i <= n,
            seen@.len() == i,
            forall|k: int| 0 <= k < i ==> !(#[trigger] seen@[k]),
        decreases n - i,
    {
        seen.push(false);
        i = i + 1;
    }
    proof {
        lemma_count_unseen_all_false(seen@);
    }
    let mut out: Vec<WalkEntry> = Vec::new();
    let mut count: usize = 0;
    let mut max_depth_reached: bool = false;
    let mut truncated: bool = false;
    let ghost seen_init = seen@;
    walk_node(
        nodes,
        root,
        0,
        max_depth,
        max_nodes,
        &mut seen,
        &mut out,
        &mut count,
        &mut max_depth_reached,
        &mut truncated,
    );
    proof {
        lemma_count_counted_le_len(out@);
        if max_nodes > 0 {
            let mid = seen_init.update(root as int, true);
            assert(forall|i: int| 0 <= i < mid.len() ==> (#[trigger] mid[i] ==> seen@[i]));
            lemma_count_unseen_set(seen_init, mid, root as int);
            lemma_count_unseen_le(mid, seen@);
        }
    }
    ComponentTreeResult {
        entries: out,
        total_components: count,
        max_depth_reached,
        truncated,
    }
}

proof fn lemma_count_counted_le_len(entries: Seq<WalkEntry>)
    ensures
        count_counted(entries) <= entries.len(),
    decreases entries.len(),
{
    if entries.len() > 0 {
        lemma_count_counted_le_len(entries.drop_last());
    }
}

proof fn lemma_count_unseen_all_false(seen: Seq<bool>)
    requires
        forall|k: int| 0 <= k < seen.len() ==> !(#[trigger] seen[k]),
    ensures
        count_unseen(seen) == seen.len(),
    decreases seen.len(),
{
    if seen.len() > 0 {
        lemma_count_unseen_all_false(seen.drop_last());
    }
}

} // verus!
