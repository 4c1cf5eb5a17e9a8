//! The correlation bridge: sends an opaque task into a named execution
//! context and resolves to that context's single asynchronous reply, or
//! times out.
//!
//! The bridge's subscription table is modelled here as explicit state, so
//! that its central guarantees are theorems rather than hopes: a call's
//! one-shot subscription is registered before the task is published, it is
//! consumed by exactly one delivery, and once a timed-out call has
//! unsubscribed, a later reply on the same topic reaches only a later
//! subscriber, never the stale call. The host event system performs the
//! actual publish and wake-up; it reports back one [`CallOutcome`] per call,
//! and [`settle_call`] turns that outcome into the caller's result.

use vstd::prelude::*;
use crate::error::Error;
use crate::value::Value;

verus! {

/// One in-flight correlation: a reply-topic subscription held by one call.
pub struct Pending {
    pub topic: String,
    pub call_id: u64,
}

/// The set of live one-shot reply subscriptions, oldest first per topic.
pub struct SubscriptionTable {
    pub pending: Vec<Pending>,
    pub next_call_id: u64,
}

/// The call id of the oldest live subscription on `topic`, if any: the one
/// that a reply published on `topic` is delivered to.
pub open spec fn first_on_topic(pending: Seq<Pending>, topic: Seq<char>) -> Option<u64>
    decreases pending.len(),
{
    if pending.len() == 0 {
        None
    } else if pending[0].topic@ == topic {
        Some(pending[0].call_id)
    } else {
        first_on_topic(pending.drop_first(), topic)
    }
}

/// Whether some live subscription belongs to call `id`.
pub open spec fn has_call(pending: Seq<Pending>, id: u64) -> bool {
    exists|i: int| 0 <= i < pending.len() && #[trigger] pending[i].call_id == id
}

impl SubscriptionTable {
    /// Call ids are unique and below the allocation counter.
    pub open spec fn wf(&self) -> bool {
        &&& forall|i: int, j: int|
            0 <= i < j < self.pending@.len() ==> #[trigger] self.pending@[i].call_id
                != #[trigger] self.pending@[j].call_id
        &&& forall|i: int|
            0 <= i < self.pending@.len() ==> #[trigger] self.pending@[i].call_id
                < self.next_call_id
    }

    pub fn new() -> (r: SubscriptionTable)
        ensures
            r.wf(),
            r.pending@ =~= Seq::<Pending>::empty(),
            r.next_call_id == 0,
    {
        SubscriptionTable { pending: Vec::new(), next_call_id: 0 }
    }

    /// Registers a fresh one-shot subscription on `topic` and returns its
    /// call id. Registration happens before the task is published, closing
    /// the send-then-listen race: a reply cannot arrive before its
    /// subscription exists.
    pub fn subscribe(&mut self, topic: String) -> (id: u64)
        requires
            old(self).wf(),
            old(self).next_call_id < u64::MAX,
        ensures
            final(self).wf(),
            !has_call(old(self).pending@, id),
            has_call(final(self).pending@, id),
            final(self).pending@.len() == old(self).pending@.len() + 1,
            final(self).pending@.subrange(0, old(self).pending@.len() as int) =~= old(
                self,
            ).pending@,
            final(self).pending@.last().topic@ == topic@,
            final(self).pending@.last().call_id == id,
            id == old(self).next_call_id,
            final(self).next_call_id == old(self).next_call_id + 1,
    {
        let id = self.next_call_id;
        self.pending.push(Pending { topic, call_id: id });
        self.next_call_id = self.next_call_id + 1;
        proof {
            let n = old(self).pending@.len() as int;
            assert(self.pending@[n].call_id == id);
        }
        id
    }

    /// Delivers a reply published on `topic`: consumes the oldest
    /// subscription on that topic and reports which call receives the reply,
    /// or reports that no subscriber is live and the reply is dropped.
    pub fn deliver(&mut self, topic: &str) -> (r: Option<u64>)
        requires
            old(self).wf(),
        ensures
            final(self).wf(),
            r == first_on_topic(old(self).pending@, topic@),
            final(self).next_call_id == old(self).next_call_id,
            match r {
                Some(id) => {
                    &&& has_call(old(self).pending@, id)
                    &&& !has_call(final(self).pending@, id)
                    &&& exists|i: int|
                        0 <= i < old(self).pending@.len() && final(self).pending@ =~= old(
                            self,
                        ).pending@.remove(i)
                },
                None => final(self).pending@ =~= old(self).pending@,
            },
    {
        let n = self.pending.len();
        let mut i: usize = 0;
        proof {
            assert(self.pending@.skip(0) =~= self.pending@);
        }
        while i < n
            invariant
                old(self).wf(),
                *self == *old(self),
                n == self.pending@.len(),
                i <= n,
                first_on_topic(self.pending@, topic@) == first_on_topic(
                    self.pending@.skip(i as int),
                    topic@,
                ),
                forall|j: int| 0 <= j < i ==> #[trigger] self.pending@[j].topic@ != topic@,
            decreases n - i,
        {
            if crate::strutil::str_eq(self.pending[i].topic.as_str(), topic) {
                let id = self.pending[i].call_id;
                proof {
                    lemma_first_on_topic_found(self.pending@, topic@, i as int);
                    assert(self.pending@[i as int].call_id == id);
                }
                proof {
                    assert(*self == *old(self));
                }
                self.pending.remove(i);
                proof {
                    let before = old(self).pending@;
                    let after = self.pending@;
                    assert(after =~= before.remove(i as int));
                    lemma_remove_keeps_unique(before, after, i as int, old(self).next_call_id);
                    assert(!has_call(after, id)) by {
                        assert forall|k: int|
                            0 <= k < after.len() implies #[trigger] after[k].call_id != id by {
                            if k < i {
                                assert(after[k] == before[k]);
                            } else {
                                assert(after[k] == before[k + 1]);
                            }
                        }
                    }
                }
                return Some(id);
            }
            proof {
                lemma_first_on_topic_step(self.pending@, topic@, i as int);
            }
            i = i + 1;
        }
        proof {
            assert(self.pending@.skip(n as int) =~= Seq::<Pending>::empty());
        }
        None
    }

    /// Unregisters call `id`'s subscription: the timeout path. After this,
    /// the call can never be handed a reply, so a late reply cannot fire
    /// into a stale caller.
    pub fn unsubscribe(&mut self, id: u64)
        requires
            old(self).wf(),
        ensures
            final(self).wf(),
            !has_call(final(self).pending@, id),
            final(self).next_call_id == old(self).next_call_id,
            final(self).pending@ =~= old(self).pending@.filter(|p: Pending| p.call_id != id),
    {
        let n = self.pending.len();
        let mut out: Vec<Pending> = Vec::new();
        let mut i: usize = 0;
        proof {
            assert(self.pending@.take(0).filter(|p: Pending| p.call_id != id) =~= Seq::<
                Pending,
            >::empty());
        }
        while i < n
            invariant
                old(self).wf(),
                *self == *old(self),
                n == self.pending@.len(),
                i <= n,
                out@ =~= self.pending@.take(i as int).filter(|p: Pending| p.call_id != id),
            decreases n - i,
        {
            let p = Pending {
                topic: self.pending[i].topic.clone(),
                call_id: self.pending[i].call_id,
            };
            proof {
                assert(self.pending@.take(i + 1).drop_last() =~= self.pending@.take(i as int));
                reveal_with_fuel(Seq::filter, 2);
                assert(self.pending@.take(i + 1).last() == self.pending@[i as int]);
            }
            if p.call_id != id {
                proof {
                    assert(p.topic@ == self.pending@[i as int].topic@);
                    assert(p.call_id == self.pending@[i as int].call_id);
                }
                out.push(p);
            }
            proof {
                let prefix = self.pending@.take(i + 1);
                assert(prefix.filter(|q: Pending| q.call_id != id) =~= prefix.drop_last().filter(
                    |q: Pending| q.call_id != id,
                ) + if prefix.last().call_id != id {
                    seq![prefix.last()]
                } else {
                    Seq::<Pending>::empty()
                }) by {
                    reveal_with_fuel(Seq::filter, 2);
                    assert(prefix.len() > 0);
                }
                assert(out@ =~= self.pending@.take(i + 1).filter(|q: Pending| q.call_id != id));
            }
            i = i + 1;
        }
        proof {
            assert(self.pending@.take(n as int) =~= self.pending@);
        }
        self.pending = out;
        proof {
            lemma_filter_no_call(old(self).pending@, id);
            lemma_filter_keeps_wf(old(self).pending@, self.pending@, id, old(self).next_call_id);
        }
    }
}

proof fn lemma_first_on_topic_found(pending: Seq<Pending>, topic: Seq<char>, i: int)
    requires
        0 <= i < pending.len(),
        pending[i].topic@ == topic,
    ensures
        first_on_topic(pending.skip(i), topic) == Some(pending[i].call_id),
{
    assert(pending.skip(i)[0] == pending[i]);
}

proof fn lemma_first_on_topic_step(pending: Seq<Pending>, topic: Seq<char>, i: int)
    requires
        0 <= i < pending.len(),
        pending[i].topic@ != topic,
    ensures
        first_on_topic(pending.skip(i), topic) == first_on_topic(pending.skip(i + 1), topic),
{
    assert(pending.skip(i)[0] == pending[i]);
    assert(pending.skip(i).drop_first() =~= pending.skip(i + 1));
}

proof fn lemma_remove_keeps_unique(before: Seq<Pending>, after: Seq<Pending>, i: int, next: u64)
    requires
        0 <= i < before.len(),
        after =~= before.remove(i),
        forall|a: int, b: int|
            0 <= a < b < before.len() ==> #[trigger] before[a].call_id != #[trigger] before[b].call_id,
        forall|a: int| 0 <= a < before.len() ==> #[trigger] before[a].call_id < next,
    ensures
        forall|a: int, b: int|
            0 <= a < b < after.len() ==> #[trigger] after[a].call_id != #[trigger] after[b].call_id,
        forall|k: int| 0 <= k < after.len() ==> #[trigger] after[k].call_id < next,
{
    assert forall|k: int| 0 <= k < after.len() implies #[trigger] after[k].call_id < next by {
        if k < i {
            assert(after[k] == before[k]);
        } else {
            assert(after[k] == before[k + 1]);
        }
    }
    assert forall|a: int, b: int| 0 <= a < b < after.len() implies #[trigger] after[a].call_id
        != #[trigger] after[b].call_id by {
        let a0 = if a < i {
            a
        } else {
            a + 1
        };
        let b0 = if b < i {
            b
        } else {
            b + 1
        };
        assert(after[a] == before[a0]);
        assert(after[b] == before[b0]);
    }
}

proof fn lemma_filter_no_call(pending: Seq<Pending>, id: u64)
    ensures
        !has_call(pending.filter(|p: Pending| p.call_id != id), id),
    decreases pending.len(),
{
    reveal_with_fuel(Seq::filter, 2);
    if pending.len() > 0 {
        lemma_filter_no_call(pending.drop_last(), id);
        let filtered = pending.filter(|p: Pending| p.call_id != id);
        let prev = pending.drop_last().filter(|p: Pending| p.call_id != id);
        assert forall|k: int| 0 <= k < filtered.len() implies #[trigger] filtered[k].call_id
            != id by {
            if k < prev.len() {
                assert(filtered[k] == prev[k]);
                assert(!has_call(prev, id));
                assert(prev[k].call_id != id);
            }
        }
    }
}

proof fn lemma_filter_keeps_wf(before: Seq<Pending>, after: Seq<Pending>, id: u64, next: u64)
    requires
        after =~= before.filter(|p: Pending| p.call_id != id),
        forall|a: int, b: int|
            0 <= a < b < before.len() ==> #[trigger] before[a].call_id != #[trigger] before[b].call_id,
        forall|a: int| 0 <= a < before.len() ==> #[trigger] before[a].call_id < next,
    ensures
        forall|a: int, b: int|
            0 <= a < b < after.len() ==> #[trigger] after[a].call_id != #[trigger] after[b].call_id,
        forall|a: int| 0 <= a < after.len() ==> #[trigger] after[a].call_id < next,
{
    lemma_filter_wf_rec(before, id, next);
}

proof fn lemma_filter_wf_rec(before: Seq<Pending>, id: u64, next: u64)
    requires
        forall|a: int, b: int|
            0 <= a < b < before.len() ==> #[trigger] before[a].call_id != #[trigger] before[b].call_id,
        forall|a: int| 0 <= a < before.len() ==> #[trigger] before[a].call_id < next,
    ensures
        ({
            let after = before.filter(|p: Pending| p.call_id != id);
            &&& forall|a: int, b: int|
                0 <= a < b < after.len() ==> #[trigger] after[a].call_id != #[trigger] after[b].call_id
            &&& forall|a: int| 0 <= a < after.len() ==> #[trigger] after[a].call_id < next
        }),
    decreases before.len(),
{
    reveal_with_fuel(Seq::filter, 2);
    if before.len() > 0 {
        let prefix = before.drop_last();
        lemma_filter_wf_rec(prefix, id, next);
        let after = before.filter(|p: Pending| p.call_id != id);
        let pa = prefix.filter(|p: Pending| p.call_id != id);
        assert forall|a: int| 0 <= a < after.len() implies #[trigger] after[a].call_id < next by {
            if a < pa.len() {
                assert(after[a] == pa[a]);
            } else {
                assert(after[a] == before.last());
            }
        }
        assert forall|a: int, b: int| 0 <= a < b < after.len() implies #[trigger] after[a].call_id
            != #[trigger] after[b].call_id by {
            if b < pa.len() {
            } else {
                assert(after[b] == before.last());
                assert(after[a] == pa[a]);
                lemma_filter_member_of_prefix(prefix, |p: Pending| p.call_id != id, a);
            }
        }
    }
}

proof fn lemma_filter_member_of_prefix(s: Seq<Pending>, pred: spec_fn(Pending) -> bool, a: int)
    requires
        0 <= a < s.filter(pred).len(),
    ensures
        exists|m: int| 0 <= m < s.len() && #[trigger] s[m] == s.filter(pred)[a],
    decreases s.len(),
{
    reveal_with_fuel(Seq::filter, 2);
    if s.len() > 0 {
        let prefix = s.drop_last();
        let pa = prefix.filter(pred);
        if a < pa.len() {
            lemma_filter_member_of_prefix(prefix, pred, a);
            let m = choose|m: int| 0 <= m < prefix.len() && #[trigger] prefix[m] == pa[a];
            assert(s[m] == s.filter(pred)[a]);
        } else {
            assert(s.filter(pred)[a] == s.last());
            assert(s[s.len() - 1] == s.filter(pred)[a]);
        }
    }
}

/// What the host event system reports for one bridge call, after the
/// subscription was registered and the task was published.
pub enum CallOutcome {
    /// The subscription fired with the context's reply payload.
    Reply(Value),
    /// The deadline elapsed first; the subscription has been unregistered.
    TimedOut,
    /// Publishing the task to the context failed before any wait began.
    PublishFailed(String),
    /// The subscription fired, but the reply was not a structured value;
    /// carries the transport's decode error text.
    MalformedReply(String),
}

/// Resolves one bridge call from its outcome: a reply passes through
/// verbatim, a deadline becomes a timeout error naming the operation and
/// the configured duration, and a failed publish becomes a communication
/// error carrying the transport's reason.
pub fn settle_call(outcome: CallOutcome, operation: String, timeout_ms: u64) -> (r: Result<
    Value,
    Error,
>)
    ensures
        match outcome {
            CallOutcome::Reply(v) => r == Ok::<Value, Error>(v),
            CallOutcome::TimedOut => r == Err::<Value, Error>(
                Error::TimeoutError { operation, duration_ms: timeout_ms },
            ),
            CallOutcome::PublishFailed(m) => r == Err::<Value, Error>(
                Error::CommunicationError { message: m, context: None },
            ),
            CallOutcome::MalformedReply(m) => r == Err::<Value, Error>(
                Error::SerializationError { message: m },
            ),
        },
{
    match outcome {
        CallOutcome::Reply(v) => Ok(v),
        CallOutcome::TimedOut => Err(Error::timeout_error(operation, timeout_ms)),
        CallOutcome::PublishFailed(m) => Err(Error::communication_error(m)),
        CallOutcome::MalformedReply(m) => Err(Error::serialization_error(m)),
    }
}

/// After a timed-out call has unsubscribed, a reply on its topic can no
/// longer reach it: whatever call the table delivers the reply to, it is
/// not the stale one. In particular a later subscriber on the same topic,
/// not the timed-out caller, receives a later reply.
pub proof fn lemma_no_stale_delivery(pending: Seq<Pending>, stale: u64, topic: Seq<char>)
    requires
        !has_call(pending, stale),
    ensures
        first_on_topic(pending, topic) != Some(stale),
    decreases pending.len(),
{
    if pending.len() > 0 {
        assert(pending[0].call_id != stale);
        if pending[0].topic@ != topic {
            assert(!has_call(pending.drop_first(), stale)) by {
                assert forall|i: int|
                    0 <= i < pending.drop_first().len() implies #[trigger] pending.drop_first()[i].call_id
                    != stale by {
                    assert(pending.drop_first()[i] == pending[i + 1]);
                }
            }
            lemma_no_stale_delivery(pending.drop_first(), stale, topic);
        }
    }
}

} // verus!
