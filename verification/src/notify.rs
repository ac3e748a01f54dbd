//! Notification subscription and bounded consumption.
//!
//! A read operation subscribes to every characteristic that advertises the
//! notify capability — characteristics without it are silently skipped, not
//! an error — and then consumes notification events from the platform's
//! stream up to a caller-supplied bound, in emission order, stopping as soon
//! as the bound is reached no matter how many more events the peripheral
//! emits.

use vstd::prelude::*;
use crate::discovery::{CharacteristicInfo, ServiceInfo};
use crate::errors::BleError;

verus! {

/// One notification pushed by the peripheral: the emitting characteristic
/// and its opaque payload bytes.
#[derive(Clone, Debug, PartialEq, Eq)]
pub struct NotificationEvent {
    /// UUID of the characteristic that emitted the event.
    pub characteristic: u128,
    pub payload: Vec<u8>,
}

/// The characteristics of one service that can be subscribed to, in
/// discovery order.
pub open spec fn notify_chars_of(cs: Seq<CharacteristicInfo>) -> Seq<CharacteristicInfo>
    decreases cs.len(),
{
    if cs.len() == 0 {
        Seq::empty()
    } else {
        let rest = notify_chars_of(cs.drop_last());
        if cs.last().notify {
            rest.push(cs.last())
        } else {
            rest
        }
    }
}

/// All subscribable characteristics of a discovered peripheral: service by
/// service, each service's characteristics in discovery order.
pub open spec fn notify_targets_spec(services: Seq<ServiceInfo>) -> Seq<CharacteristicInfo>
    decreases services.len(),
{
    if services.len() == 0 {
        Seq::empty()
    } else {
        notify_targets_spec(services.drop_last()) + notify_chars_of(
            services.last().characteristics@,
        )
    }
}

/// The characteristics a read operation subscribes to: exactly those with
/// the notify flag, in discovery order.  A peripheral without any is not an
/// error; there is simply nothing to subscribe to.
pub fn notify_targets(services: &Vec<ServiceInfo>) -> (r: Vec<CharacteristicInfo>)
    ensures
        r@ == notify_targets_spec(services@),
{
    let mut out: Vec<CharacteristicInfo> = Vec::new();
    let n = services.len();
    let mut i: usize = 0;
    while i < n
        invariant
            n == services@.len(),
            i <= n,
            out@ == notify_targets_spec(services@.take(i as int)),
        decreases n - i,
    {
        let cs = &services[i].characteristics;
        let m = cs.len();
        let mut j: usize = 0;
        while j < m
            invariant
                n == services@.len(),
                i < n,
                m == cs@.len(),
                j <= m,
                cs@ == services@[i as int].characteristics@,
                out@ == notify_targets_spec(services@.take(i as int)) + notify_chars_of(
                    cs@.take(j as int),
                ),
            decreases m - j,
        {
            let c = cs[j];
            if c.notify {
                out.push(c);
            }
            proof {
                assert(cs@.take(j + 1).drop_last() =~= cs@.take(j as int));
                assert(cs@.take(j + 1).last() == cs@[j as int]);
            }
            j = j + 1;
        }
        proof {
            assert(cs@.take(m as int) =~= cs@);
            assert(services@.take(i + 1).drop_last() =~= services@.take(i as int));
            assert(services@.take(i + 1).last() == services@[i as int]);
        }
        i = i + 1;
    }
    proof {
        assert(services@.take(n as int) =~= services@);
    }
    out
}

/// Every characteristic a read operation subscribes to has the notify flag:
/// characteristics without it are skipped entirely.
pub proof fn lemma_notify_targets_flagged(services: Seq<ServiceInfo>)
    ensures
        forall|k: int|
            0 <= k < notify_targets_spec(services).len() ==> (#[trigger] notify_targets_spec(
                services,
            )[k]).notify,
    decreases services.len(),
{
    if services.len() > 0 {
        lemma_notify_targets_flagged(services.drop_last());
        lemma_notify_chars_flagged(services.last().characteristics@);
        let rest = notify_targets_spec(services.drop_last());
        let tail = notify_chars_of(services.last().characteristics@);
        assert forall|k: int|
            0 <= k < notify_targets_spec(services).len() implies (#[trigger] notify_targets_spec(
            services,
        )[k]).notify by {
            if k < rest.len() {
                assert(notify_targets_spec(services)[k] == rest[k]);
            } else {
                assert(notify_targets_spec(services)[k] == tail[k - rest.len()]);
            }
        }
    }
}

proof fn lemma_notify_chars_flagged(cs: Seq<CharacteristicInfo>)
    ensures
        forall|k: int|
            0 <= k < notify_chars_of(cs).len() ==> (#[trigger] notify_chars_of(cs)[k]).notify,
    decreases cs.len(),
{
    if cs.len() > 0 {
        lemma_notify_chars_flagged(cs.drop_last());
        let rest = notify_chars_of(cs.drop_last());
        assert forall|k: int|
            0 <= k < notify_chars_of(cs).len() implies (#[trigger] notify_chars_of(
            cs,
        )[k]).notify by {
            if cs.last().notify {
                assert(notify_chars_of(cs) == rest.push(cs.last()));
                if k < rest.len() {
                    assert(notify_chars_of(cs)[k] == rest[k]);
                } else {
                    assert(notify_chars_of(cs)[k] == cs.last());
                }
            } else {
                assert(notify_chars_of(cs) == rest);
            }
        }
    }
}

/// What bounded consumption of a notification stream yields: the whole
/// stream if it is shorter than the bound, otherwise exactly the first
/// `limit` events, in emission order.
pub open spec fn consumed_events(events: Seq<NotificationEvent>, limit: nat) -> Seq<
    NotificationEvent,
> {
    if events.len() <= limit {
        events
    } else {
        events.take(limit as int)
    }
}

/// Bounded consumption of an already-materialized stream.
pub fn take_limited(events: Vec<NotificationEvent>, limit: usize) -> (r: Vec<NotificationEvent>)
    ensures
        r@ == consumed_events(events@, limit as nat),
{
    let mut out = events;
    out.truncate(limit);
    proof {
        if limit as int <= events@.len() {
            assert(events@.subrange(0, limit as int) =~= events@.take(limit as int));
            if events@.len() == limit as int {
                assert(events@.take(limit as int) =~= events@);
            }
        }
    }
    out
}

/// Accumulates notification events one at a time, accepting at most `limit`
/// of them; the driver stops consuming the platform stream as soon as an
/// offer is declined.
pub struct NotificationCollector {
    events: Vec<NotificationEvent>,
    limit: usize,
}

impl NotificationCollector {
    /// The events accepted so far, in emission order.
    pub closed spec fn collected(self) -> Seq<NotificationEvent> {
        self.events@
    }

    /// The bound this collector was created with.
    pub closed spec fn limit_spec(self) -> nat {
        self.limit as nat
    }

    /// Never more events than the bound.
    pub open spec fn wf(self) -> bool {
        self.collected().len() <= self.limit_spec()
    }

    pub fn new(limit: usize) -> (c: Self)
        ensures
            c.wf(),
            c.collected() == Seq::<NotificationEvent>::empty(),
            c.limit_spec() == limit as nat,
    {
        NotificationCollector { events: Vec::new(), limit }
    }

    /// Whether the collector still has room below its bound.
    pub fn wants_more(&self) -> (b: bool)
        ensures
            b == (self.collected().len() < self.limit_spec()),
    {
        self.events.len() < self.limit
    }

    /// Offers the next event from the stream.  Accepted (and appended, in
    /// order) exactly while the bound has not been reached; once it has,
    /// every further offer is declined and nothing changes.
    pub fn offer(&mut self, e: NotificationEvent) -> (accepted: bool)
        requires
            old(self).wf(),
        ensures
            final(self).wf(),
            final(self).limit_spec() == old(self).limit_spec(),
            accepted == (old(self).collected().len() < old(self).limit_spec()),
            accepted ==> final(self).collected() == old(self).collected().push(e),
            !accepted ==> final(self).collected() == old(self).collected(),
    {
        if self.events.len() < self.limit {
            self.events.push(e);
            true
        } else {
            false
        }
    }

    /// How many events have been accepted.
    pub fn count(&self) -> (n: usize)
        ensures
            n == self.collected().len(),
    {
        self.events.len()
    }

    /// Hands the accepted events out, in emission order.
    pub fn into_events(self) -> (r: Vec<NotificationEvent>)
        ensures
            r@ == self.collected(),
    {
        self.events
    }
}

/// Streaming consumption through a `NotificationCollector`, event by event,
/// stopping at the bound: it yields exactly what `consumed_events` says, so
/// a stream of `N >= limit` events yields exactly `limit` of them, in
/// emission order, no matter how large `N` is.
pub fn consume_stream(events: Vec<NotificationEvent>, limit: usize) -> (r: Vec<NotificationEvent>)
    ensures
        r@ == consumed_events(events@, limit as nat),
{
    let ghost all = events@;
    let mut pending = events;
    let mut c = NotificationCollector::new(limit);
    let ghost mut m: int = 0;
    while pending.len() > 0 && c.wants_more()
        invariant
            c.wf(),
            c.limit_spec() == limit as nat,
            0 <= m <= all.len(),
            pending@ == all.skip(m),
            c.collected() == consumed_events(all.take(m), limit as nat),
        decreases pending@.len(),
    {
        let e = pending.remove(0);
        proof {
            assert(e == all.skip(m)[0]);
            assert(e == all[m]);
            assert(m < limit as int);
            assert(c.collected() == all.take(m));
        }
        let accepted = c.offer(e);
        proof {
            assert(accepted);
            assert(all.take(m).push(all[m]) =~= all.take(m + 1));
            assert(pending@ =~= all.skip(m + 1));
            m = m + 1;
        }
    }
    proof {
        if pending.len() == 0 {
            assert(all.take(m) =~= all);
        } else {
            assert(c.collected().len() == limit as int);
            assert(m >= limit as int);
            assert(all.take(m).take(limit as int) =~= all.take(limit as int));
            if m == limit as int {
                assert(all.take(m) =~= all.take(m).take(limit as int));
            }
            assert(c.collected() == all.take(limit as int));
            if all.len() <= limit as int {
                assert(all.take(limit as int) =~= all);
            }
        }
    }
    c.into_events()
}

/// Folds the platform's answer to one subscribe request into the
/// operation's result: a refused subscribe surfaces `SubscriptionError`.
pub fn subscribe_result(accepted: bool) -> (r: Result<(), BleError>)
    ensures
        accepted ==> r == Ok::<(), BleError>(()),
        !accepted ==> r == Err::<(), BleError>(BleError::SubscriptionError),
{
    if accepted {
        Ok(())
    } else {
        Err(BleError::SubscriptionError)
    }
}

/// Bounded consumption never yields more than `limit` events, yields the
/// whole stream when it is shorter than the bound, and preserves emission
/// order exactly.
pub proof fn lemma_consumption_bounded(events: Seq<NotificationEvent>, limit: nat)
    ensures
        consumed_events(events, limit).len() == if events.len() <= limit {
            events.len()
        } else {
            limit
        },
        limit <= events.len() ==> consumed_events(events, limit).len() == limit,
        forall|i: int|
            0 <= i < consumed_events(events, limit).len() ==> #[trigger] consumed_events(
                events,
                limit,
            )[i] == events[i],
{
}

} // verus!
