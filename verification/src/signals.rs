//! D-Bus signal subscription bookkeeping and the bounded signal buffer.
//!
//! Each subscription is driven elsewhere by a message stream; received
//! signals are pushed into the shared bounded buffer, and callers poll it.

use std::collections::VecDeque;
use vstd::prelude::*;
use crate::events::drain_queue;
use crate::json::JsonValue;
use crate::registry::{NotRegistered, Registry, RegistryEntry};

verus! {

/// Capacity of the D-Bus signal buffer.
pub const SIGNAL_BUFFER_CAPACITY: usize = 500;

/// A single received D-Bus signal.
pub struct SignalEvent {
    /// Subscription ID that triggered this signal.
    pub subscription_id: String,
    /// The interface the signal came from.
    pub interface: String,
    /// Signal member name.
    pub member: String,
    /// Object path that emitted the signal.
    pub path: String,
    /// Sender bus name.
    pub sender: String,
    /// Signal arguments as JSON.
    pub args: Vec<JsonValue>,
    /// Unix timestamp (seconds).
    pub timestamp: u64,
}

/// The buffer after one more signal arrives: the oldest signal leaves when
/// the buffer is full.
pub open spec fn signal_pushed(buf: Seq<SignalEvent>, capacity: nat, ev: SignalEvent) -> Seq<SignalEvent> {
    if buf.len() >= capacity {
        buf.drop_first().push(ev)
    } else {
        buf.push(ev)
    }
}

/// Shared signal buffer and subscription registry (identifier to match rule).
pub struct SignalQueue {
    buf: VecDeque<SignalEvent>,
    capacity: usize,
    subs: Registry<String>,
}

impl SignalQueue {
    /// The buffered signals, oldest first.
    pub closed spec fn signals(&self) -> Seq<SignalEvent> {
        self.buf@
    }

    /// The maximum number of buffered signals.
    pub closed spec fn capacity(&self) -> nat {
        self.capacity as nat
    }

    /// Registered subscriptions: identifier to match rule.
    pub closed spec fn subscriptions(&self) -> Map<Seq<char>, String> {
        self.subs.view_map()
    }

    /// Registered subscriptions in registration order.
    pub closed spec fn subscription_entries(&self) -> Seq<RegistryEntry<String>> {
        self.subs.entries()
    }

    /// The buffer never exceeds its positive capacity; identifiers are distinct.
    pub closed spec fn wf(&self) -> bool {
        &&& self.capacity > 0
        &&& self.buf@.len() <= self.capacity
        &&& self.subs.wf()
    }

    /// An empty buffer with the standard capacity and no subscriptions.
    pub fn new() -> (r: SignalQueue)
        ensures
            r.wf(),
            r.signals() == Seq::<SignalEvent>::empty(),
            r.capacity() == SIGNAL_BUFFER_CAPACITY,
            r.subscriptions() == Map::<Seq<char>, String>::empty(),
    {
        SignalQueue {
            buf: VecDeque::with_capacity(SIGNAL_BUFFER_CAPACITY),
            capacity: SIGNAL_BUFFER_CAPACITY,
            subs: Registry::new(),
        }
    }

    /// Add a signal, dropping the oldest one when the buffer is full.
    pub fn push(&mut self, ev: SignalEvent)
        requires
            old(self).wf(),
        ensures
            final(self).wf(),
            final(self).signals() == signal_pushed(old(self).signals(), old(self).capacity(), ev),
            final(self).capacity() == old(self).capacity(),
            final(self).subscriptions() == old(self).subscriptions(),
            final(self).subscription_entries() == old(self).subscription_entries(),
    {
        if self.buf.len() >= self.capacity {
            self.buf.pop_front();
        }
        self.buf.push_back(ev);
    }

    /// Remove and return all buffered signals.
    pub fn drain(&mut self) -> (r: Vec<SignalEvent>)
        requires
            old(self).wf(),
        ensures
            final(self).wf(),
            r@ == old(self).signals(),
            final(self).signals() == Seq::<SignalEvent>::empty(),
            final(self).capacity() == old(self).capacity(),
            final(self).subscriptions() == old(self).subscriptions(),
            final(self).subscription_entries() == old(self).subscription_entries(),
    {
        drain_queue(&mut self.buf)
    }

    /// Register a subscription to the given match rule under a fresh random
    /// identifier, which is returned.
    pub fn add_subscription(&mut self, rule: String) -> (id: String)
        requires
            old(self).wf(),
        ensures
            final(self).wf(),
            final(self).signals() == old(self).signals(),
            final(self).capacity() == old(self).capacity(),
            final(self).subscriptions() == old(self).subscriptions().insert(id@, rule),
            crate::ids::is_uuid_v4_text(id@),
    {
        self.subs.insert_fresh(rule)
    }

    /// Remove a subscription by identifier, returning its rule.
    pub fn remove_subscription(&mut self, subscription_id: &str) -> (r: Result<String, NotRegistered>)
        requires
            old(self).wf(),
        ensures
            final(self).wf(),
            final(self).signals() == old(self).signals(),
            final(self).capacity() == old(self).capacity(),
            final(self).subscriptions() == old(self).subscriptions().remove(subscription_id@),
            match r {
                Ok(rule) => old(self).subscriptions().dom().contains(subscription_id@) && rule
                    == old(self).subscriptions()[subscription_id@],
                Err(e) => !old(self).subscriptions().dom().contains(subscription_id@) && e.id@
                    == subscription_id@,
            },
    {
        self.subs.remove(subscription_id)
    }

    /// List active subscriptions: (id, rule) pairs in registration order.
    pub fn list(&self) -> (r: Vec<(String, String)>)
        ensures
            r@.len() == self.subscription_entries().len(),
            forall|i: int|
                0 <= i < r@.len() ==> #[trigger] r@[i].0@ == self.subscription_entries()[i].id@
                    && r@[i].1@ == self.subscription_entries()[i].value@,
    {
        let mut r: Vec<(String, String)> = Vec::new();
        let mut i: usize = 0;
        let n = self.subs.len();
        while i < n
            invariant
                n == self.subscription_entries().len(),
                i <= n,
                r@.len() == i,
                forall|j: int|
                    0 <= j < i ==> #[trigger] r@[j].0@ == self.subscription_entries()[j].id@
                        && r@[j].1@ == self.subscription_entries()[j].value@,
            decreases n - i,
        {
            let entry = self.subs.entry_at(i);
            let ghost before = r@;
            let idc = entry.id.clone();
            let rule = entry.value.clone();
            r.push((idc, rule));
            assert(r@[i as int].0@ == entry.id@);
            assert(r@[i as int].1@ == entry.value@);
            assert(*entry == self.subs.entries()[i as int]);
            assert forall|j: int| 0 <= j <= i implies #[trigger] r@[j].0@
                == self.subscription_entries()[j].id@ && r@[j].1@
                == self.subscription_entries()[j].value@ by {
                if j < i {
                    assert(r@[j] == before[j]);
                }
            }
            i = i + 1;
        }
        r
    }
}

/// A push never lets the buffer exceed its positive capacity, and the newest
/// signal is always the last one drained.
pub proof fn lemma_signal_push_bounded(buf: Seq<SignalEvent>, capacity: nat, ev: SignalEvent)
    requires
        capacity > 0,
        buf.len() <= capacity,
    ensures
        signal_pushed(buf, capacity, ev).len() <= capacity,
        signal_pushed(buf, capacity, ev).last() == ev,
        buf.len() < capacity ==> signal_pushed(buf, capacity, ev).len() == buf.len() + 1,
{
}

/// Whether a signal passes the optional interface and member filters: each
/// given filter must occur in the signal's interface (resp. member).
pub open spec fn signal_kept(
    ev: SignalEvent,
    interface_filter: Option<Seq<char>>,
    member_filter: Option<Seq<char>>,
) -> bool {
    &&& match interface_filter {
        Some(f) => crate::text::has_substring(ev.interface@, f),
        None => true,
    }
    &&& match member_filter {
        Some(f) => crate::text::has_substring(ev.member@, f),
        None => true,
    }
}

/// The signals that pass the filters, in order.
pub open spec fn signals_kept(
    s: Seq<SignalEvent>,
    interface_filter: Option<Seq<char>>,
    member_filter: Option<Seq<char>>,
) -> Seq<SignalEvent>
    decreases s.len(),
{
    if s.len() == 0 {
        seq![]
    } else {
        let prev = signals_kept(s.subrange(0, s.len() - 1), interface_filter, member_filter);
        if signal_kept(s[s.len() - 1], interface_filter, member_filter) {
            prev.push(s[s.len() - 1])
        } else {
            prev
        }
    }
}

/// Filtering keeps exactly the signals that contain each given filter: every
/// kept signal's interface contains the interface filter and its member the
/// member filter, each whenever it is given and whatever the other is; every
/// signal that contains them is kept; and the kept signals are a
/// subsequence of the given ones, in their order.
pub proof fn lemma_signal_filters(
    s: Seq<SignalEvent>,
    interface_filter: Option<Seq<char>>,
    member_filter: Option<Seq<char>>,
)
    ensures
        ({
            let r = signals_kept(s, interface_filter, member_filter);
            &&& forall|i: int| 0 <= i < r.len() ==> match interface_filter {
                Some(f) => crate::text::has_substring((#[trigger] r[i]).interface@, f),
                None => true,
            }
            &&& forall|i: int| 0 <= i < r.len() ==> match member_filter {
                Some(f) => crate::text::has_substring((#[trigger] r[i]).member@, f),
                None => true,
            }
            &&& forall|i: int| 0 <= i < r.len() ==> s.contains(#[trigger] r[i])
            &&& crate::atspi::is_subsequence(r, s)
            &&& forall|i: int|
                0 <= i < s.len() && (match interface_filter {
                    Some(f) => crate::text::has_substring((#[trigger] s[i]).interface@, f),
                    None => true,
                }) && (match member_filter {
                    Some(f) => crate::text::has_substring(s[i].member@, f),
                    None => true,
                }) ==> r.contains(s[i])
        }),
    decreases s.len(),
{
    if s.len() == 0 {
        assert(crate::atspi::places_in(
            signals_kept(s, interface_filter, member_filter),
            s,
            Seq::<int>::empty(),
        ));
    } else {
        let init = s.subrange(0, s.len() - 1);
        let last = s[s.len() - 1];
        lemma_signal_filters(init, interface_filter, member_filter);
        let prev = signals_kept(init, interface_filter, member_filter);
        let r = signals_kept(s, interface_filter, member_filter);
        let pidx = choose|idx: Seq<int>| crate::atspi::places_in(prev, init, idx);
        if r.len() > prev.len() {
            let idx = pidx.push(s.len() - 1);
            assert(crate::atspi::places_in(r, s, idx));
        } else {
            assert(crate::atspi::places_in(r, s, pidx));
        }
        assert forall|i: int| 0 <= i < r.len() implies s.contains(#[trigger] r[i]) by {
            if i < prev.len() {
                assert(init.contains(prev[i]));
                let j = choose|j: int| 0 <= j < init.len() && init[j] == prev[i];
                assert(s[j] == prev[i]);
            } else {
                assert(s[s.len() - 1] == r[i]);
            }
        }
        assert forall|i: int|
            0 <= i < s.len() && (match interface_filter {
                Some(f) => crate::text::has_substring((#[trigger] s[i]).interface@, f),
                None => true,
            }) && (match member_filter {
                Some(f) => crate::text::has_substring(s[i].member@, f),
                None => true,
            }) implies r.contains(s[i]) by {
            if i < s.len() - 1 {
                assert(init[i] == s[i]);
                let j = choose|j: int| 0 <= j < prev.len() && prev[j] == init[i];
                assert(r[j] == s[i]);
            } else {
                assert(r[r.len() - 1] == s[i]);
            }
        }
    }
}

/// Keep the signals whose interface and member contain the given filters.
pub fn filter_signals(
    signals: Vec<SignalEvent>,
    interface_filter: Option<&str>,
    member_filter: Option<&str>,
) -> (r: Vec<SignalEvent>)
    ensures
        r@ == signals_kept(
            signals@,
            match interface_filter {
                Some(f) => Some(f@),
                None => None,
            },
            match member_filter {
                Some(f) => Some(f@),
                None => None,
            },
        ),
{
    let ghost ifv = match interface_filter {
        Some(f) => Some(f@),
        None => None,
    };
    let ghost mfv = match member_filter {
        Some(f) => Some(f@),
        None => None,
    };
    let ghost all = signals@;
    let mut out: Vec<SignalEvent> = Vec::new();
    let mut rest = signals;
    assert(all.subrange(0, 0) =~= Seq::<SignalEvent>::empty());
    assert(all.subrange(0, all.len() as int) =~= all);
    while rest.len() > 0
        invariant
            rest@.len() <= all.len(),
            rest@ == all.subrange(all.len() - rest@.len(), all.len() as int),
            out@ == signals_kept(all.subrange(0, all.len() - rest@.len()), ifv, mfv),
            ifv == match interface_filter {
                Some(f) => Some(f@),
                None => None,
            },
            mfv == match member_filter {
                Some(f) => Some(f@),
                None => None,
            },
        decreases rest.len(),
    {
        let ghost k: int = all.len() - rest@.len();
        let ev = rest.remove(0);
        proof {
            assert(ev == all[k]);
            let next = all.subrange(0, k + 1);
            assert(next.subrange(0, next.len() - 1) =~= all.subrange(0, k));
        }
        let keep_iface = match interface_filter {
            Some(f) => crate::text::str_contains(ev.interface.as_str(), f),
            None => true,
        };
        let keep_member = match member_filter {
            Some(f) => crate::text::str_contains(ev.member.as_str(), f),
            None => true,
        };
        if keep_iface && keep_member {
            out.push(ev);
        }
        proof {
            assert(rest@ =~= all.subrange(all.len() - rest@.len(), all.len() as int));
        }
    }
    assert(all.subrange(0, all.len() as int) =~= all);
    out
}

} // verus!
