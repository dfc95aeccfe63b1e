//! AT-SPI event subscription patterns and the bounded event buffer.
//!
//! Events follow a hierarchical naming scheme `<category>:<major>:<minor>`,
//! e.g. `object:state-changed:focused`, `window:create`, `focus:`.
//! Category shortcuts accepted by a subscription: "object", "window",
//! "focus", "mouse", "keyboard", "document", "terminal", and "all".

use std::collections::VecDeque;
use vstd::prelude::*;
use crate::atspi::string_views;
use crate::registry::{NotRegistered, Registry, RegistryEntry};
use crate::json::{JsonValue, JsonView, json_view};
use crate::dbus_value::{DbusValue, is_wire_value, json_of, value_to_json};
use crate::text::{chars_find, chars_of, chars_occur_at, concat3, first_occurrence,
    has_prefix, push_char, str_eq, string_from_range};

verus! {

/// Capacity of the AT-SPI event buffer.
pub const EVENT_BUFFER_CAPACITY: usize = 1000;

// ─── Patterns ────────────────────────────────────────────────────────────────

/// Whether `s` holds a ':' character.
pub open spec fn has_colon(s: Seq<char>) -> bool {
    s.contains(':')
}

/// The AT-SPI event strings a user-supplied pattern stands for.
pub open spec fn expanded_patterns(p: Seq<char>) -> Seq<Seq<char>> {
    if p == "object"@ {
        seq!["object:"@]
    } else if p == "window"@ {
        seq!["window:"@]
    } else if p == "focus"@ {
        seq!["focus:"@]
    } else if p == "mouse"@ {
        seq!["mouse:"@]
    } else if p == "keyboard"@ {
        seq!["keyboard:"@]
    } else if p == "document"@ {
        seq!["document:"@]
    } else if p == "terminal"@ {
        seq!["terminal:"@]
    } else if p == "all"@ {
        seq!["object:"@, "window:"@, "focus:"@, "mouse:"@, "keyboard:"@]
    } else if has_colon(p) {
        seq![p]
    } else {
        seq![p.push(':')]
    }
}

/// Whether a string holds a ':' character.
fn holds_colon(s: &str) -> (r: bool)
    ensures
        r == has_colon(s@),
{
    let v = chars_of(s);
    let mut i: usize = 0;
    while i < v.len()
        invariant
            v@ == s@,
            i <= v.len(),
            forall|j: int| 0 <= j < i ==> v@[j] != ':',
        decreases v.len() - i,
    {
        if v[i] == ':' {
            assert(v@[i as int] == ':');
            return true;
        }
        i = i + 1;
    }
    false
}

/// Expand a user-supplied event pattern into a list of AT-SPI event strings.
///
/// Shortcuts like "object" become "object:" (prefix match).
pub fn expand_event_pattern(pattern: &str) -> (r: Vec<String>)
    ensures
        string_views(r@) == expanded_patterns(pattern@),
{
    let r: Vec<String> = if str_eq(pattern, "object") {
        vec!["object:".to_owned()]
    } else if str_eq(pattern, "window") {
        vec!["window:".to_owned()]
    } else if str_eq(pattern, "focus") {
        vec!["focus:".to_owned()]
    } else if str_eq(pattern, "mouse") {
        vec!["mouse:".to_owned()]
    } else if str_eq(pattern, "keyboard") {
        vec!["keyboard:".to_owned()]
    } else if str_eq(pattern, "document") {
        vec!["document:".to_owned()]
    } else if str_eq(pattern, "terminal") {
        vec!["terminal:".to_owned()]
    } else if str_eq(pattern, "all") {
        vec![
            "object:".to_owned(),
            "window:".to_owned(),
            "focus:".to_owned(),
            "mouse:".to_owned(),
            "keyboard:".to_owned(),
        ]
    } else if holds_colon(pattern) {
        vec![pattern.to_owned()]
    } else {
        let mut s = pattern.to_owned();
        push_char(&mut s, ':');
        vec![s]
    };
    assert(string_views(r@) =~= expanded_patterns(pattern@));
    r
}

/// The event strings all patterns stand for, in order.
pub open spec fn expanded_all(ps: Seq<Seq<char>>) -> Seq<Seq<char>>
    decreases ps.len(),
{
    if ps.len() == 0 {
        seq![]
    } else {
        expanded_all(ps.drop_last()) + expanded_patterns(ps.last())
    }
}

/// Expands every pattern and concatenates the results, as registration and
/// deregistration with the AT-SPI registry walk them.
pub fn expand_event_patterns(patterns: &Vec<String>) -> (r: Vec<String>)
    ensures
        string_views(r@) == expanded_all(string_views(patterns@)),
{
    let mut r: Vec<String> = Vec::new();
    let mut i: usize = 0;
    while i < patterns.len()
        invariant
            i <= patterns.len(),
            string_views(r@) == expanded_all(string_views(patterns@).subrange(0, i as int)),
        decreases patterns.len() - i,
    {
        let mut e = expand_event_pattern(patterns[i].as_str());
        let ghost before = r@;
        let ghost added = e@;
        r.append(&mut e);
        proof {
            let ps = string_views(patterns@);
            assert(ps.subrange(0, i + 1).drop_last() =~= ps.subrange(0, i as int));
            assert(string_views(r@) =~= string_views(before) + string_views(added));
        }
        i = i + 1;
    }
    assert(string_views(patterns@).subrange(0, patterns.len() as int) =~= string_views(
        patterns@,
    ));
    r
}

/// Whether a received event name matches a subscribed pattern:
/// a pattern ending in ':' matches the events that start with it;
/// any other pattern matches itself exactly or as a `<pattern>:` prefix.
pub open spec fn event_matches(event: Seq<char>, pattern: Seq<char>) -> bool {
    if pattern.len() > 0 && pattern.last() == ':' {
        has_prefix(event, pattern)
    } else {
        event == pattern || has_prefix(event, pattern.push(':'))
    }
}

/// Returns true if the received `event_name` matches the subscribed `pattern`.
pub fn event_matches_pattern(event_name: &str, pattern: &str) -> (r: bool)
    ensures
        r == event_matches(event_name@, pattern@),
{
    let ev = chars_of(event_name);
    let pv = chars_of(pattern);
    if pv.len() > 0 && pv[pv.len() - 1] == ':' {
        chars_occur_at(&ev, &pv, 0)
    } else {
        if str_eq(event_name, pattern) {
            return true;
        }
        let mut with_colon = pv.clone();
        with_colon.push(':');
        assert(with_colon@ =~= pattern@.push(':'));
        chars_occur_at(&ev, &with_colon, 0)
    }
}

/// Every pattern matches the event name it spells.
pub proof fn lemma_pattern_matches_itself(p: Seq<char>)
    ensures
        event_matches(p, p),
{
    assert(p.subrange(0, p.len() as int) =~= p);
}

/// Whatever a specific pattern matches is also matched by the category
/// pattern `<category>:` of any category the pattern starts with.
pub proof fn lemma_category_covers_specific(event: Seq<char>, category: Seq<char>, specific: Seq<char>)
    requires
        has_prefix(specific, category.push(':')),
        !(specific.len() > 0 && specific.last() == ':'),
        event_matches(event, specific),
    ensures
        event_matches(event, category.push(':')),
{
    let c = category.push(':');
    assert(c.last() == ':');
    if event != specific {
        let q = specific.push(':');
        assert(event.subrange(0, q.len() as int) == q);
        assert(event.subrange(0, c.len() as int) =~= q.subrange(0, c.len() as int));
        assert(q.subrange(0, c.len() as int) =~= specific.subrange(0, c.len() as int));
    }
}

/// A pattern without ':' matches an event other than its own name exactly
/// when its category form `<p>:` does.
proof fn lemma_colon_form(event: Seq<char>, p: Seq<char>)
    requires
        !has_colon(p),
        event != p,
        event_matches(event, p),
    ensures
        event_matches(event, p.push(':')),
{
    let q = p.push(':');
    assert(q.last() == ':');
    if p.len() > 0 && p.last() == ':' {
        assert(p.contains(p.last()));
    }
}

/// Expanding a subscription pattern loses no event the pattern names but
/// the bare name of a pattern without ':': an event that a pattern other than
/// the `all` shortcut matches is matched by one of the event strings the
/// pattern expands to, unless the pattern holds no ':' and the event is the
/// pattern itself (its expansion `<p>:` asks for a following ':').
pub proof fn lemma_expansion_keeps_matches(event: Seq<char>, p: Seq<char>)
    requires
        p != "all"@,
        has_colon(p) || event != p,
        event_matches(event, p),
    ensures
        matches_any(event, expanded_patterns(p)),
{
    reveal_strlit("object");
    reveal_strlit("object:");
    reveal_strlit("window");
    reveal_strlit("window:");
    reveal_strlit("focus");
    reveal_strlit("focus:");
    reveal_strlit("mouse");
    reveal_strlit("mouse:");
    reveal_strlit("keyboard");
    reveal_strlit("keyboard:");
    reveal_strlit("document");
    reveal_strlit("document:");
    reveal_strlit("terminal");
    reveal_strlit("terminal:");
    let ex = expanded_patterns(p);
    if has_colon(p) {
        assert(!(p == "object"@ || p == "window"@ || p == "focus"@ || p == "mouse"@ || p
            == "keyboard"@ || p == "document"@ || p == "terminal"@)) by {
            if p == "object"@ || p == "window"@ || p == "focus"@ || p == "mouse"@ || p == "keyboard"@
                || p == "document"@ || p == "terminal"@ {
                let i = choose|i: int| 0 <= i < p.len() && p[i] == ':';
                assert(p[i] == ':');
            }
        }
        assert(ex == seq![p]);
        assert(event_matches(event, ex[0]));
    } else {
        lemma_colon_form(event, p);
        if p == "object"@ {
            assert("object:"@ =~= p.push(':'));
        } else if p == "window"@ {
            assert("window:"@ =~= p.push(':'));
        } else if p == "focus"@ {
            assert("focus:"@ =~= p.push(':'));
        } else if p == "mouse"@ {
            assert("mouse:"@ =~= p.push(':'));
        } else if p == "keyboard"@ {
            assert("keyboard:"@ =~= p.push(':'));
        } else if p == "document"@ {
            assert("document:"@ =~= p.push(':'));
        } else if p == "terminal"@ {
            assert("terminal:"@ =~= p.push(':'));
        }
        assert(ex =~= seq![p.push(':')]);
        assert(event_matches(event, ex[0]));
    }
}

// ─── Match rule ──────────────────────────────────────────────────────────────

/// The category of an event string: what precedes its first ':', or the
/// whole string when it holds none.
pub open spec fn category_of(e: Seq<char>) -> Seq<char> {
    match first_occurrence(e, seq![':']) {
        Some(i) => e.subrange(0, i),
        None => e,
    }
}

/// The categories of a list of event strings.
pub open spec fn categories_of(es: Seq<Seq<char>>) -> Seq<Seq<char>> {
    es.map_values(|e: Seq<char>| category_of(e))
}

/// A sequence with runs of equal consecutive elements collapsed to one.
pub open spec fn dedup_consecutive(s: Seq<Seq<char>>) -> Seq<Seq<char>>
    decreases s.len(),
{
    if s.len() <= 1 {
        s
    } else {
        let d = dedup_consecutive(s.drop_last());
        if s.last() == s[s.len() - 2] {
            d
        } else {
            d.push(s.last())
        }
    }
}

/// The D-Bus match rule for a set of event strings: a member rule when they
/// all share one category (after collapsing repeats), else a broad rule that
/// takes every signal, to be filtered by event name on receipt.
pub open spec fn match_rule_for(events: Seq<Seq<char>>) -> Seq<char> {
    let cats = dedup_consecutive(categories_of(events));
    if cats.len() == 1 {
        "type='signal',member='"@ + cats[0] + "'"@
    } else {
        "type='signal'"@
    }
}

/// The category of an event string.
fn event_category(e: &str) -> (r: String)
    ensures
        r@ == category_of(e@),
{
    let v = chars_of(e);
    let mut colon: Vec<char> = Vec::new();
    colon.push(':');
    assert(colon@ == seq![':']);
    match chars_find(&v, &colon) {
        Some(i) => {
            proof {
                crate::atspi::lemma_first_occurrence_bounds(e@, seq![':']);
            }
            string_from_range(&v, 0, i)
        },
        None => e.to_owned(),
    }
}

/// Build a D-Bus match rule that captures signals for the given events.
pub fn build_match_rule(events: &Vec<String>) -> (r: String)
    ensures
        r@ == match_rule_for(string_views(events@)),
{
    let ghost es = string_views(events@);
    let mut cats: Vec<String> = Vec::new();
    let mut i: usize = 0;
    while i < events.len()
        invariant
            es == string_views(events@),
            i <= events.len(),
            string_views(cats@) == dedup_consecutive(categories_of(es.subrange(0, i as int))),
            i > 0 ==> cats@.len() > 0 && cats@.last()@ == category_of(es[i - 1]),
        decreases events.len() - i,
    {
        let c = event_category(events[i].as_str());
        let ghost before = cats@;
        let keep = if i == 0 {
            true
        } else {
            !str_eq(cats[cats.len() - 1].as_str(), c.as_str())
        };
        proof {
            let s = categories_of(es.subrange(0, i + 1));
            assert(s.drop_last() =~= categories_of(es.subrange(0, i as int)));
            assert(s.last() == category_of(es[i as int]));
            if i > 0 {
                assert(s[s.len() - 2] == category_of(es[i - 1]));
            }
        }
        if keep {
            cats.push(c);
            assert(string_views(cats@) =~= string_views(before).push(c@));
        }
        i = i + 1;
    }
    assert(es.subrange(0, events.len() as int) =~= es);
    if cats.len() == 1 {
        concat3("type='signal',member='", cats[0].as_str(), "'")
    } else {
        "type='signal'".to_owned()
    }
}

/// The full event name of a received AT-SPI signal: its member, followed by
/// `:<kind>` when the kind string is not empty.
pub open spec fn atspi_event_name_of(member: Seq<char>, kind: Seq<char>) -> Seq<char> {
    if kind.len() == 0 {
        member
    } else {
        member + seq![':'] + kind
    }
}

/// Build the event name from the signal member and its kind argument.
pub fn atspi_event_name(member: &str, kind: &str) -> (r: String)
    ensures
        r@ == atspi_event_name_of(member@, kind@),
{
    if kind.is_empty() {
        member.to_owned()
    } else {
        let mut s = member.to_owned();
        push_char(&mut s, ':');
        crate::text::push_str(&mut s, kind);
        s
    }
}

// ─── Buffer ──────────────────────────────────────────────────────────────────

/// A single buffered AT-SPI event.
pub struct AtspiEvent {
    /// The subscription ID that captured this event.
    pub subscription_id: String,
    /// Event category, e.g. "object", "window", "focus".
    pub category: String,
    /// Full event name, e.g. "object:state-changed:focused".
    pub event_name: String,
    /// D-Bus signal member name.
    pub member: String,
    /// The element that emitted the event (bus:path).
    pub source: String,
    /// Application name (best-effort).
    pub app_name: String,
    pub detail1: i32,
    pub detail2: i32,
    pub any_data: JsonValue,
    /// Unix timestamp in seconds.
    pub timestamp: u64,
}

/// The buffered events that belong to one subscription, in arrival order.
pub open spec fn events_for(s: Seq<AtspiEvent>, id: Seq<char>) -> Seq<AtspiEvent>
    decreases s.len(),
{
    if s.len() == 0 {
        seq![]
    } else {
        let p = events_for(s.drop_last(), id);
        if s.last().subscription_id@ == id {
            p.push(s.last())
        } else {
            p
        }
    }
}

/// The buffered events that belong to any other subscription, in arrival order.
pub open spec fn events_not_for(s: Seq<AtspiEvent>, id: Seq<char>) -> Seq<AtspiEvent>
    decreases s.len(),
{
    if s.len() == 0 {
        seq![]
    } else {
        let p = events_not_for(s.drop_last(), id);
        if s.last().subscription_id@ != id {
            p.push(s.last())
        } else {
            p
        }
    }
}

/// The buffer after one more event arrives: the oldest event leaves when the
/// buffer is full.
pub open spec fn pushed(buf: Seq<AtspiEvent>, capacity: nat, ev: AtspiEvent) -> Seq<AtspiEvent> {
    if buf.len() >= capacity {
        buf.drop_first().push(ev)
    } else {
        buf.push(ev)
    }
}

/// The items of a queue, front first, moved into a vector; the queue is left
/// empty.
pub(crate) fn drain_queue<T>(q: &mut VecDeque<T>) -> (r: Vec<T>)
    ensures
        r@ == old(q)@,
        final(q)@ == Seq::<T>::empty(),
{
    let ghost orig = q@;
    let mut out: Vec<T> = Vec::new();
    while q.len() > 0
        invariant
            out@ + q@ == orig,
        decreases q@.len(),
    {
        let ghost before = q@;
        let item = q.pop_front().unwrap();
        out.push(item);
        assert(out@ + q@ =~= orig) by {
            assert(before =~= seq![item] + q@);
        }
    }
    assert(out@ =~= orig);
    out
}

/// Shared AT-SPI event buffer and subscription registry.
pub struct EventQueue {
    buf: VecDeque<AtspiEvent>,
    capacity: usize,
    subs: Registry<Vec<String>>,
}

impl EventQueue {
    /// The buffered events, oldest first.
    pub closed spec fn events(&self) -> Seq<AtspiEvent> {
        self.buf@
    }

    /// The maximum number of buffered events.
    pub closed spec fn capacity(&self) -> nat {
        self.capacity as nat
    }

    /// Registered subscriptions: identifier to the patterns asked for.
    pub closed spec fn subscriptions(&self) -> Map<Seq<char>, Vec<String>> {
        self.subs.view_map()
    }

    /// Registered subscriptions in registration order.
    pub closed spec fn subscription_entries(&self) -> Seq<RegistryEntry<Vec<String>>> {
        self.subs.entries()
    }

    /// The buffer never exceeds its capacity, the capacity is positive, and
    /// subscription identifiers are distinct.
    pub closed spec fn wf(&self) -> bool {
        &&& self.capacity > 0
        &&& self.buf@.len() <= self.capacity
        &&& self.subs.wf()
    }

    /// An empty buffer with the standard capacity and no subscriptions.
    pub fn new() -> (r: EventQueue)
        ensures
            r.wf(),
            r.events() == Seq::<AtspiEvent>::empty(),
            r.capacity() == EVENT_BUFFER_CAPACITY,
            r.subscriptions() == Map::<Seq<char>, Vec<String>>::empty(),
    {
        EventQueue {
            buf: VecDeque::with_capacity(EVENT_BUFFER_CAPACITY),
            capacity: EVENT_BUFFER_CAPACITY,
            subs: Registry::new(),
        }
    }

    /// Add an event, dropping the oldest one when the buffer is full.
    pub fn push(&mut self, ev: AtspiEvent)
        requires
            old(self).wf(),
        ensures
            final(self).wf(),
            final(self).events() == pushed(old(self).events(), old(self).capacity(), ev),
            final(self).capacity() == old(self).capacity(),
            final(self).subscriptions() == old(self).subscriptions(),
            final(self).subscription_entries() == old(self).subscription_entries(),
    {
        if self.buf.len() >= self.capacity {
            self.buf.pop_front();
        }
        self.buf.push_back(ev);
    }

    /// Remove and return the events of one subscription; the others stay,
    /// in their order.
    pub fn drain_for(&mut self, sub_id: &str) -> (r: Vec<AtspiEvent>)
        requires
            old(self).wf(),
        ensures
            final(self).wf(),
            r@ == events_for(old(self).events(), sub_id@),
            final(self).events() == events_not_for(old(self).events(), sub_id@),
            final(self).capacity() == old(self).capacity(),
            final(self).subscriptions() == old(self).subscriptions(),
            final(self).subscription_entries() == old(self).subscription_entries(),
    {
        let ghost orig = self.buf@;
        let mut rest: VecDeque<AtspiEvent> = VecDeque::new();
        core::mem::swap(&mut rest, &mut self.buf);
        let mut out: Vec<AtspiEvent> = Vec::new();
        let mut kept: VecDeque<AtspiEvent> = VecDeque::new();
        let ghost mut k: int = 0;
        while rest.len() > 0
            invariant
                0 <= k <= orig.len(),
                rest@ == orig.subrange(k, orig.len() as int),
                out@ == events_for(orig.subrange(0, k), sub_id@),
                kept@ == events_not_for(orig.subrange(0, k), sub_id@),
                kept@.len() <= k,
            decreases rest.len(),
        {
            let ev = rest.pop_front().unwrap();
            proof {
                assert(orig.subrange(0, k + 1).drop_last() =~= orig.subrange(0, k));
                assert(orig.subrange(0, k + 1).last() == ev);
                lemma_events_not_for_len(orig.subrange(0, k + 1), sub_id@);
            }
            if str_eq(ev.subscription_id.as_str(), sub_id) {
                out.push(ev);
            } else {
                kept.push_back(ev);
            }
            proof {
                k = k + 1;
                assert(rest@ =~= orig.subrange(k, orig.len() as int));
            }
        }
        assert(orig.subrange(0, k) =~= orig);
        self.buf = kept;
        out
    }

    /// Remove and return all buffered events.
    pub fn drain_all(&mut self) -> (r: Vec<AtspiEvent>)
        requires
            old(self).wf(),
        ensures
            final(self).wf(),
            r@ == old(self).events(),
            final(self).events() == Seq::<AtspiEvent>::empty(),
            final(self).capacity() == old(self).capacity(),
            final(self).subscriptions() == old(self).subscriptions(),
            final(self).subscription_entries() == old(self).subscription_entries(),
    {
        drain_queue(&mut self.buf)
    }

    /// Register a subscription for the given patterns under a fresh random
    /// identifier, which is returned.
    pub fn add_subscription(&mut self, event_patterns: Vec<String>) -> (id: String)
        requires
            old(self).wf(),
        ensures
            final(self).wf(),
            final(self).events() == old(self).events(),
            final(self).capacity() == old(self).capacity(),
            final(self).subscriptions() == old(self).subscriptions().insert(id@, event_patterns),
            crate::ids::is_uuid_v4_text(id@),
    {
        self.subs.insert_fresh(event_patterns)
    }

    /// Cancel a subscription, returning the patterns it was registered with.
    pub fn remove_subscription(&mut self, sub_id: &str) -> (r: Result<Vec<String>, NotRegistered>)
        requires
            old(self).wf(),
        ensures
            final(self).wf(),
            final(self).events() == old(self).events(),
            final(self).capacity() == old(self).capacity(),
            final(self).subscriptions() == old(self).subscriptions().remove(sub_id@),
            match r {
                Ok(p) => old(self).subscriptions().dom().contains(sub_id@) && p == old(self).subscriptions()[sub_id@],
                Err(e) => !old(self).subscriptions().dom().contains(sub_id@) && e.id@ == sub_id@,
            },
    {
        self.subs.remove(sub_id)
    }

    /// List active subscriptions: (id, event_patterns) pairs in registration order.
    pub fn list(&self) -> (r: Vec<(String, Vec<String>)>)
        ensures
            r@.len() == self.subscription_entries().len(),
            forall|i: int|
                0 <= i < r@.len() ==> #[trigger] r@[i].0@ == self.subscription_entries()[i].id@
                    && string_views(r@[i].1@) == string_views(self.subscription_entries()[i].value@),
    {
        let mut r: Vec<(String, Vec<String>)> = Vec::new();
        let mut i: usize = 0;
        let n = self.subs.len();
        while i < n
            invariant
                n == self.subscription_entries().len(),
                i <= n,
                r@.len() == i,
                forall|j: int|
                    0 <= j < i ==> #[trigger] r@[j].0@ == self.subscription_entries()[j].id@
                        && string_views(r@[j].1@) == string_views(self.subscription_entries()[j].value@),
            decreases n - i,
        {
            let entry = self.subs.entry_at(i);
            let pats = clone_strings(&entry.value);
            let ghost before = r@;
            let idc = entry.id.clone();
            r.push((idc, pats));
            assert(r@[i as int].0@ == entry.id@);
            assert(string_views(r@[i as int].1@) == string_views(entry.value@));
            assert(*entry == self.subs.entries()[i as int]);
            assert forall|j: int| 0 <= j <= i implies #[trigger] r@[j].0@ == self.subscription_entries()[j].id@
                && string_views(r@[j].1@) == string_views(self.subscription_entries()[j].value@) by {
                if j < i {
                    assert(r@[j] == before[j]);
                }
            }
            i = i + 1;
        }
        r
    }
}

/// A copy of a list of strings.
pub fn clone_strings(v: &Vec<String>) -> (r: Vec<String>)
    ensures
        string_views(r@) == string_views(v@),
{
    let mut r: Vec<String> = Vec::new();
    let mut i: usize = 0;
    while i < v.len()
        invariant
            i <= v.len(),
            string_views(r@) == string_views(v@.subrange(0, i as int)),
        decreases v.len() - i,
    {
        let ghost before = r@;
        r.push(v[i].clone());
        assert(string_views(r@) =~= string_views(before).push(v@[i as int]@));
        assert(v@.subrange(0, i + 1) =~= v@.subrange(0, i as int).push(v@[i as int]));
        assert(string_views(v@.subrange(0, i + 1)) =~= string_views(v@.subrange(0, i as int)).push(
            v@[i as int]@,
        ));
        i = i + 1;
    }
    assert(v@.subrange(0, v.len() as int) =~= v@);
    r
}

/// The events kept by `drain_for` are never more than the buffered ones.
pub proof fn lemma_events_not_for_len(s: Seq<AtspiEvent>, id: Seq<char>)
    ensures
        events_not_for(s, id).len() <= s.len(),
        events_for(s, id).len() + events_not_for(s, id).len() == s.len(),
    decreases s.len(),
{
    if s.len() > 0 {
        lemma_events_not_for_len(s.drop_last(), id);
    }
}

/// After its events are drained, a subscription has no events left in the
/// buffer: draining again yields nothing.
pub proof fn lemma_drain_for_idempotent(s: Seq<AtspiEvent>, id: Seq<char>)
    ensures
        events_for(events_not_for(s, id), id) == Seq::<AtspiEvent>::empty(),
        events_not_for(events_not_for(s, id), id) == events_not_for(s, id),
    decreases s.len(),
{
    if s.len() > 0 {
        lemma_drain_for_idempotent(s.drop_last(), id);
        let p = events_not_for(s.drop_last(), id);
        if s.last().subscription_id@ != id {
            assert(p.push(s.last()).drop_last() =~= p);
        }
    }
}

/// A buffered event that has just arrived for a subscription is the last
/// event handed out when that subscription is drained.
pub proof fn lemma_pushed_event_drained_last(
    buf: Seq<AtspiEvent>,
    capacity: nat,
    ev: AtspiEvent,
)
    ensures
        events_for(pushed(buf, capacity, ev), ev.subscription_id@).last() == ev,
        events_for(pushed(buf, capacity, ev), ev.subscription_id@).len() > 0,
{
    let b = pushed(buf, capacity, ev);
    assert(b.last() == ev);
}

/// The buffer never holds more events than its capacity after a push, given
/// it did not before and the capacity is positive.
pub proof fn lemma_pushed_within_capacity(buf: Seq<AtspiEvent>, capacity: nat, ev: AtspiEvent)
    requires
        capacity > 0,
        buf.len() <= capacity,
    ensures
        pushed(buf, capacity, ev).len() <= capacity,
{
}

/// The patterns a subscription asks for: the categories, then the event
/// names; `object`, `window` and `focus` when neither gives any.
pub open spec fn requested_patterns(
    categories: Option<Seq<Seq<char>>>,
    event_names: Option<Seq<Seq<char>>>,
) -> Seq<Seq<char>> {
    let given = match categories {
        Some(c) => c,
        None => seq![],
    } + match event_names {
        Some(e) => e,
        None => seq![],
    };
    if given.len() == 0 {
        seq!["object"@, "window"@, "focus"@]
    } else {
        given
    }
}

/// The views of an optional list of strings, empty where absent.
pub open spec fn views_or_empty(v: Option<Vec<String>>) -> Seq<Seq<char>> {
    match v {
        Some(x) => string_views(x@),
        None => seq![],
    }
}

/// The patterns a subscription asks for.
pub fn subscription_patterns(categories: Option<Vec<String>>, event_names: Option<Vec<String>>) -> (r: Vec<String>)
    ensures
        string_views(r@) == requested_patterns(
            match categories {
                Some(c) => Some(string_views(c@)),
                None => None,
            },
            match event_names {
                Some(e) => Some(string_views(e@)),
                None => None,
            },
        ),
{
    let ghost cv = views_or_empty(categories);
    let ghost ev = views_or_empty(event_names);
    let mut patterns: Vec<String> = match categories {
        Some(c) => c,
        None => Vec::new(),
    };
    assert(string_views(patterns@) =~= cv);
    match event_names {
        Some(e) => {
            let mut e = e;
            let ghost before = patterns@;
            patterns.append(&mut e);
            assert(string_views(patterns@) =~= cv + ev);
        },
        None => {
            assert(cv + ev =~= cv);
        },
    }
    if patterns.len() == 0 {
        let r = vec!["object".to_owned(), "window".to_owned(), "focus".to_owned()];
        assert(string_views(r@) =~= seq!["object"@, "window"@, "focus"@]);
        r
    } else {
        patterns
    }
}

// ─── Received signals ────────────────────────────────────────────────────────

/// The body of a received AT-SPI signal, as far as it could be decoded.
pub enum AtspiSignalBody {
    /// The usual `((so)isv)` body: the source application's bus name, the
    /// first detail, the event kind and the extra data.
    Event { app_name: String, detail1: i32, kind: String, any_data: DbusValue },
    /// Any other single value.
    Value(DbusValue),
    /// A body that could not be decoded.
    Undecodable,
}

/// What the body of a signal says: event name, first and second detail,
/// extra data as JSON, and application name.
pub open spec fn signal_details(body: AtspiSignalBody, member: Seq<char>, sender: Seq<char>) -> (
    Seq<char>,
    i32,
    i32,
    JsonView,
    Seq<char>,
) {
    match body {
        AtspiSignalBody::Event { app_name, detail1, kind, any_data } => (
            atspi_event_name_of(member, kind@),
            detail1,
            0,
            json_of(any_data),
            app_name@,
        ),
        AtspiSignalBody::Value(v) => (member, 0, 0, json_of(v), sender),
        AtspiSignalBody::Undecodable => (member, 0, 0, JsonView::Null, sender),
    }
}

/// Every value in a decoded body arrived over D-Bus.
pub open spec fn signal_body_is_wire(body: AtspiSignalBody) -> bool {
    match body {
        AtspiSignalBody::Event { any_data, .. } => is_wire_value(any_data),
        AtspiSignalBody::Value(v) => is_wire_value(v),
        AtspiSignalBody::Undecodable => true,
    }
}

/// Whether an event name matches any of the patterns.
pub open spec fn matches_any(event: Seq<char>, patterns: Seq<Seq<char>>) -> bool {
    exists|i: int| 0 <= i < patterns.len() && event_matches(event, #[trigger] patterns[i])
}

/// Read the details of a received signal from its body.
pub fn parse_atspi_signal_args(body: &AtspiSignalBody, member: &str, sender: &str) -> (r: (
    String,
    i32,
    i32,
    JsonValue,
    String,
))
    requires
        signal_body_is_wire(*body),
    ensures
        (r.0@, r.1, r.2, json_view(r.3), r.4@) == signal_details(*body, member@, sender@),
{
    match body {
        AtspiSignalBody::Event { app_name, detail1, kind, any_data } => (
            atspi_event_name(member, kind.as_str()),
            *detail1,
            0,
            value_to_json(any_data),
            app_name.clone(),
        ),
        AtspiSignalBody::Value(v) => (member.to_owned(), 0, 0, value_to_json(v), sender.to_owned()),
        AtspiSignalBody::Undecodable => (
            member.to_owned(),
            0,
            0,
            JsonValue::Null,
            sender.to_owned(),
        ),
    }
}

/// Whether an event name matches any of the patterns.
pub fn matches_any_pattern(event_name: &str, patterns: &Vec<String>) -> (r: bool)
    ensures
        r == matches_any(event_name@, string_views(patterns@)),
{
    let ghost ps = string_views(patterns@);
    let mut i: usize = 0;
    while i < patterns.len()
        invariant
            i <= patterns@.len(),
            ps == string_views(patterns@),
            forall|k: int| 0 <= k < i ==> !event_matches(event_name@, #[trigger] ps[k]),
        decreases patterns.len() - i,
    {
        if event_matches_pattern(event_name, patterns[i].as_str()) {
            assert(event_matches(event_name@, ps[i as int]));
            return true;
        }
        i = i + 1;
    }
    false
}

/// The buffered event a received signal makes for a subscription, or `None`
/// when its event name matches none of the subscription's patterns.
pub fn event_for_signal(
    subscription_id: &str,
    patterns: &Vec<String>,
    member: &str,
    sender: &str,
    path: &str,
    body: &AtspiSignalBody,
    timestamp: u64,
) -> (r: Option<AtspiEvent>)
    requires
        signal_body_is_wire(*body),
    ensures
        ({
            let (name, d1, d2, data, app) = signal_details(*body, member@, sender@);
            match r {
                None => !matches_any(name, string_views(patterns@)),
                Some(ev) => {
                    &&& matches_any(name, string_views(patterns@))
                    &&& ev.subscription_id@ == subscription_id@
                    &&& ev.category@ == member@
                    &&& ev.event_name@ == name
                    &&& ev.member@ == member@
                    &&& ev.source@ == sender@ + seq![':'] + path@
                    &&& ev.app_name@ == app
                    &&& ev.detail1 == d1
                    &&& ev.detail2 == d2
                    &&& json_view(ev.any_data) == data
                    &&& ev.timestamp == timestamp
                },
            }
        }),
{
    let (event_name, detail1, detail2, any_data, app_name) = parse_atspi_signal_args(
        body,
        member,
        sender,
    );
    if !matches_any_pattern(event_name.as_str(), patterns) {
        return None;
    }
    let source = concat3(sender, ":", path);
    proof {
        reveal_strlit(":");
    }
    Some(
        AtspiEvent {
            subscription_id: subscription_id.to_owned(),
            category: member.to_owned(),
            event_name,
            member: member.to_owned(),
            source,
            app_name,
            detail1,
            detail2,
            any_data,
            timestamp,
        },
    )
}

} // verus!
