use desktopmcp::dbus_value::DbusValue;
use desktopmcp::events::{
    atspi_event_name, build_match_rule, event_for_signal, event_matches_pattern,
    expand_event_pattern, expand_event_patterns, matches_any_pattern, parse_atspi_signal_args,
    AtspiEvent, AtspiSignalBody, EventQueue,
};
use desktopmcp::json::{JsonNumber, JsonValue};
use desktopmcp::signals::{SignalEvent, SignalQueue};
use desktopmcp::tools::atspi_tools::{
    atspi_get_pending_events, default_max_events, AtspiGetPendingEventsInput,
};

fn strings(v: &[&str]) -> Vec<String> {
    v.iter().map(|s| s.to_string()).collect()
}

fn event(sub: &str, name: &str) -> AtspiEvent {
    AtspiEvent {
        subscription_id: sub.to_string(),
        category: "object".to_string(),
        event_name: name.to_string(),
        member: "object".to_string(),
        source: ":1.2:/x".to_string(),
        app_name: "app".to_string(),
        detail1: 0,
        detail2: 0,
        any_data: JsonValue::Null,
        timestamp: 1,
    }
}

#[test]
fn pattern_expansion() {
    assert_eq!(expand_event_pattern("object"), vec!["object:"]);
    assert_eq!(
        expand_event_pattern("all"),
        vec!["object:", "window:", "focus:", "mouse:", "keyboard:"]
    );
    assert_eq!(expand_event_pattern("object:state-changed"), vec!["object:state-changed"]);
    assert_eq!(expand_event_pattern("custom"), vec!["custom:"]);
    assert_eq!(
        expand_event_patterns(&strings(&["window", "focus"])),
        vec!["window:", "focus:"]
    );
}

#[test]
fn pattern_matching() {
    assert!(event_matches_pattern("object:state-changed:focused", "object:"));
    assert!(event_matches_pattern("object:state-changed:focused", "object:state-changed"));
    assert!(event_matches_pattern("window:create", "window:create"));
    assert!(!event_matches_pattern("window:create", "object:"));
    assert!(!event_matches_pattern("object:state-changedX", "object:state-changed"));
    assert!(event_matches_pattern("object:state-changed:focused", "object:state-changed:focused"));
    assert!(!event_matches_pattern("object:state-changed:checked", "object:state-changed:focused"));
    // A category pattern takes the events that start with the whole pattern, ':' included.
    assert!(!event_matches_pattern("windowx:create", "window:"));
    assert!(!event_matches_pattern("focus", "focus:"));
    assert!(event_matches_pattern("focus:", "focus:"));
    assert!(matches_any_pattern("focus:", &strings(&["window:", "focus:"])));
    assert!(!matches_any_pattern("mouse:abs", &strings(&["window:", "focus:"])));
}

#[test]
fn match_rules() {
    assert_eq!(
        build_match_rule(&strings(&["object:", "object:state-changed"])),
        "type='signal',member='object'"
    );
    assert_eq!(
        build_match_rule(&strings(&["object:", "window:"])),
        "type='signal'"
    );
}

#[test]
fn signal_details() {
    assert_eq!(atspi_event_name("object", ""), "object");
    assert_eq!(atspi_event_name("object", "state-changed:focused"), "object:state-changed:focused");
    let body = AtspiSignalBody::Event {
        app_name: ":1.9".to_string(),
        detail1: 1,
        kind: "state-changed:focused".to_string(),
        any_data: DbusValue::U32(4),
    };
    let (name, d1, d2, data, app) = parse_atspi_signal_args(&body, "object", ":1.5");
    assert_eq!(name, "object:state-changed:focused");
    assert_eq!((d1, d2), (1, 0));
    assert!(matches!(data, JsonValue::Number(JsonNumber::PosInt(4))));
    assert_eq!(app, ":1.9");
    let (name, _, _, data, app) = parse_atspi_signal_args(&AtspiSignalBody::Undecodable, "window", ":1.5");
    assert_eq!(name, "window");
    assert!(matches!(data, JsonValue::Null));
    assert_eq!(app, ":1.5");
}

#[test]
fn signal_to_event() {
    let body = AtspiSignalBody::Event {
        app_name: ":1.9".to_string(),
        detail1: 0,
        kind: "create".to_string(),
        any_data: DbusValue::Str(String::new()),
    };
    let ev = event_for_signal("sub", &strings(&["window:"]), "window", ":1.5", "/w/1", &body, 42).unwrap();
    assert_eq!(ev.event_name, "window:create");
    assert_eq!(ev.category, "window");
    assert_eq!(ev.source, ":1.5:/w/1");
    assert_eq!(ev.subscription_id, "sub");
    assert_eq!(ev.timestamp, 42);
    assert!(event_for_signal("sub", &strings(&["focus:"]), "window", ":1.5", "/w/1", &body, 42).is_none());
}

#[test]
fn event_queue_drains_per_subscription() {
    let mut q = EventQueue::new();
    q.push(event("a", "object:x"));
    q.push(event("b", "object:y"));
    q.push(event("a", "object:z"));
    let mine = q.drain_for("a");
    assert_eq!(mine.len(), 2);
    assert_eq!(mine[0].event_name, "object:x");
    assert_eq!(mine[1].event_name, "object:z");
    assert!(q.drain_for("a").is_empty());
    let rest = q.drain_all();
    assert_eq!(rest.len(), 1);
    assert_eq!(rest[0].subscription_id, "b");
}

#[test]
fn event_queue_keeps_the_newest() {
    let mut q = EventQueue::new();
    for i in 0..1005u32 {
        q.push(event("a", &format!("object:{i}")));
    }
    let all = q.drain_all();
    assert_eq!(all.len(), 1000);
    assert_eq!(all[0].event_name, "object:5");
    assert_eq!(all[999].event_name, "object:1004");
}

#[test]
fn event_subscriptions() {
    let mut q = EventQueue::new();
    let id = q.add_subscription(strings(&["window:"]));
    assert_eq!(id.len(), 36);
    let listed = q.list();
    assert_eq!(listed.len(), 1);
    assert_eq!(listed[0].0, id);
    assert_eq!(listed[0].1, vec!["window:"]);
    assert_eq!(q.remove_subscription(&id).ok().unwrap(), vec!["window:"]);
    assert!(q.remove_subscription(&id).is_err());
    assert!(q.list().is_empty());
}

#[test]
fn signal_queue_round_trip() {
    let mut q = SignalQueue::new();
    let id = q.add_subscription("type='signal'".to_string());
    q.push(SignalEvent {
        subscription_id: id.clone(),
        interface: "org.x".to_string(),
        member: "Changed".to_string(),
        path: "/".to_string(),
        sender: ":1.1".to_string(),
        args: vec![],
        timestamp: 3,
    });
    let drained = q.drain();
    assert_eq!(drained.len(), 1);
    assert_eq!(drained[0].member, "Changed");
    assert!(q.drain().is_empty());
    assert_eq!(q.list(), vec![(id.clone(), "type='signal'".to_string())]);
    assert_eq!(q.remove_subscription(&id).ok().unwrap(), "type='signal'");
    let err = q.remove_subscription(&id).err().unwrap();
    assert_eq!(err.id, id);
}

#[test]
fn expansion_keeps_matched_events() {
    for (pattern, event_name) in [
        ("window", "window:create"),
        ("focus", "focus:"),
        ("object:state-changed", "object:state-changed:focused"),
        ("custom", "custom:thing"),
    ] {
        assert!(event_matches_pattern(event_name, pattern));
        let expanded = expand_event_pattern(pattern);
        assert!(matches_any_pattern(event_name, &expanded), "{pattern} {event_name}");
    }
    // A pattern's bare name is not kept by its `<p>:` expansion.
    assert!(event_matches_pattern("window", "window"));
    assert!(!matches_any_pattern("window", &expand_event_pattern("window")));
    // The `all` shortcut stands for the five main categories, not for events named `all`.
    assert!(event_matches_pattern("all:x", "all"));
    assert!(!matches_any_pattern("all:x", &expand_event_pattern("all")));
}

#[test]
fn pending_events_are_cut_to_max_events() {
    let mut q = EventQueue::new();
    q.push(event("a", "object:x"));
    q.push(event("b", "object:y"));
    q.push(event("a", "object:z"));
    let out = atspi_get_pending_events(
        &mut q,
        AtspiGetPendingEventsInput { subscription_id: Some("a".to_string()), max_events: 1 },
    );
    assert_eq!(out.count, 1);
    assert_eq!(out.events[0].event_name, "object:x");
    assert_eq!(out.message, "Retrieved 1 event(s)");
    let rest = q.drain_all();
    assert_eq!(rest.len(), 1);
    assert_eq!(rest[0].subscription_id, "b");
}

#[test]
fn no_pending_events_message() {
    let mut q = EventQueue::new();
    let out = atspi_get_pending_events(
        &mut q,
        AtspiGetPendingEventsInput { subscription_id: None, max_events: default_max_events() },
    );
    assert_eq!(out.count, 0);
    assert!(out.events.is_empty());
    assert_eq!(out.message, "No pending events. Make sure to subscribe first with atspi_subscribe_events.");
}
