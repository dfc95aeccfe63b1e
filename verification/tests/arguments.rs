use desktopmcp::atspi::{extract_i32, extract_string, find_action};
use desktopmcp::atspi_args::{
    clip_type, coord_type, edit_operation, geometry_operation, scroll_type_code, selection_action,
    string_granularity, text_boundary, EditOperation, GeometryOperation, SelectionAction,
    COORD_TYPE_SCREEN, COORD_TYPE_WINDOW,
};
use desktopmcp::dbus_value::{value_to_json, DbusValue};
use desktopmcp::events::subscription_patterns;
use desktopmcp::json::{JsonNumber, JsonValue};
use desktopmcp::pixels::{frame_rgba, Frame};
use desktopmcp::signals::{filter_signals, SignalEvent};
use desktopmcp::document::encode_text_selections;
use desktopmcp::to_dbus::{json_to_value, ConversionError};

fn strings(v: &[&str]) -> Vec<String> {
    v.iter().map(|s| s.to_string()).collect()
}

fn signal(interface: &str, member: &str) -> SignalEvent {
    SignalEvent {
        subscription_id: "s".to_string(),
        interface: interface.to_string(),
        member: member.to_string(),
        path: "/".to_string(),
        sender: ":1.1".to_string(),
        args: vec![],
        timestamp: 0,
    }
}

#[test]
fn scroll_and_text_arguments() {
    assert_eq!(scroll_type_code("top-left"), 0);
    assert_eq!(scroll_type_code("right-edge"), 5);
    assert_eq!(scroll_type_code("anywhere"), 6);
    assert_eq!(text_boundary("char"), 0);
    assert_eq!(text_boundary("sentence"), 3);
    assert_eq!(text_boundary("line"), 5);
    assert_eq!(text_boundary("paragraph"), 1);
    assert_eq!(string_granularity("word_end"), 2);
    assert_eq!(string_granularity("line_end"), 6);
    assert_eq!(string_granularity("other"), 1);
    assert_eq!(clip_type("both"), 3);
    assert_eq!(clip_type("none"), 0);
    assert_eq!(coord_type("window"), COORD_TYPE_WINDOW);
    assert_eq!(coord_type("screen"), COORD_TYPE_SCREEN);
}

#[test]
fn operation_arguments() {
    assert_eq!(edit_operation("cut"), EditOperation::Cut);
    assert_eq!(edit_operation("insert"), EditOperation::Insert);
    assert_eq!(edit_operation("whatever"), EditOperation::SetContents);
    assert_eq!(selection_action("remove"), SelectionAction::Remove);
    assert_eq!(selection_action("set"), SelectionAction::Replace);
    assert_eq!(selection_action("add"), SelectionAction::Add);
    assert_eq!(geometry_operation("size"), GeometryOperation::Size);
    assert_eq!(geometry_operation("both"), GeometryOperation::Extents);
}

#[test]
fn property_values() {
    let v = DbusValue::Variant(Box::new(DbusValue::Str("Firefox".to_string())));
    assert_eq!(extract_string(&v).unwrap(), "Firefox");
    assert!(extract_string(&DbusValue::U32(1)).is_none());
    assert_eq!(extract_i32(&DbusValue::U32(u32::MAX)), Some(-1));
    assert_eq!(extract_i32(&DbusValue::Variant(Box::new(DbusValue::I32(7)))), Some(7));
    assert_eq!(extract_i32(&DbusValue::Str("7".to_string())), None);
}

#[test]
fn actions_by_name() {
    let names = strings(&["Press", "Click", "click"]);
    assert_eq!(find_action(&names, "CLICK"), Some(1));
    assert_eq!(find_action(&names, "jump"), None);
}

#[test]
fn event_pattern_defaults() {
    assert_eq!(subscription_patterns(None, None), strings(&["object", "window", "focus"]));
    assert_eq!(
        subscription_patterns(Some(strings(&["window"])), Some(strings(&["focus:"]))),
        strings(&["window", "focus:"])
    );
    assert_eq!(subscription_patterns(Some(vec![]), None), strings(&["object", "window", "focus"]));
}

#[test]
fn signal_filters() {
    let all = vec![signal("org.a.Player", "Seeked"), signal("org.b.Power", "Changed"), signal("org.a.Player", "Changed")];
    let kept = filter_signals(all, Some("Player"), Some("Chang"));
    assert_eq!(kept.len(), 1);
    assert_eq!(kept[0].interface, "org.a.Player");
    assert_eq!(kept[0].member, "Changed");
    let none = filter_signals(vec![signal("x", "y")], None, None);
    assert_eq!(none.len(), 1);
}

#[test]
fn frames() {
    let f = Frame { data: vec![10, 20, 30, 40], width: 1, height: 1, format: "BGRx".to_string() };
    assert_eq!(frame_rgba(&f).unwrap(), vec![30, 20, 10, 255]);
    let bad = Frame { data: vec![], width: 0, height: 0, format: "NV12".to_string() };
    assert_eq!(frame_rgba(&bad).err().unwrap(), "Unsupported pixel format: NV12");
}

#[test]
fn inferred_round_trip() {
    for j in [
        JsonValue::String("s".to_string()),
        JsonValue::Bool(true),
        JsonValue::Number(JsonNumber::PosInt(5)),
        JsonValue::Number(JsonNumber::PosInt(u64::MAX)),
        JsonValue::Number(JsonNumber::NegInt(-70000)),
    ] {
        let v = json_to_value(&j, None).ok().unwrap();
        let back = value_to_json(&v);
        match (&j, &back) {
            (JsonValue::String(a), JsonValue::String(b)) => assert_eq!(a, b),
            (JsonValue::Bool(a), JsonValue::Bool(b)) => assert_eq!(a, b),
            (JsonValue::Number(JsonNumber::PosInt(a)), JsonValue::Number(JsonNumber::PosInt(b))) => assert_eq!(a, b),
            (JsonValue::Number(JsonNumber::NegInt(a)), JsonValue::Number(JsonNumber::NegInt(b))) => assert_eq!(a, b),
            _ => panic!("the value changed kind"),
        }
    }
}

#[test]
fn basic_round_trip() {
    let cases = vec![
        (DbusValue::U8(200), "y"),
        (DbusValue::I16(-5), "n"),
        (DbusValue::U16(65535), "q"),
        (DbusValue::I32(-7), "i"),
        (DbusValue::U32(4000000000), "u"),
        (DbusValue::I64(i64::MIN), "x"),
        (DbusValue::U64(u64::MAX), "t"),
        (DbusValue::ObjectPath("/a/b".to_string()), "o"),
    ];
    for (v, sig) in cases {
        let back = json_to_value(&value_to_json(&v), Some(sig)).ok().unwrap();
        let same = match (&v, &back) {
            (DbusValue::U8(a), DbusValue::U8(b)) => a == b,
            (DbusValue::I16(a), DbusValue::I16(b)) => a == b,
            (DbusValue::U16(a), DbusValue::U16(b)) => a == b,
            (DbusValue::I32(a), DbusValue::I32(b)) => a == b,
            (DbusValue::U32(a), DbusValue::U32(b)) => a == b,
            (DbusValue::I64(a), DbusValue::I64(b)) => a == b,
            (DbusValue::U64(a), DbusValue::U64(b)) => a == b,
            (DbusValue::ObjectPath(a), DbusValue::ObjectPath(b)) => a == b,
            _ => false,
        };
        assert!(same, "round trip under {sig}");
    }
}

#[test]
fn document_selections() {
    let sels = vec![(":1.5:/doc/p1".to_string(), 3, "app".to_string(), 9, true)];
    let out = encode_text_selections(&sels).ok().unwrap();
    assert_eq!(out.len(), 1);
    match &out[0] {
        DbusValue::Structure(fields) => {
            assert_eq!(fields.len(), 5);
            match &fields[0] {
                DbusValue::Structure(r) => {
                    assert!(matches!(&r[0], DbusValue::Str(b) if b == ":1.5"));
                    assert!(matches!(&r[1], DbusValue::ObjectPath(p) if p == "/doc/p1"));
                }
                _ => panic!("start reference"),
            }
            match &fields[2] {
                DbusValue::Structure(r) => {
                    assert!(matches!(&r[0], DbusValue::Str(b) if b == "app"));
                    assert!(matches!(&r[1], DbusValue::ObjectPath(p) if p == "/"));
                }
                _ => panic!("end reference"),
            }
            assert!(matches!(fields[1], DbusValue::I32(3)));
            assert!(matches!(fields[4], DbusValue::Bool(true)));
        }
        _ => panic!("selection structure"),
    }
    let bad = vec![(":1.5:/doc//p".to_string(), 0, ":1.5:/ok".to_string(), 1, false)];
    assert!(matches!(encode_text_selections(&bad), Err(ConversionError::InvalidObjectPath)));
}
