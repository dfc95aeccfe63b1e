use desktopmcp::dbus_value::{
    properties_to_json, reply_to_json, signal_args_json, value_to_json, DbusValue, DecodedBody,
};
use desktopmcp::json::{Float64, JsonNumber, JsonValue};
use desktopmcp::to_dbus::{
    json_args_to_body, json_to_value, method_call_body, ConversionError, Expected,
};

fn num_u(n: u64) -> JsonValue {
    JsonValue::Number(JsonNumber::PosInt(n))
}

fn num_i(n: i64) -> JsonValue {
    JsonValue::Number(JsonNumber::NegInt(n))
}

fn s(t: &str) -> JsonValue {
    JsonValue::String(t.to_string())
}

fn is_u(j: &JsonValue, n: u64) -> bool {
    matches!(j, JsonValue::Number(JsonNumber::PosInt(m)) if *m == n)
}

fn is_i(j: &JsonValue, n: i64) -> bool {
    matches!(j, JsonValue::Number(JsonNumber::NegInt(m)) if *m == n)
}

fn is_s(j: &JsonValue, t: &str) -> bool {
    matches!(j, JsonValue::String(x) if x == t)
}

fn object_get<'a>(j: &'a JsonValue, key: &str) -> Option<&'a JsonValue> {
    match j {
        JsonValue::Object(entries) => entries.iter().find(|(k, _)| k == key).map(|(_, v)| v),
        _ => None,
    }
}

// ─── D-Bus to JSON ───────────────────────────────────────────────────────────

#[test]
fn scalars_to_json() {
    assert!(is_u(&value_to_json(&DbusValue::U8(7)), 7));
    assert!(is_i(&value_to_json(&DbusValue::I16(-3)), -3));
    assert!(is_u(&value_to_json(&DbusValue::I32(12)), 12));
    assert!(is_u(&value_to_json(&DbusValue::U64(u64::MAX)), u64::MAX));
    assert!(matches!(value_to_json(&DbusValue::Bool(true)), JsonValue::Bool(true)));
    assert!(is_s(&value_to_json(&DbusValue::ObjectPath("/a/b".to_string())), "/a/b"));
    assert!(is_s(&value_to_json(&DbusValue::Signature("a{sv}".to_string())), "a{sv}"));
}

#[test]
fn doubles_to_json() {
    let finite = DbusValue::Double(Float64::Bits { bits: 1.5f64.to_bits(), text: "1.5".to_string() });
    match value_to_json(&finite) {
        JsonValue::Number(JsonNumber::Float(Float64::Bits { bits, .. })) => {
            assert_eq!(bits, 1.5f64.to_bits())
        }
        _ => panic!("finite double must stay a number"),
    }
    let nan = DbusValue::Double(Float64::Bits { bits: f64::NAN.to_bits(), text: "NaN".to_string() });
    assert!(matches!(value_to_json(&nan), JsonValue::Null));
}

#[test]
fn variant_and_fd_to_json() {
    let v = DbusValue::Variant(Box::new(DbusValue::Str("x".to_string())));
    let j = value_to_json(&v);
    assert!(is_s(object_get(&j, "v").unwrap(), "x"));
    let fd = value_to_json(&DbusValue::Fd(5));
    assert!(is_u(object_get(&fd, "fd").unwrap(), 5));
}

#[test]
fn containers_to_json() {
    let arr = DbusValue::Array {
        signature: "ai".to_string(),
        items: vec![DbusValue::I32(1), DbusValue::I32(-2)],
    };
    match value_to_json(&arr) {
        JsonValue::Array(items) => {
            assert_eq!(items.len(), 2);
            assert!(is_u(&items[0], 1));
            assert!(is_i(&items[1], -2));
        }
        _ => panic!("array expected"),
    }
    let st = DbusValue::Structure(vec![DbusValue::Str("a".to_string()), DbusValue::U32(3)]);
    match value_to_json(&st) {
        JsonValue::Array(items) => {
            assert!(is_s(&items[0], "a"));
            assert!(is_u(&items[1], 3));
        }
        _ => panic!("structure becomes an array"),
    }
}

#[test]
fn dict_keys_to_json() {
    let d = DbusValue::Dict {
        signature: "a{iv}".to_string(),
        entries: vec![
            (DbusValue::I32(-4), DbusValue::Str("neg".to_string())),
            (DbusValue::Bool(true), DbusValue::U8(1)),
            (DbusValue::Str("k".to_string()), DbusValue::U8(2)),
            (DbusValue::Str("k".to_string()), DbusValue::U8(3)),
        ],
    };
    let j = value_to_json(&d);
    match &j {
        JsonValue::Object(entries) => assert_eq!(entries.len(), 3),
        _ => panic!("dict becomes an object"),
    }
    assert!(is_s(object_get(&j, "-4").unwrap(), "neg"));
    assert!(is_u(object_get(&j, "true").unwrap(), 1));
    // a later entry with the same key wins
    assert!(is_u(object_get(&j, "k").unwrap(), 3));
}

#[test]
fn replies_and_signal_args() {
    assert!(matches!(reply_to_json(&DecodedBody::Undecodable), JsonValue::Null));
    assert!(matches!(reply_to_json(&DecodedBody::Many(vec![])), JsonValue::Null));
    assert!(is_u(&reply_to_json(&DecodedBody::Many(vec![DbusValue::U32(9)])), 9));
    assert!(is_s(&reply_to_json(&DecodedBody::Single(DbusValue::Str("r".to_string()))), "r"));
    match reply_to_json(&DecodedBody::Many(vec![DbusValue::U32(1), DbusValue::U32(2)])) {
        JsonValue::Array(items) => assert_eq!(items.len(), 2),
        _ => panic!("several values become an array"),
    }
    assert_eq!(signal_args_json(&DecodedBody::Undecodable).len(), 0);
    let one = signal_args_json(&DecodedBody::Single(DbusValue::U8(4)));
    assert_eq!(one.len(), 1);
    assert!(is_u(&one[0], 4));
    let many = signal_args_json(&DecodedBody::Many(vec![DbusValue::U8(4), DbusValue::Bool(false)]));
    assert_eq!(many.len(), 2);
}

#[test]
fn properties_object() {
    let props = vec![
        ("Name".to_string(), DbusValue::Str("n".to_string())),
        ("Count".to_string(), DbusValue::U32(2)),
    ];
    let j = properties_to_json(&props);
    assert!(is_s(object_get(&j, "Name").unwrap(), "n"));
    assert!(is_u(object_get(&j, "Count").unwrap(), 2));
}

// ─── JSON to D-Bus ───────────────────────────────────────────────────────────

#[test]
fn hinted_scalars() {
    assert!(matches!(json_to_value(&num_u(300), Some("y")), Ok(DbusValue::U8(44))));
    assert!(matches!(json_to_value(&num_i(-1), Some("n")), Ok(DbusValue::I16(-1))));
    assert!(matches!(json_to_value(&num_u(70000), Some("q")), Ok(DbusValue::U16(4464))));
    assert!(matches!(json_to_value(&num_u(5), Some("i")), Ok(DbusValue::I32(5))));
    assert!(matches!(json_to_value(&num_u(5), Some("u")), Ok(DbusValue::U32(5))));
    assert!(matches!(json_to_value(&num_i(-9), Some("x")), Ok(DbusValue::I64(-9))));
    assert!(matches!(json_to_value(&num_u(9), Some("t")), Ok(DbusValue::U64(9))));
    assert!(matches!(json_to_value(&JsonValue::Bool(false), Some("b")), Ok(DbusValue::Bool(false))));
    assert!(matches!(
        json_to_value(&num_u(3), Some("d")),
        Ok(DbusValue::Double(Float64::FromInteger(3)))
    ));
}

#[test]
fn hinted_type_errors() {
    let e = json_to_value(&s("x"), Some("y")).err().unwrap();
    assert!(matches!(e, ConversionError::Expected(Expected::U8)));
    assert_eq!(e.message(), "expected u8");
    let e = json_to_value(&num_i(-1), Some("t")).err().unwrap();
    assert_eq!(e.message(), "expected u64");
    let e = json_to_value(&num_u(1), Some("b")).err().unwrap();
    assert_eq!(e.message(), "expected bool");
    let e = json_to_value(&num_u(1), Some("o")).err().unwrap();
    assert_eq!(e.message(), "expected object path string");
    let e = json_to_value(&JsonValue::Null, Some("g")).err().unwrap();
    assert_eq!(e.message(), "expected signature string");
}

#[test]
fn object_path_hint() {
    match json_to_value(&s("/org/a11y/bus"), Some("o")) {
        Ok(DbusValue::ObjectPath(p)) => assert_eq!(p, "/org/a11y/bus"),
        _ => panic!("valid object path"),
    }
    assert!(matches!(json_to_value(&s("/"), Some("o")), Ok(DbusValue::ObjectPath(_))));
    for bad in ["", "a/b", "/a/", "//", "/a//b", "/a-b"] {
        let e = json_to_value(&s(bad), Some("o")).err().unwrap();
        assert!(matches!(e, ConversionError::InvalidObjectPath));
        assert_eq!(e.message(), "Invalid object path");
    }
}

#[test]
fn signature_hint() {
    match json_to_value(&s("a{sv}"), Some("g")) {
        Ok(DbusValue::Signature(t)) => assert_eq!(t, "a{sv}"),
        _ => panic!("valid signature"),
    }
    match json_to_value(&s("ii"), Some("g")) {
        Ok(DbusValue::Signature(t)) => assert_eq!(t, "(ii)"),
        _ => panic!("several types parse as one structure"),
    }
    let e = json_to_value(&s("a{"), Some("g")).err().unwrap();
    assert_eq!(e.message(), "invalid signature 'a{': InvalidSignature");
}

#[test]
fn variant_hint() {
    match json_to_value(&num_u(5), Some("v")) {
        Ok(DbusValue::Variant(inner)) => assert!(matches!(*inner, DbusValue::I32(5))),
        _ => panic!("variant expected"),
    }
}

#[test]
fn array_hints() {
    match json_to_value(&JsonValue::Array(vec![]), Some("ai")) {
        Ok(DbusValue::Array { signature, items }) => {
            assert_eq!(signature, "ai");
            assert!(items.is_empty());
        }
        _ => panic!("empty array converts"),
    }
    match json_to_value(&JsonValue::Array(vec![num_u(1), num_u(2)]), Some("au")) {
        Ok(DbusValue::Array { signature, items }) => {
            assert_eq!(signature, "au");
            assert!(matches!(items[..], [DbusValue::U32(1), DbusValue::U32(2)]));
        }
        _ => panic!("an array of u32 converts"),
    }
    match json_to_value(&JsonValue::Array(vec![JsonValue::Array(vec![s("x")])]), Some("aas")) {
        Ok(DbusValue::Array { signature, items }) => {
            assert_eq!(signature, "aas");
            assert!(matches!(&items[0], DbusValue::Array { signature, .. } if signature == "as"));
        }
        _ => panic!("nested arrays convert"),
    }
    assert!(json_to_value(&s("x"), Some("au")).is_err());
    let e = json_to_value(&JsonValue::Array(vec![s("x")]), Some("au")).err().unwrap();
    assert_eq!(e.message(), "expected u32");
    let e = json_to_value(&num_u(1), Some("ai")).err().unwrap();
    assert_eq!(e.message(), "expected array for sig 'ai'");
    let e = json_to_value(&JsonValue::Array(vec![]), Some("a{")).err().unwrap();
    assert_eq!(e.message(), "invalid array sig 'a{': InvalidSignature");
    assert!(json_to_value(&JsonValue::Array(vec![num_u(1)]), Some("av")).is_ok());
    // An item inferred as another type than the element signature is refused.
    let e = json_to_value(&JsonValue::Array(vec![num_u(1)]), Some("as")).err().unwrap();
    assert!(matches!(e, ConversionError::SignatureMismatch { .. }));
    assert_eq!(e.message(), "Signature mismatch: got `i`, expected s");
}

#[test]
fn inferred_values() {
    assert!(matches!(json_to_value(&num_u(5), None), Ok(DbusValue::I32(5))));
    assert!(matches!(json_to_value(&num_i(-5), None), Ok(DbusValue::I32(-5))));
    assert!(matches!(json_to_value(&num_u(1 << 40), None), Ok(DbusValue::I64(_))));
    assert!(matches!(json_to_value(&num_u(u64::MAX), None), Ok(DbusValue::U64(u64::MAX))));
    assert!(matches!(json_to_value(&s("x"), Some("s")), Ok(DbusValue::Str(_))));
    assert!(matches!(json_to_value(&s("x"), Some("zz")), Ok(DbusValue::Str(_))));
    assert!(matches!(json_to_value(&s("x"), Some("a")), Ok(DbusValue::Str(_))));
    assert!(matches!(json_to_value(&JsonValue::Null, None), Ok(DbusValue::Str(t)) if t == "null"));
    let f = JsonValue::Number(JsonNumber::Float(Float64::Bits { bits: 2.5f64.to_bits(), text: "2.5".to_string() }));
    assert!(matches!(json_to_value(&f, None), Ok(DbusValue::Double(Float64::Bits { .. }))));
}

#[test]
fn call_bodies() {
    match json_args_to_body(&[], None) {
        Ok(DbusValue::Structure(fields)) => assert!(fields.is_empty()),
        _ => panic!("no arguments make the empty body"),
    }
    assert!(matches!(json_args_to_body(&[num_u(1)], Some(&["u"])), Ok(DbusValue::U32(1))));
    match json_args_to_body(&[num_u(1), s("x")], Some(&["t"])) {
        Ok(DbusValue::Structure(fields)) => {
            assert_eq!(fields.len(), 2);
            assert!(matches!(fields[0], DbusValue::U64(1)));
            assert!(matches!(fields[1], DbusValue::Str(_)));
        }
        _ => panic!("several arguments make a structure"),
    }
    let e = json_args_to_body(&[num_u(1), s("x")], Some(&["u", "u"])).err().unwrap();
    assert_eq!(e.message(), "expected u32");
    assert!(matches!(method_call_body(&[], None), Ok(None)));
    assert!(matches!(method_call_body(&[num_u(2)], None), Ok(Some(DbusValue::I32(2)))));
}

// ─── Hinted round trips ─────────────────────────────────────────────────────

#[test]
fn hinted_integers_come_back_as_the_same_json() {
    for (hint, j) in [
        ("y", num_u(255)),
        ("n", num_i(-32768)),
        ("n", num_u(32767)),
        ("q", num_u(65535)),
        ("i", num_i(-2147483648)),
        ("u", num_u(4294967295)),
        ("x", num_i(i64::MIN)),
        ("x", num_u(i64::MAX as u64)),
        ("t", num_u(u64::MAX)),
    ] {
        let v = json_to_value(&j, Some(hint)).ok().unwrap();
        let back = value_to_json(&v);
        match (&j, &back) {
            (JsonValue::Number(JsonNumber::PosInt(a)), JsonValue::Number(JsonNumber::PosInt(b))) => assert_eq!(a, b),
            (JsonValue::Number(JsonNumber::NegInt(a)), JsonValue::Number(JsonNumber::NegInt(b))) => assert_eq!(a, b),
            _ => panic!("hint {hint} changed the JSON kind"),
        }
    }
}

#[test]
fn hinted_bool_and_path_come_back_as_the_same_json() {
    let v = json_to_value(&JsonValue::Bool(true), Some("b")).ok().unwrap();
    assert!(matches!(value_to_json(&v), JsonValue::Bool(true)));
    let v = json_to_value(&s("/org/a11y/atspi"), Some("o")).ok().unwrap();
    assert!(is_s(&value_to_json(&v), "/org/a11y/atspi"));
    let v = json_to_value(&s("a{sv}"), Some("g")).ok().unwrap();
    assert!(is_s(&value_to_json(&v), "a{sv}"));
}

#[test]
fn out_of_range_hinted_integer_does_not_come_back() {
    let v = json_to_value(&num_u(256), Some("y")).ok().unwrap();
    assert!(is_u(&value_to_json(&v), 0));
}

#[test]
fn unhinted_containers_become_their_json_text() {
    let f = JsonValue::Number(JsonNumber::Float(Float64::Bits { bits: 1.5f64.to_bits(), text: "1.5".to_string() }));
    let arr = JsonValue::Array(vec![num_u(1), num_i(-2), f, s("a\"b"), JsonValue::Bool(true)]);
    assert!(matches!(json_to_value(&arr, None), Ok(DbusValue::Str(t)) if t == r#"[1,-2,1.5,"a\"b",true]"#));
    let obj = JsonValue::Object(vec![("k".to_string(), JsonValue::Null)]);
    assert!(matches!(json_to_value(&obj, None), Ok(DbusValue::Str(t)) if t == r#"{"k":null}"#));
    assert!(matches!(json_to_value(&obj, Some("(ii)")), Ok(DbusValue::Str(t)) if t == r#"{"k":null}"#));
}
