use desktopmcp::atspi::{decode_states, layer_name, relation_type_name, role_name, ElementId, ObjectRef};

#[test]
fn element_id_new_and_parts() {
    let id = ElementId::new(":1.6", "/org/a11y/atspi/accessible/42");
    assert_eq!(id.as_str(), ":1.6:/org/a11y/atspi/accessible/42");
    let (bus, path) = id.parts().ok().unwrap();
    assert_eq!(bus, ":1.6");
    assert_eq!(path, "/org/a11y/atspi/accessible/42");
}

#[test]
fn element_id_well_known_bus() {
    let id = ElementId::new("org.a11y.Bus", "/org/a11y/bus");
    let (bus, path) = id.parts().ok().unwrap();
    assert_eq!(bus, "org.a11y.Bus");
    assert_eq!(path, "/org/a11y/bus");
}

#[test]
fn element_id_without_separator_is_rejected() {
    let id = ElementId("no-separator-here".to_string());
    let err = id.parts().err().unwrap();
    assert_eq!(err.message(), "Invalid ElementId (no ':/' separator): no-separator-here");
}

#[test]
fn object_ref_null_detection() {
    let null = ObjectRef { bus_name: ":1.2".to_string(), path: "/org/a11y/atspi/null".to_string() };
    assert!(null.is_null());
    let empty_bus = ObjectRef { bus_name: String::new(), path: "/x".to_string() };
    assert!(empty_bus.is_null());
    let real = ObjectRef { bus_name: ":1.2".to_string(), path: "/x".to_string() };
    assert!(!real.is_null());
    assert_eq!(real.to_element_id().as_str(), ":1.2:/x");
}

#[test]
fn role_names() {
    assert_eq!(role_name(0), "invalid");
    assert_eq!(role_name(43), "push button");
    assert_eq!(role_name(128), "suggestion");
    assert_eq!(role_name(129), "role-129");
    assert_eq!(role_name(4000000000), "role-4000000000");
}

#[test]
fn state_decoding() {
    // enabled (8), focusable (11), visible (30); word 1: read-only (42)
    let words = [(1u32 << 8) | (1 << 11) | (1 << 30), 1u32 << 10];
    assert_eq!(decode_states(&words), vec!["enabled", "focusable", "visible", "read-only"]);
    assert_eq!(decode_states(&[0, 1u32 << 31]), vec!["state-63"]);
    assert!(decode_states(&[]).is_empty());
}

#[test]
fn relation_and_layer_names() {
    assert_eq!(relation_type_name(1), "label-for");
    assert_eq!(relation_type_name(22), "error-for");
    assert_eq!(relation_type_name(23), "unknown");
    assert_eq!(layer_name(3), "widget");
    assert_eq!(layer_name(0), "invalid");
    assert_eq!(layer_name(8), "invalid");
}

fn is_subsequence(small: &[String], big: &[String]) -> bool {
    let mut it = big.iter();
    small.iter().all(|s| it.any(|b| b == s))
}

#[test]
fn fewer_state_bits_decode_to_a_subsequence() {
    let a = [(1u32 << 8) | (1 << 30), 1 << 10];
    let b = [(1u32 << 8) | (1 << 11) | (1 << 30), (1 << 10) | (1 << 8)];
    let da = decode_states(&a);
    let db = decode_states(&b);
    assert_eq!(da, vec!["enabled", "visible", "read-only"]);
    assert_eq!(db, vec!["enabled", "focusable", "visible", "checkable", "read-only"]);
    assert!(is_subsequence(&da, &db));
}

#[test]
fn distinct_roles_have_distinct_names() {
    let names: std::collections::HashSet<String> = (0u32..400).map(role_name).collect();
    assert_eq!(names.len(), 400);
    assert_ne!(role_name(128), role_name(129));
    assert_eq!(role_name(129), "role-129");
}

#[test]
fn element_id_splits_at_the_last_separator() {
    let id = ElementId("a:/b:/c".to_string());
    let (bus, path) = id.parts().ok().unwrap();
    assert_eq!(bus, "a:/b");
    assert_eq!(path, "/c");
}
