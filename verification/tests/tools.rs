use desktopmcp::atspi::{
    descends, has_focus, matches_search, parent_id, relation_entries, ElementId, ElementInfo,
    ObjectRef, RelationRecord,
};
use desktopmcp::bus_names::{bus_name_before, list_bus_names, merge_bus_names, order_bus_names};
use desktopmcp::input::{
    click_message, key_action_states, key_message, text_keysyms, typed_message, KeyAction,
    KeyState, MouseButton,
};
use desktopmcp::pixels::{
    encoding_name, image_encoding, pixel_layout, retry_capture, to_rgba, ImageEncoding, PixelLayout,
};
use desktopmcp::portal::{
    accuracy_level, base64_encode, clipboard_access, color_scheme_name, hex_color,
    memory_warning_message, parse_inhibit_flags, priority_named, resolve_icon_source, Accuracy,
    IconSource, Priority,
};
use desktopmcp::records::{encode_match_rule, MatchRule};
use desktopmcp::registry::Registry;
use desktopmcp::session::{select_device_types, session_stopped_message, DeviceType, SessionManager};
use desktopmcp::ui::{
    action_message, app_selected, is_window_role, no_element_message, no_text_field_message,
    search_full, search_step, search_visits, typed_chars_message, ui_tree_depth, wait_step,
    SEARCH_DEPTH,
};

fn strings(v: &[&str]) -> Vec<String> {
    v.iter().map(|s| s.to_string()).collect()
}

fn info(name: &str, role: &str, states: &[&str]) -> ElementInfo {
    ElementInfo {
        id: ElementId::new(":1.1", "/e"),
        name: name.to_string(),
        role: role.to_string(),
        role_id: 0,
        description: String::new(),
        states: strings(states),
        interfaces: vec![],
        position: None,
        size: None,
        index_in_parent: 0,
        child_count: 0,
    }
}

// ─── Tree walking ────────────────────────────────────────────────────────────

#[test]
fn search_hits() {
    let e = info("Save File", "push button", &[]);
    assert!(matches_search(&e, Some("BUTTON"), None));
    assert!(matches_search(&e, Some("button"), Some("save")));
    assert!(!matches_search(&e, Some("button"), Some("open")));
    assert!(!matches_search(&e, None, None));
    assert!(has_focus(&info("x", "y", &["enabled", "focused"])));
    assert!(!has_focus(&info("x", "y", &["enabled"])));
    assert!(descends(2, 2));
    assert!(!descends(2, 1));
    assert!(!descends(0, 5));
}

#[test]
fn parents() {
    let p = Some(ObjectRef { bus_name: ":1.3".to_string(), path: "/p".to_string() });
    assert_eq!(parent_id(":1.3", "/c", &p).unwrap().as_str(), ":1.3:/p");
    assert!(parent_id(":1.3", "/p", &p).is_none());
    let null = Some(ObjectRef { bus_name: ":1.3".to_string(), path: "/org/a11y/atspi/null".to_string() });
    assert!(parent_id(":1.3", "/c", &null).is_none());
    assert!(parent_id(":1.3", "/c", &None).is_none());
}

#[test]
fn relations() {
    let recs = vec![RelationRecord {
        relation_type: 1,
        targets: vec![ObjectRef { bus_name: ":1.4".to_string(), path: "/t".to_string() }],
    }];
    let es = relation_entries(&recs);
    assert_eq!(es.len(), 1);
    assert_eq!(es[0].relation_type_name, "label-for");
    assert_eq!(es[0].targets[0].as_str(), ":1.4:/t");
}

#[test]
fn match_rule_encoding() {
    let rule = MatchRule {
        states: vec![],
        states_match_type: 1,
        attributes: vec![("k".to_string(), "v".to_string())],
        attributes_match_type: 0,
        roles: vec![43],
        roles_match_type: 0,
        interfaces: strings(&["org.a11y.atspi.Action"]),
        interfaces_match_type: 0,
        invert: false,
    };
    let e = encode_match_rule(&rule);
    assert_eq!(e.0, vec![0u32, 0u32]);
    assert_eq!(e.1, 1);
    assert_eq!(e.2, vec![("k".to_string(), "v".to_string())]);
    assert_eq!(e.4, vec![43]);
    assert_eq!(e.6, strings(&["org.a11y.atspi.Action"]));
    let rule2 = MatchRule { states: vec![3, 4], ..rule };
    assert_eq!(encode_match_rule(&rule2).0, vec![3u32, 4u32]);
}

// ─── UI tools ────────────────────────────────────────────────────────────────

#[test]
fn ui_decisions() {
    assert!(app_selected("Firefox", Some("fire")));
    assert!(!app_selected("Firefox", Some("gedit")));
    assert!(app_selected("anything", None));
    assert!(is_window_role("frame"));
    assert!(is_window_role("dialog"));
    assert!(!is_window_role("push button"));
    assert_eq!(ui_tree_depth(3), 3);
    assert_eq!(ui_tree_depth(10), 6);
}

#[test]
fn ui_messages() {
    assert_eq!(
        no_element_message(Some("button"), None, Some("gedit")),
        "No element found with role=Some(\"button\") name=None app=Some(\"gedit\")"
    );
    assert_eq!(no_text_field_message(None), "No text field found with name=None");
    assert_eq!(action_message("click"), "Action 'click' performed");
    assert_eq!(typed_chars_message("héllo"), "Typed 6 chars");
}

#[test]
fn waiting() {
    let found = wait_step(Some(info("a", "b", &[])), 120, false, 5000, None, None).unwrap();
    assert!(found.found);
    assert_eq!(found.waited_ms, 120);
    assert_eq!(found.message, "Element found");
    assert!(wait_step(None, 120, false, 5000, None, None).is_none());
    let gave_up = wait_step(None, 5003, true, 5000, Some("button"), None).unwrap();
    assert!(!gave_up.found);
    assert_eq!(gave_up.waited_ms, 5000);
    assert_eq!(gave_up.message, "Element not found after 5000ms (role=Some(\"button\") name=None)");
}

// ─── Bus names ───────────────────────────────────────────────────────────────

#[test]
fn bus_name_order() {
    assert!(bus_name_before("org.b", ":1.1"));
    assert!(!bus_name_before(":1.1", "org.b"));
    assert!(bus_name_before("org.a", "org.b"));
    assert!(bus_name_before(":1.10", ":1.2"));
    let v = order_bus_names(&strings(&[":1.2", "org.z", ":1.10", "com.a", "org.z"]));
    assert_eq!(v, strings(&["com.a", "org.z", "org.z", ":1.10", ":1.2"]));
}

#[test]
fn bus_name_listing() {
    let running = strings(&[":1.0", "org.freedesktop.DBus"]);
    let activatable = strings(&["org.freedesktop.DBus", "org.a.Service"]);
    assert_eq!(
        merge_bus_names(&running, &activatable),
        strings(&[":1.0", "org.freedesktop.DBus", "org.a.Service"])
    );
    assert_eq!(
        list_bus_names(&running, Some(&activatable)),
        strings(&["org.a.Service", "org.freedesktop.DBus", ":1.0"])
    );
    assert_eq!(list_bus_names(&running, None), strings(&["org.freedesktop.DBus", ":1.0"]));
}

// ─── Screenshots ─────────────────────────────────────────────────────────────

#[test]
fn pixel_conversion() {
    let data = vec![1u8, 2, 3, 4, 5, 6, 7, 8, 9];
    assert!(matches!(pixel_layout("bgra"), Some(PixelLayout::Bgra)));
    assert!(matches!(pixel_layout("BGRx"), Some(PixelLayout::Bgrx)));
    assert!(matches!(pixel_layout("rgbx"), Some(PixelLayout::Rgba)));
    assert!(pixel_layout("yuv").is_none());
    assert_eq!(to_rgba(&PixelLayout::Bgra, &data), vec![3, 2, 1, 4, 7, 6, 5, 8]);
    assert_eq!(to_rgba(&PixelLayout::Bgrx, &data), vec![3, 2, 1, 255, 7, 6, 5, 255]);
    assert_eq!(to_rgba(&PixelLayout::Rgba, &data), data);
}

#[test]
fn image_encodings() {
    assert!(matches!(image_encoding("PNG"), Some(ImageEncoding::Png)));
    assert!(matches!(image_encoding("jpg"), Some(ImageEncoding::Jpeg)));
    assert!(image_encoding("gif").is_none());
    assert_eq!(encoding_name(&ImageEncoding::Jpeg), "jpeg");
    assert!(retry_capture("No frame available yet", 3));
    assert!(!retry_capture("No frame available yet", 8));
    assert!(!retry_capture("stream broken", 1));
}

// ─── Portals ─────────────────────────────────────────────────────────────────

#[test]
fn icon_sources() {
    assert!(matches!(resolve_icon_source(Some("/i.png"), None), Ok(IconSource::File(p)) if p == "/i.png"));
    match resolve_icon_source(None, Some("aGk=")) {
        Ok(IconSource::Inline(b)) => assert_eq!(b, b"hi".to_vec()),
        _ => panic!("inline icon"),
    }
    let e = resolve_icon_source(None, Some("a")).err().unwrap();
    assert!(e.starts_with("Invalid base64 icon data: "));
    assert_eq!(
        resolve_icon_source(Some("/i"), Some("aGk=")).err().unwrap(),
        "Provide either icon_path or icon_base64, not both"
    );
    assert_eq!(
        resolve_icon_source(None, None).err().unwrap(),
        "Either icon_path or icon_base64 is required"
    );
    assert_eq!(base64_encode(b"hi"), "aGk=");
}

#[test]
fn portal_options() {
    let f = parse_inhibit_flags(&strings(&["idle", "bogus", "logout"])).ok().unwrap();
    assert!(f.idle && f.logout && !f.suspend && !f.user_switch);
    assert_eq!(
        parse_inhibit_flags(&strings(&["bogus"])).err().unwrap(),
        "No valid inhibit flags provided"
    );
    assert_eq!(accuracy_level(None), Accuracy::Exact);
    assert_eq!(accuracy_level(Some("city")), Accuracy::City);
    assert_eq!(accuracy_level(Some("none")), Accuracy::NoAccuracy);
    assert_eq!(accuracy_level(Some("galaxy")), Accuracy::Exact);
    assert_eq!(priority_named("urgent"), Priority::Urgent);
    assert_eq!(priority_named("meh"), Priority::Normal);
}

#[test]
fn portal_texts() {
    assert_eq!(color_scheme_name(1), "dark");
    assert_eq!(color_scheme_name(2), "light");
    assert_eq!(color_scheme_name(7), "default");
    assert_eq!(hex_color(255, 0, 171), "#ff00ab");
    assert_eq!(memory_warning_message(Some(3)), "Low memory warning: level=3");
    assert_eq!(memory_warning_message(None), "No pending memory warnings");
    assert!(clipboard_access(true).is_ok());
    assert_eq!(
        clipboard_access(false).err().unwrap(),
        "Clipboard not enabled for this session. Start a session with with_clipboard=true"
    );
}

// ─── Sessions, registry, input ───────────────────────────────────────────────

#[test]
fn sessions() {
    let mut m: SessionManager<u32> = SessionManager::new();
    let id = m.create_session(7);
    assert_eq!(*m.with_session(&id).ok().unwrap(), 7);
    assert_eq!(m.list_sessions(), vec![id.clone()]);
    assert_eq!(m.remove_session(&id).ok().unwrap(), 7);
    assert!(m.remove_session(&id).is_err());
    assert_eq!(session_stopped_message("abc"), "Session abc stopped");
    assert_eq!(
        select_device_types(&strings(&["pointer", "x", "keyboard"])).ok().unwrap(),
        vec![DeviceType::Pointer, DeviceType::Keyboard]
    );
    assert_eq!(
        select_device_types(&strings(&["x"])).err().unwrap().message(),
        "At least one device type must be specified"
    );
}

#[test]
fn registry_insert_and_remove() {
    let mut r: Registry<u8> = Registry::new();
    r.insert("a".to_string(), 1);
    r.insert("b".to_string(), 2);
    r.insert("a".to_string(), 3);
    assert_eq!(r.len(), 2);
    assert_eq!(*r.get("a").unwrap(), 3);
    assert_eq!(r.ids(), strings(&["a", "b"]));
    assert_eq!(r.remove("a").ok().unwrap(), 3);
    assert!(!r.contains("a"));
    assert_eq!(r.remove("a").err().unwrap().message("missing: "), "missing: a");
}

#[test]
fn input_messages() {
    assert_eq!(MouseButton::Right.to_button_code(), 0x111);
    assert_eq!(click_message(MouseButton::Left), "Clicked Left button");
    assert_eq!(key_message(28, KeyAction::Tap), "Key 28 tapped");
    assert_eq!(key_action_states(KeyAction::Tap), vec![KeyState::Pressed, KeyState::Released]);
    assert_eq!(text_keysyms("Az"), vec![0x41, 0x7a]);
    assert_eq!(typed_message("hi"), "Typed: hi");
}

#[test]
fn search_stops_at_the_cap_and_the_depth() {
    assert_eq!(SEARCH_DEPTH, 4);
    assert!(search_visits(0, 5, 4));
    assert!(!search_visits(5, 5, 4));
    assert!(!search_visits(0, 5, 0));
    assert!(search_full(5, 5));
    assert!(!search_full(4, 5));
    let step = search_step(3, 5, 2, true, 3);
    assert!(step.keep && step.descend);
    let step = search_step(4, 5, 2, true, 3);
    assert!(step.keep && !step.descend);
    let step = search_step(4, 5, 1, false, 3);
    assert!(!step.keep && !step.descend);
    let step = search_step(4, 5, 2, false, 0);
    assert!(!step.keep && !step.descend);
}

#[test]
fn base64_groups_and_padding() {
    assert_eq!(base64_encode(b""), "");
    assert_eq!(base64_encode(b"M"), "TQ==");
    assert_eq!(base64_encode(b"Ma"), "TWE=");
    assert_eq!(base64_encode(b"Man"), "TWFu");
    assert_eq!(base64_encode(&[251, 255, 191, 0, 16, 131]), "+/+/ABCD");
}
