use desktopmcp::atspi_args::{indexed_action_text, named_action_text, reads_whole_text, sort_order_code};
use desktopmcp::portal::{
    available_device_types, clipboard_offer_mime_types, clipboard_serves_more, clipboard_set_message,
    clipboard_text_mime_types, confirmed_icon_info, discrete_scroll_message, filter_pattern_kind, icon_info,
    launcher_kind, launcher_type_names, print_outcome, screencast_capabilities, scroll_axis, settings_namespaces,
    touch_kind, IconKind, LauncherKind, PatternKind, TouchKind, CLIPBOARD_MAX_TRANSFERS,
};

#[test]
fn launcher_icons() {
    let info = icon_info(b"hi", IconKind::Svg, 48);
    assert_eq!(info.data_base64, "aGk=");
    assert_eq!(info.format, "svg");
    assert_eq!(info.size, 48);
    assert_eq!(icon_info(&[], IconKind::Jpeg, 0).format, "jpeg");
    let confirmed = confirmed_icon_info(&[0xff, 0x00]);
    assert_eq!(confirmed.data_base64, "/wA=");
    assert_eq!(confirmed.format, "png");
    assert_eq!(confirmed.size, 0);
}

#[test]
fn launcher_kinds() {
    assert_eq!(launcher_kind("web_application"), LauncherKind::WebApplication);
    assert_eq!(launcher_kind("application"), LauncherKind::Application);
    assert_eq!(launcher_kind("Web_Application"), LauncherKind::Application);
    assert_eq!(launcher_type_names(true, true), vec!["application", "web_application"]);
    assert_eq!(launcher_type_names(false, true), vec!["web_application"]);
    assert_eq!(launcher_type_names(true, false), vec!["application"]);
    assert!(launcher_type_names(false, false).is_empty());
}

#[test]
fn file_filter_patterns() {
    assert_eq!(filter_pattern_kind("image/png"), PatternKind::MimeType);
    assert_eq!(filter_pattern_kind("*.png"), PatternKind::Glob);
    assert_eq!(filter_pattern_kind(""), PatternKind::Glob);
    assert_eq!(filter_pattern_kind("/"), PatternKind::MimeType);
}

#[test]
fn clipboard_texts() {
    assert_eq!(
        clipboard_text_mime_types(),
        vec!["text/plain;charset=utf-8", "text/plain", "UTF8_STRING", "STRING"]
    );
    assert_eq!(clipboard_offer_mime_types(), vec!["text/plain;charset=utf-8", "text/plain"]);
    assert!(clipboard_serves_more(0));
    assert!(clipboard_serves_more(CLIPBOARD_MAX_TRANSFERS - 1));
    assert!(!clipboard_serves_more(CLIPBOARD_MAX_TRANSFERS));
    assert_eq!(CLIPBOARD_MAX_TRANSFERS, 10);
    assert_eq!(clipboard_set_message("héllo"), "Clipboard set to 6 chars");
    assert_eq!(clipboard_set_message(""), "Clipboard set to 0 chars");
}

#[test]
fn capability_flags() {
    let d = available_device_types(5);
    assert_eq!(d.bitmask, 5);
    assert!(d.keyboard && !d.pointer && d.touchscreen);
    let none = available_device_types(0);
    assert!(!none.keyboard && !none.pointer && !none.touchscreen);
    let c = screencast_capabilities(6, 1);
    assert_eq!((c.available_cursor_modes, c.available_source_types), (6, 1));
    assert!(!c.cursor_mode_hidden && c.cursor_mode_embedded && c.cursor_mode_metadata);
    assert!(c.source_monitor && !c.source_window && !c.source_virtual);
}

#[test]
fn discrete_scrolls_and_touches() {
    assert_eq!(scroll_axis("horizontal"), 1);
    assert_eq!(scroll_axis("vertical"), 0);
    assert_eq!(scroll_axis("diagonal"), 0);
    assert_eq!(discrete_scroll_message("vertical", -3), "Scroll discrete: axis=vertical steps=-3");
    assert_eq!(touch_kind("down"), TouchKind::Down);
    assert_eq!(touch_kind("motion"), TouchKind::Motion);
    assert_eq!(touch_kind("up"), TouchKind::Up);
    assert_eq!(touch_kind("lift"), TouchKind::Up);
}

#[test]
fn printing_and_settings() {
    let done = print_outcome(true);
    assert!(done.success);
    assert_eq!(done.message, "Print job submitted");
    let cancelled = print_outcome(false);
    assert!(!cancelled.success);
    assert_eq!(cancelled.message, "Print cancelled");
    assert_eq!(settings_namespaces(&vec![]), vec!["org.freedesktop.appearance"]);
    let given = vec!["org.gnome.desktop.interface".to_string(), "x".to_string()];
    assert_eq!(settings_namespaces(&given), given);
}

#[test]
fn tool_argument_texts() {
    assert!(reads_whole_text(0, -1));
    assert!(!reads_whole_text(0, 5));
    assert!(!reads_whole_text(1, -1));
    assert_eq!(sort_order_code("reverse"), 4);
    assert_eq!(sort_order_code("canonical"), 1);
    assert_eq!(sort_order_code("other"), 1);
    assert_eq!(named_action_text("click", 2), "click (index 2)");
    assert_eq!(indexed_action_text(-1), "index -1");
    assert_eq!(indexed_action_text(0), "index 0");
}

#[test]
fn fresh_identifiers_are_uuid_v4() {
    let mut sessions: desktopmcp::session::SessionManager<u8> = desktopmcp::session::SessionManager::new();
    let a = sessions.create_session(1);
    let b = sessions.create_session(2);
    for id in [&a, &b] {
        let cs: Vec<char> = id.chars().collect();
        assert_eq!(cs.len(), 36);
        for (i, c) in cs.iter().enumerate() {
            if [8, 13, 18, 23].contains(&i) {
                assert_eq!(*c, '-');
            } else {
                assert!(c.is_ascii_hexdigit() && !c.is_ascii_uppercase(), "{id}");
            }
        }
        assert_eq!(cs[14], '4');
        assert!(['8', '9', 'a', 'b'].contains(&cs[19]));
    }
    assert_ne!(a, b);
}
