use desktopmcp::introspect::{join_child_path, parse_introspect_xml, ObjectWalk, WalkStep};

const XML: &str = r#"<node>
  <interface name="org.example.Demo">
    <method name="Add">
      <arg name="a" type="i" direction="in"/>
      <arg type="i"/>
      <arg name="sum" type="i" direction="out"/>
    </method>
    <method>
      <arg name="ignored" type="s"/>
    </method>
    <signal name="Changed">
      <arg name="value" type="v"/>
      <annotation name="x" value="y"/>
    </signal>
    <property name="Count" type="u" access="readwrite"/>
    <property name="Label" type="s"/>
  </interface>
  <interface>
    <method name="Hidden"/>
  </interface>
  <node name="child1"/>
  <node name="child2">
    <node name="grandchild"/>
  </node>
  <node/>
</node>"#;

#[test]
fn parse_interfaces() {
    let r = parse_introspect_xml("org.example", "/org/example", XML).ok().unwrap();
    assert_eq!(r.service, "org.example");
    assert_eq!(r.path, "/org/example");
    assert_eq!(r.interfaces.len(), 1);
    let i = &r.interfaces[0];
    assert_eq!(i.name, "org.example.Demo");
    assert_eq!(i.methods.len(), 1);
    let m = &i.methods[0];
    assert_eq!(m.name, "Add");
    assert_eq!(m.in_args.len(), 2);
    assert_eq!(m.in_args[0].name, "a");
    assert_eq!(m.in_args[1].name, "");
    assert_eq!(m.in_args[1].signature, "i");
    assert_eq!(m.out_args.len(), 1);
    assert_eq!(m.out_args[0].name, "sum");
    assert_eq!(i.signals.len(), 1);
    assert_eq!(i.signals[0].name, "Changed");
    assert_eq!(i.signals[0].args.len(), 1);
    assert_eq!(i.signals[0].args[0].signature, "v");
    assert_eq!(i.properties.len(), 2);
    assert_eq!(i.properties[0].access, "readwrite");
    assert_eq!(i.properties[1].name, "Label");
    assert_eq!(i.properties[1].access, "read");
}

#[test]
fn parse_child_nodes() {
    let r = parse_introspect_xml("svc", "/org/example", XML).ok().unwrap();
    assert_eq!(r.child_nodes, vec!["/org/example/child1", "/org/example/child2"]);
    let root = parse_introspect_xml("svc", "/", XML).ok().unwrap();
    assert_eq!(root.child_nodes, vec!["/child1", "/child2"]);
}

#[test]
fn parse_malformed_xml() {
    assert!(parse_introspect_xml("svc", "/", "<node><interface></node>").is_err());
    assert!(parse_introspect_xml("svc", "/", "").is_err());
}

#[test]
fn doctype_is_refused() {
    let xml = r#"<!DOCTYPE node PUBLIC "-//freedesktop//DTD D-BUS Object Introspection 1.0//EN"
 "http://www.freedesktop.org/standards/dbus/1.0/introspect.dtd">
<node><node name="a"/></node>"#;
    let e = parse_introspect_xml("svc", "/", xml).err().unwrap();
    assert!(e.contains("DTD"));
}

#[test]
fn empty_node() {
    let r = parse_introspect_xml("svc", "/x", "<node/>").ok().unwrap();
    assert!(r.interfaces.is_empty());
    assert!(r.child_nodes.is_empty());
}

#[test]
fn child_paths() {
    assert_eq!(join_child_path("/", "a"), "/a");
    assert_eq!(join_child_path("/org", "a"), "/org/a");
    assert_eq!(join_child_path("/org/", "a"), "/org/a");
}

#[test]
fn object_walk_order() {
    // tree: / -> [a, b]; /a -> [/a/c]; depth 1 stops below /a and /b
    let mut w = ObjectWalk::new("/", 2);
    match w.next() {
        WalkStep::Introspect { path, depth } => {
            assert_eq!(path, "/");
            assert_eq!(depth, 2);
            w.add_children(depth, &vec!["/a".to_string(), "/b".to_string()]);
        }
        _ => panic!("root is introspected"),
    }
    match w.next() {
        WalkStep::Introspect { path, depth } => {
            assert_eq!(path, "/a");
            assert_eq!(depth, 1);
            w.add_children(depth, &vec!["/a/c".to_string()]);
        }
        _ => panic!("first child comes next"),
    }
    assert!(matches!(w.next(), WalkStep::Recorded));
    match w.next() {
        WalkStep::Introspect { path, .. } => assert_eq!(path, "/b"),
        _ => panic!("second child"),
    }
    assert!(matches!(w.next(), WalkStep::Done));
    assert_eq!(w.into_paths(), vec!["/", "/a", "/a/c", "/b"]);
}

#[test]
fn object_walk_depth_zero() {
    let mut w = ObjectWalk::new("/x", 0);
    assert!(matches!(w.next(), WalkStep::Recorded));
    assert!(matches!(w.next(), WalkStep::Done));
    assert_eq!(w.into_paths(), vec!["/x"]);
}
