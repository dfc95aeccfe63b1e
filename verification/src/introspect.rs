//! D-Bus introspection: the structure an `Introspect` reply describes.
//!
//! The XML document is parsed by `roxmltree`; its nodes come back as a flat
//! list in document order, each with its depth, and everything else (which
//! children count, which attributes apply, which defaults hold) is read off
//! that list here.

use vstd::prelude::*;
use crate::text::{concat2, concat3, str_ends_with, str_eq};

verus! {

// ─── The parsed document ─────────────────────────────────────────────────────

/// A node of a parsed XML document.
pub struct XmlNode {
    /// Whether the node is an element (else text, a comment, …).
    pub element: bool,
    /// The number of the node's ancestors, the node itself included.
    pub depth: usize,
    /// The local name of an element; empty for other nodes.
    pub name: String,
    /// The element's attributes in document order: local name, value, and
    /// whether the name has a namespace.
    pub attributes: Vec<(String, String, bool)>,
}

/// The mathematical content of an XML node.
pub struct XmlNodeView {
    pub element: bool,
    pub depth: int,
    pub name: Seq<char>,
    pub attributes: Seq<(Seq<char>, Seq<char>, bool)>,
}

impl View for XmlNode {
    type V = XmlNodeView;

    open spec fn view(&self) -> XmlNodeView {
        XmlNodeView {
            element: self.element,
            depth: self.depth as int,
            name: self.name@,
            attributes: Seq::new(
                self.attributes@.len(),
                |i: int|
                    (
                        self.attributes@[i].0@,
                        self.attributes@[i].1@,
                        self.attributes@[i].2,
                    ),
            ),
        }
    }
}

/// The views of a list of XML nodes.
pub open spec fn node_views(ns: Seq<XmlNode>) -> Seq<XmlNodeView> {
    Seq::new(ns.len(), |i: int| ns[i]@)
}

/// The nodes `roxmltree::Document::parse` makes of a text, from the root
/// element down in document order, or the text of its error.
pub uninterp spec fn xml_nodes(xml: Seq<char>) -> Result<Seq<XmlNodeView>, Seq<char>>;

/// `roxmltree::Document::parse`, with the root element and its descendants
/// (`Node::descendants`, this node first, in document order) converted one by
/// one, and an error converted to its text. The result is named `xml_nodes`:
/// the XML grammar is left to the outside crate and not restated here.
#[verifier::external_body]
fn parse_xml(xml: &str) -> (r: Result<Vec<XmlNode>, String>)
    ensures
        match r {
            Ok(ns) => xml_nodes(xml@) == Ok::<Seq<XmlNodeView>, Seq<char>>(node_views(ns@)),
            Err(e) => xml_nodes(xml@) == Err::<Seq<XmlNodeView>, Seq<char>>(e@),
        },
{
    match roxmltree::Document::parse(xml) {
        Ok(doc) => Ok(doc.root_element().descendants().map(|n| XmlNode {
            element: n.is_element(),
            depth: n.ancestors().count(),
            name: n.tag_name().name().to_string(),
            attributes: n.attributes().map(
                |a| (a.name().to_string(), a.value().to_string(), a.namespace().is_some()),
            ).collect(),
        }).collect()),
        Err(e) => Err(e.to_string()),
    }
}

// ─── Reading the node list ───────────────────────────────────────────────────

/// The value of the first attribute named `key` without a namespace.
pub open spec fn attr_in(attrs: Seq<(Seq<char>, Seq<char>, bool)>, key: Seq<char>) -> Option<
    Seq<char>,
>
    decreases attrs.len(),
{
    if attrs.len() == 0 {
        None
    } else if !attrs[0].2 && attrs[0].0 == key {
        Some(attrs[0].1)
    } else {
        attr_in(attrs.subrange(1, attrs.len() as int), key)
    }
}

/// The value of a node's attribute `key`, where it has one.
pub open spec fn attr(n: XmlNodeView, key: Seq<char>) -> Option<Seq<char>> {
    attr_in(n.attributes, key)
}

/// The first index from `j` on that leaves the subtree of a node of depth `d`.
pub open spec fn end_from(ns: Seq<XmlNodeView>, d: int, j: int) -> int
    decreases ns.len() - j,
{
    if j >= ns.len() || ns[j].depth <= d {
        j
    } else {
        end_from(ns, d, j + 1)
    }
}

/// The element children of a node of depth `d` among the indices `[start, j)`.
pub open spec fn children_upto(ns: Seq<XmlNodeView>, d: int, start: int, j: int) -> Seq<int>
    decreases j - start,
{
    if j <= start {
        seq![]
    } else {
        let prev = children_upto(ns, d, start, j - 1);
        if ns[j - 1].element && ns[j - 1].depth == d + 1 {
            prev.push(j - 1)
        } else {
            prev
        }
    }
}

/// The element children of node `k`, in document order.
pub open spec fn children(ns: Seq<XmlNodeView>, k: int) -> Seq<int> {
    children_upto(ns, ns[k].depth, k + 1, end_from(ns, ns[k].depth, k + 1))
}

/// Whether node `c` is an element with the given tag and a `name` attribute.
pub open spec fn named_tag(ns: Seq<XmlNodeView>, c: int, tag: Seq<char>) -> bool {
    ns[c].name == tag && attr(ns[c], "name"@) is Some
}

// ─── The structure described ─────────────────────────────────────────────────

/// A method or signal argument.
pub struct ArgInfo {
    pub name: String,
    pub signature: String,
}

/// A method with its input and output arguments.
pub struct MethodInfo {
    pub name: String,
    pub in_args: Vec<ArgInfo>,
    pub out_args: Vec<ArgInfo>,
}

/// A signal with its arguments.
pub struct SignalInfo {
    pub name: String,
    pub args: Vec<ArgInfo>,
}

/// A property with its signature and access (`read`, `write`, `readwrite`).
pub struct PropertyInfo {
    pub name: String,
    pub signature: String,
    pub access: String,
}

/// An interface with its members.
pub struct InterfaceInfo {
    pub name: String,
    pub methods: Vec<MethodInfo>,
    pub signals: Vec<SignalInfo>,
    pub properties: Vec<PropertyInfo>,
}

/// What an introspected object offers: its interfaces and child object paths.
pub struct IntrospectResult {
    pub service: String,
    pub path: String,
    pub interfaces: Vec<InterfaceInfo>,
    pub child_nodes: Vec<String>,
}

/// The mathematical content of an argument.
pub struct ArgView {
    pub name: Seq<char>,
    pub signature: Seq<char>,
}

/// The mathematical content of a method.
pub struct MethodView {
    pub name: Seq<char>,
    pub in_args: Seq<ArgView>,
    pub out_args: Seq<ArgView>,
}

/// The mathematical content of a signal.
pub struct SignalView {
    pub name: Seq<char>,
    pub args: Seq<ArgView>,
}

/// The mathematical content of a property.
pub struct PropertyView {
    pub name: Seq<char>,
    pub signature: Seq<char>,
    pub access: Seq<char>,
}

/// The mathematical content of an interface.
pub struct InterfaceView {
    pub name: Seq<char>,
    pub methods: Seq<MethodView>,
    pub signals: Seq<SignalView>,
    pub properties: Seq<PropertyView>,
}

/// The mathematical content of an introspection result.
pub struct IntrospectView {
    pub service: Seq<char>,
    pub path: Seq<char>,
    pub interfaces: Seq<InterfaceView>,
    pub child_nodes: Seq<Seq<char>>,
}

impl View for ArgInfo {
    type V = ArgView;

    open spec fn view(&self) -> ArgView {
        ArgView { name: self.name@, signature: self.signature@ }
    }
}

/// The views of a list of arguments.
pub open spec fn arg_views(v: Seq<ArgInfo>) -> Seq<ArgView> {
    Seq::new(v.len(), |i: int| v[i]@)
}

impl View for MethodInfo {
    type V = MethodView;

    open spec fn view(&self) -> MethodView {
        MethodView {
            name: self.name@,
            in_args: arg_views(self.in_args@),
            out_args: arg_views(self.out_args@),
        }
    }
}

impl View for SignalInfo {
    type V = SignalView;

    open spec fn view(&self) -> SignalView {
        SignalView { name: self.name@, args: arg_views(self.args@) }
    }
}

impl View for PropertyInfo {
    type V = PropertyView;

    open spec fn view(&self) -> PropertyView {
        PropertyView { name: self.name@, signature: self.signature@, access: self.access@ }
    }
}

impl View for InterfaceInfo {
    type V = InterfaceView;

    open spec fn view(&self) -> InterfaceView {
        InterfaceView {
            name: self.name@,
            methods: Seq::new(self.methods@.len(), |i: int| self.methods@[i]@),
            signals: Seq::new(self.signals@.len(), |i: int| self.signals@[i]@),
            properties: Seq::new(self.properties@.len(), |i: int| self.properties@[i]@),
        }
    }
}

impl View for IntrospectResult {
    type V = IntrospectView;

    open spec fn view(&self) -> IntrospectView {
        IntrospectView {
            service: self.service@,
            path: self.path@,
            interfaces: Seq::new(self.interfaces@.len(), |i: int| self.interfaces@[i]@),
            child_nodes: Seq::new(self.child_nodes@.len(), |i: int| self.child_nodes@[i]@),
        }
    }
}

/// An attribute's value, or a default where it is absent.
pub open spec fn attr_or(n: XmlNodeView, key: Seq<char>, default: Seq<char>) -> Seq<char> {
    match attr(n, key) {
        Some(v) => v,
        None => default,
    }
}

/// An `arg` element: its `name` and `type`, empty where absent.
pub open spec fn arg_of(n: XmlNodeView) -> ArgView {
    ArgView { name: attr_or(n, "name"@, ""@), signature: attr_or(n, "type"@, ""@) }
}

/// Whether an argument goes out (its `direction` is `out`; `in` by default).
pub open spec fn is_out_arg(n: XmlNodeView) -> bool {
    attr_or(n, "direction"@, "in"@) == "out"@
}

/// The `arg` children among `cs`: all of them (`dir` None), or those going out
/// (`Some(true)`) or in (`Some(false)`).
pub open spec fn args_in(ns: Seq<XmlNodeView>, cs: Seq<int>, dir: Option<bool>) -> Seq<ArgView>
    decreases cs.len(),
{
    if cs.len() == 0 {
        seq![]
    } else {
        let prev = args_in(ns, cs.subrange(0, cs.len() - 1), dir);
        let c = cs[cs.len() - 1];
        if ns[c].name == "arg"@ && match dir {
            Some(out) => is_out_arg(ns[c]) == out,
            None => true,
        } {
            prev.push(arg_of(ns[c]))
        } else {
            prev
        }
    }
}

/// A `method` element with a name.
pub open spec fn method_of(ns: Seq<XmlNodeView>, k: int) -> MethodView {
    MethodView {
        name: attr_or(ns[k], "name"@, ""@),
        in_args: args_in(ns, children(ns, k), Some(false)),
        out_args: args_in(ns, children(ns, k), Some(true)),
    }
}

/// A `signal` element with a name.
pub open spec fn signal_of(ns: Seq<XmlNodeView>, k: int) -> SignalView {
    SignalView { name: attr_or(ns[k], "name"@, ""@), args: args_in(ns, children(ns, k), None) }
}

/// A `property` element with a name; access is `read` where absent.
pub open spec fn property_of(n: XmlNodeView) -> PropertyView {
    PropertyView {
        name: attr_or(n, "name"@, ""@),
        signature: attr_or(n, "type"@, ""@),
        access: attr_or(n, "access"@, "read"@),
    }
}

/// The named `method` children among `cs`.
pub open spec fn methods_in(ns: Seq<XmlNodeView>, cs: Seq<int>) -> Seq<MethodView>
    decreases cs.len(),
{
    if cs.len() == 0 {
        seq![]
    } else {
        let prev = methods_in(ns, cs.subrange(0, cs.len() - 1));
        let c = cs[cs.len() - 1];
        if named_tag(ns, c, "method"@) {
            prev.push(method_of(ns, c))
        } else {
            prev
        }
    }
}

/// The named `signal` children among `cs`.
pub open spec fn signals_in(ns: Seq<XmlNodeView>, cs: Seq<int>) -> Seq<SignalView>
    decreases cs.len(),
{
    if cs.len() == 0 {
        seq![]
    } else {
        let prev = signals_in(ns, cs.subrange(0, cs.len() - 1));
        let c = cs[cs.len() - 1];
        if named_tag(ns, c, "signal"@) {
            prev.push(signal_of(ns, c))
        } else {
            prev
        }
    }
}

/// The named `property` children among `cs`.
pub open spec fn properties_in(ns: Seq<XmlNodeView>, cs: Seq<int>) -> Seq<PropertyView>
    decreases cs.len(),
{
    if cs.len() == 0 {
        seq![]
    } else {
        let prev = properties_in(ns, cs.subrange(0, cs.len() - 1));
        let c = cs[cs.len() - 1];
        if named_tag(ns, c, "property"@) {
            prev.push(property_of(ns[c]))
        } else {
            prev
        }
    }
}

/// An `interface` element with a name.
pub open spec fn interface_of(ns: Seq<XmlNodeView>, k: int) -> InterfaceView {
    InterfaceView {
        name: attr_or(ns[k], "name"@, ""@),
        methods: methods_in(ns, children(ns, k)),
        signals: signals_in(ns, children(ns, k)),
        properties: properties_in(ns, children(ns, k)),
    }
}

/// The named `interface` children among `cs`.
pub open spec fn interfaces_in(ns: Seq<XmlNodeView>, cs: Seq<int>) -> Seq<InterfaceView>
    decreases cs.len(),
{
    if cs.len() == 0 {
        seq![]
    } else {
        let prev = interfaces_in(ns, cs.subrange(0, cs.len() - 1));
        let c = cs[cs.len() - 1];
        if named_tag(ns, c, "interface"@) {
            prev.push(interface_of(ns, c))
        } else {
            prev
        }
    }
}

/// The path of a child object: `path` and `name` joined by one `/`.
pub open spec fn child_path(path: Seq<char>, name: Seq<char>) -> Seq<char> {
    if path.len() > 0 && path[path.len() - 1] == '/' {
        path + name
    } else {
        path + "/"@ + name
    }
}

/// The paths of the named `node` children among `cs`.
pub open spec fn nodes_in(ns: Seq<XmlNodeView>, cs: Seq<int>, path: Seq<char>) -> Seq<Seq<char>>
    decreases cs.len(),
{
    if cs.len() == 0 {
        seq![]
    } else {
        let prev = nodes_in(ns, cs.subrange(0, cs.len() - 1), path);
        let c = cs[cs.len() - 1];
        if named_tag(ns, c, "node"@) {
            prev.push(child_path(path, attr_or(ns[c], "name"@, ""@)))
        } else {
            prev
        }
    }
}

/// What a parsed document describes of the object at `path` of `service`:
/// the named `interface` and `node` children of the root element.
pub open spec fn described(service: Seq<char>, path: Seq<char>, ns: Seq<XmlNodeView>) -> IntrospectView {
    IntrospectView {
        service,
        path,
        interfaces: if ns.len() > 0 {
            interfaces_in(ns, children(ns, 0))
        } else {
            seq![]
        },
        child_nodes: if ns.len() > 0 {
            nodes_in(ns, children(ns, 0), path)
        } else {
            seq![]
        },
    }
}

// ─── Reading the node list, executably ──────────────────────────────────────

/// Indices as integers.
pub open spec fn idx_view(cs: Seq<usize>) -> Seq<int> {
    Seq::new(cs.len(), |i: int| cs[i] as int)
}

/// The value of a node's attribute `key`, where it has one.
pub fn attribute(n: &XmlNode, key: &str) -> (r: Option<String>)
    ensures
        match r {
            Some(v) => attr(n@, key@) == Some(v@),
            None => attr(n@, key@) is None,
        },
{
    let ghost attrs = n@.attributes;
    let mut i: usize = 0;
    assert(attrs.subrange(0, attrs.len() as int) =~= attrs);
    while i < n.attributes.len()
        invariant
            i <= n.attributes@.len(),
            attrs == n@.attributes,
            attrs.len() == n.attributes@.len(),
            attr_in(attrs, key@) == attr_in(attrs.subrange(i as int, attrs.len() as int), key@),
        decreases n.attributes.len() - i,
    {
        let a = &n.attributes[i];
        let ghost rest = attrs.subrange(i as int, attrs.len() as int);
        assert(rest[0] == (a.0@, a.1@, a.2));
        if !a.2 && str_eq(a.0.as_str(), key) {
            return Some(a.1.clone());
        }
        assert(rest.subrange(1, rest.len() as int) =~= attrs.subrange(i + 1, attrs.len() as int));
        i = i + 1;
    }
    None
}

/// An attribute's value, or a default where it is absent.
pub fn attribute_or(n: &XmlNode, key: &str, default: &str) -> (r: String)
    ensures
        r@ == attr_or(n@, key@, default@),
{
    match attribute(n, key) {
        Some(v) => v,
        None => default.to_owned(),
    }
}

/// Leaving the subtree happens where the depths first drop to `d` or below.
proof fn lemma_end_from(ns: Seq<XmlNodeView>, d: int, j: int, e: int)
    requires
        j <= e <= ns.len(),
        forall|m: int| j <= m < e ==> #[trigger] ns[m].depth > d,
        e == ns.len() || ns[e].depth <= d,
    ensures
        end_from(ns, d, j) == e,
    decreases e - j,
{
    if j < e {
        lemma_end_from(ns, d, j + 1, e);
    }
}

/// The element children of node `k`, in document order.
pub fn element_children(ns: &Vec<XmlNode>, k: usize) -> (r: Vec<usize>)
    requires
        k < ns@.len(),
    ensures
        idx_view(r@) == children(node_views(ns@), k as int),
        forall|i: int| 0 <= i < r@.len() ==> k < #[trigger] r@[i] < ns@.len(),
{
    let ghost nv = node_views(ns@);
    let d = ns[k].depth;
    let mut out: Vec<usize> = Vec::new();
    let len = ns.len();
    let mut j: usize = k + 1;
    assert(idx_view(out@) =~= children_upto(nv, d as int, k + 1, j as int));
    while j < ns.len() && ns[j].depth > d
        invariant
            k < j <= ns@.len(),
            nv == node_views(ns@),
            d == ns@[k as int].depth,
            idx_view(out@) == children_upto(nv, d as int, k + 1, j as int),
            forall|m: int| k + 1 <= m < j ==> #[trigger] nv[m].depth > d,
            forall|i: int| 0 <= i < out@.len() ==> k < #[trigger] out@[i] < j,
        decreases ns.len() - j,
    {
        assert(nv[j as int] == ns@[j as int]@);
        if ns[j].element && ns[j].depth - 1 == d {
            let ghost before = out@;
            out.push(j);
            assert(idx_view(out@) =~= idx_view(before).push(j as int));
        }
        j = j + 1;
    }
    proof {
        if j < ns@.len() {
            assert(nv[j as int] == ns@[j as int]@);
        }
        lemma_end_from(nv, d as int, k + 1, j as int);
        assert(nv[k as int] == ns@[k as int]@);
    }
    out
}

/// An `arg` element.
pub fn parse_arg(n: &XmlNode) -> (r: ArgInfo)
    ensures
        r@ == arg_of(n@),
{
    ArgInfo { name: attribute_or(n, "name", ""), signature: attribute_or(n, "type", "") }
}

/// The `arg` children among `cs`: all of them, or those going out or in.
fn args_among(ns: &Vec<XmlNode>, cs: &Vec<usize>, dir: Option<bool>) -> (r: Vec<ArgInfo>)
    requires
        forall|i: int| 0 <= i < cs@.len() ==> #[trigger] cs@[i] < ns@.len(),
    ensures
        arg_views(r@) == args_in(node_views(ns@), idx_view(cs@), dir),
{
    let ghost nv = node_views(ns@);
    let ghost cv = idx_view(cs@);
    let mut out: Vec<ArgInfo> = Vec::new();
    let mut i: usize = 0;
    assert(arg_views(out@) =~= args_in(nv, cv.subrange(0, 0), dir));
    while i < cs.len()
        invariant
            i <= cs@.len(),
            nv == node_views(ns@),
            cv == idx_view(cs@),
            forall|m: int| 0 <= m < cs@.len() ==> #[trigger] cs@[m] < ns@.len(),
            arg_views(out@) == args_in(nv, cv.subrange(0, i as int), dir),
        decreases cs.len() - i,
    {
        let c = cs[i];
        let n = &ns[c];
        let ghost next = cv.subrange(0, i + 1);
        assert(next.subrange(0, next.len() - 1) =~= cv.subrange(0, i as int));
        assert(next[next.len() - 1] == c as int);
        assert(nv[c as int] == n@);
        if str_eq(n.name.as_str(), "arg") {
            let keep = match dir {
                Some(out_dir) => {
                    let d = attribute_or(n, "direction", "in");
                    str_eq(d.as_str(), "out") == out_dir
                },
                None => true,
            };
            if keep {
                let ghost before = out@;
                out.push(parse_arg(n));
                assert(arg_views(out@) =~= arg_views(before).push(arg_of(nv[c as int])));
            }
        }
        i = i + 1;
    }
    assert(cv.subrange(0, cs@.len() as int) =~= cv);
    out
}

/// A `method` element.
pub fn parse_method(ns: &Vec<XmlNode>, k: usize) -> (r: MethodInfo)
    requires
        k < ns@.len(),
    ensures
        r@ == method_of(node_views(ns@), k as int),
{
    let cs = element_children(ns, k);
    let in_args = args_among(ns, &cs, Some(false));
    let out_args = args_among(ns, &cs, Some(true));
    proof {
        assert(node_views(ns@)[k as int] == ns@[k as int]@);
    }
    MethodInfo { name: attribute_or(&ns[k], "name", ""), in_args, out_args }
}

/// A `signal` element.
pub fn parse_signal(ns: &Vec<XmlNode>, k: usize) -> (r: SignalInfo)
    requires
        k < ns@.len(),
    ensures
        r@ == signal_of(node_views(ns@), k as int),
{
    let cs = element_children(ns, k);
    let args = args_among(ns, &cs, None);
    proof {
        assert(node_views(ns@)[k as int] == ns@[k as int]@);
    }
    SignalInfo { name: attribute_or(&ns[k], "name", ""), args }
}

/// A `property` element.
pub fn parse_property(n: &XmlNode) -> (r: PropertyInfo)
    ensures
        r@ == property_of(n@),
{
    PropertyInfo {
        name: attribute_or(n, "name", ""),
        signature: attribute_or(n, "type", ""),
        access: attribute_or(n, "access", "read"),
    }
}

/// Whether node `c` is an element with the given tag and a `name` attribute.
fn is_named_tag(n: &XmlNode, tag: &str) -> (r: bool)
    ensures
        r == (n@.name == tag@ && attr(n@, "name"@) is Some),
{
    if str_eq(n.name.as_str(), tag) {
        match attribute(n, "name") {
            Some(_) => true,
            None => false,
        }
    } else {
        false
    }
}

/// An `interface` element.
pub fn parse_interface(ns: &Vec<XmlNode>, k: usize) -> (r: InterfaceInfo)
    requires
        k < ns@.len(),
    ensures
        r@ == interface_of(node_views(ns@), k as int),
{
    let ghost nv = node_views(ns@);
    let cs = element_children(ns, k);
    let ghost cv = idx_view(cs@);
    let mut methods: Vec<MethodInfo> = Vec::new();
    let mut signals: Vec<SignalInfo> = Vec::new();
    let mut properties: Vec<PropertyInfo> = Vec::new();
    let mut i: usize = 0;
    assert(Seq::new(methods@.len(), |m: int| methods@[m]@) =~= methods_in(nv, cv.subrange(0, 0)));
    assert(Seq::new(signals@.len(), |m: int| signals@[m]@) =~= signals_in(nv, cv.subrange(0, 0)));
    assert(Seq::new(properties@.len(), |m: int| properties@[m]@) =~= properties_in(
        nv,
        cv.subrange(0, 0),
    ));
    while i < cs.len()
        invariant
            i <= cs@.len(),
            nv == node_views(ns@),
            cv == idx_view(cs@),
            forall|m: int| 0 <= m < cs@.len() ==> k < #[trigger] cs@[m] < ns@.len(),
            methods@.len() == methods_in(nv, cv.subrange(0, i as int)).len(),
            forall|m: int|
                0 <= m < methods@.len() ==> #[trigger] methods@[m]@ == methods_in(
                    nv,
                    cv.subrange(0, i as int),
                )[m],
            signals@.len() == signals_in(nv, cv.subrange(0, i as int)).len(),
            forall|m: int|
                0 <= m < signals@.len() ==> #[trigger] signals@[m]@ == signals_in(
                    nv,
                    cv.subrange(0, i as int),
                )[m],
            properties@.len() == properties_in(nv, cv.subrange(0, i as int)).len(),
            forall|m: int|
                0 <= m < properties@.len() ==> #[trigger] properties@[m]@ == properties_in(
                    nv,
                    cv.subrange(0, i as int),
                )[m],
        decreases cs.len() - i,
    {
        let c = cs[i];
        let ghost next = cv.subrange(0, i + 1);
        assert(next.subrange(0, next.len() - 1) =~= cv.subrange(0, i as int));
        assert(next[next.len() - 1] == c as int);
        assert(nv[c as int] == ns@[c as int]@);
        if is_named_tag(&ns[c], "method") {
            methods.push(parse_method(ns, c));
        }
        if is_named_tag(&ns[c], "signal") {
            signals.push(parse_signal(ns, c));
        }
        if is_named_tag(&ns[c], "property") {
            properties.push(parse_property(&ns[c]));
        }
        i = i + 1;
    }
    assert(cv.subrange(0, cs@.len() as int) =~= cv);
    let r = InterfaceInfo { name: attribute_or(&ns[k], "name", ""), methods, signals, properties };
    proof {
        assert(nv[k as int] == ns@[k as int]@);
        assert(r@.methods =~= methods_in(nv, cv));
        assert(r@.signals =~= signals_in(nv, cv));
        assert(r@.properties =~= properties_in(nv, cv));
    }
    r
}

/// The path of a child object: `path` and `name` joined by one `/`.
pub fn join_child_path(path: &str, name: &str) -> (r: String)
    ensures
        r@ == child_path(path@, name@),
{
    let ends = str_ends_with(path, "/");
    proof {
        reveal_strlit("/");
        let n = path@.len();
        if ends {
            assert(path@.subrange(n - 1, n as int)[0] == path@[n - 1]);
        } else if n > 0 && path@[n - 1] == '/' {
            assert(path@.subrange(n - 1, n as int) =~= "/"@);
        }
    }
    if ends {
        concat2(path, name)
    } else {
        concat3(path, "/", name)
    }
}


/// What a parsed document describes of the object at `path` of `service`.
pub fn describe(service: &str, path: &str, ns: &Vec<XmlNode>) -> (r: IntrospectResult)
    ensures
        r@ == described(service@, path@, node_views(ns@)),
{
    let ghost nv = node_views(ns@);
    let mut interfaces: Vec<InterfaceInfo> = Vec::new();
    let mut child_nodes: Vec<String> = Vec::new();
    if ns.len() > 0 {
        let cs = element_children(ns, 0);
        let ghost cv = idx_view(cs@);
        let mut i: usize = 0;
        assert(Seq::new(interfaces@.len(), |m: int| interfaces@[m]@) =~= interfaces_in(
            nv,
            cv.subrange(0, 0),
        ));
        assert(Seq::new(child_nodes@.len(), |m: int| child_nodes@[m]@) =~= nodes_in(
            nv,
            cv.subrange(0, 0),
            path@,
        ));
        while i < cs.len()
            invariant
                i <= cs@.len(),
                ns@.len() > 0,
                nv == node_views(ns@),
                cv == idx_view(cs@),
                forall|m: int| 0 <= m < cs@.len() ==> 0 < #[trigger] cs@[m] < ns@.len(),
                interfaces@.len() == interfaces_in(nv, cv.subrange(0, i as int)).len(),
                forall|m: int|
                    0 <= m < interfaces@.len() ==> #[trigger] interfaces@[m]@ == interfaces_in(
                        nv,
                        cv.subrange(0, i as int),
                    )[m],
                child_nodes@.len() == nodes_in(nv, cv.subrange(0, i as int), path@).len(),
                forall|m: int|
                    0 <= m < child_nodes@.len() ==> #[trigger] child_nodes@[m]@ == nodes_in(
                        nv,
                        cv.subrange(0, i as int),
                        path@,
                    )[m],
            decreases cs.len() - i,
        {
            let c = cs[i];
            let ghost next = cv.subrange(0, i + 1);
            assert(next.subrange(0, next.len() - 1) =~= cv.subrange(0, i as int));
            assert(next[next.len() - 1] == c as int);
            assert(nv[c as int] == ns@[c as int]@);
            if is_named_tag(&ns[c], "interface") {
                interfaces.push(parse_interface(ns, c));
            }
            if is_named_tag(&ns[c], "node") {
                let name = attribute_or(&ns[c], "name", "");
                child_nodes.push(join_child_path(path, name.as_str()));
            }
            i = i + 1;
        }
        assert(cv.subrange(0, cs@.len() as int) =~= cv);
    }
    let r = IntrospectResult {
        service: service.to_owned(),
        path: path.to_owned(),
        interfaces,
        child_nodes,
    };
    proof {
        if ns@.len() > 0 {
            assert(r@.interfaces =~= interfaces_in(nv, children(nv, 0)));
            assert(r@.child_nodes =~= nodes_in(nv, children(nv, 0), path@));
        } else {
            assert(r@.interfaces =~= Seq::<InterfaceView>::empty());
            assert(r@.child_nodes =~= Seq::<Seq<char>>::empty());
        }
    }
    r
}

/// Parse introspection XML into the structure it describes; the parser's
/// error text where the XML is malformed.
pub fn parse_introspect_xml(service: &str, path: &str, xml: &str) -> (r: Result<
    IntrospectResult,
    String,
>)
    ensures
        match r {
            Ok(v) => exists|ns: Seq<XmlNodeView>|
                xml_nodes(xml@) == Ok::<Seq<XmlNodeView>, Seq<char>>(ns) && v@ == described(
                    service@,
                    path@,
                    ns,
                ),
            Err(e) => xml_nodes(xml@) == Err::<Seq<XmlNodeView>, Seq<char>>(e@),
        },
{
    match parse_xml(xml) {
        Ok(ns) => Ok(describe(service, path, &ns)),
        Err(e) => Err(e),
    }
}

// ─── Walking the object tree ─────────────────────────────────────────────────

/// What the walk does next.
pub enum WalkStep {
    /// The path was recorded and its children are wanted: introspect it and
    /// hand them to `add_children` with this depth.
    Introspect { path: String, depth: u32 },
    /// The path was recorded; it is at the depth limit.
    Recorded,
    /// Nothing is left to walk.
    Done,
}

/// A depth-first walk of an object tree down to a maximum depth, one
/// introspection at a time: each path is recorded when it is reached, and the
/// children of a path with depth left are walked, first child first, before
/// the path's next sibling.
pub struct ObjectWalk {
    pending: Vec<(String, u32)>,
    found: Vec<String>,
}

/// The paths still to walk with their remaining depths; the last is next.
pub open spec fn pending_view(v: Seq<(String, u32)>) -> Seq<(Seq<char>, u32)> {
    Seq::new(v.len(), |i: int| (v[i].0@, v[i].1))
}

/// Children to walk at depth `d`, pushed so that the first child comes next.
pub open spec fn pushed_children(children: Seq<Seq<char>>, d: u32) -> Seq<(Seq<char>, u32)> {
    Seq::new(children.len(), |i: int| (children[children.len() - 1 - i], d))
}

impl ObjectWalk {
    /// The paths still to walk; the last is next.
    pub closed spec fn pending(&self) -> Seq<(Seq<char>, u32)> {
        pending_view(self.pending@)
    }

    /// The paths recorded so far, in the order they were reached.
    pub closed spec fn found(&self) -> Seq<Seq<char>> {
        Seq::new(self.found@.len(), |i: int| self.found@[i]@)
    }

    /// A walk from `root` down to `max_depth` levels below it.
    pub fn new(root: &str, max_depth: u32) -> (r: ObjectWalk)
        ensures
            r.pending() == seq![(root@, max_depth)],
            r.found() == Seq::<Seq<char>>::empty(),
    {
        let mut pending: Vec<(String, u32)> = Vec::new();
        pending.push((root.to_owned(), max_depth));
        let r = ObjectWalk { pending, found: Vec::new() };
        assert(r.pending() =~= seq![(root@, max_depth)]);
        assert(r.found() =~= Seq::<Seq<char>>::empty());
        r
    }

    /// Take the next path and record it.
    pub fn next(&mut self) -> (r: WalkStep)
        ensures
            old(self).pending().len() == 0 ==> r is Done && final(self).pending() == old(
                self,
            ).pending() && final(self).found() == old(self).found(),
            old(self).pending().len() > 0 ==> {
                let (p, d) = old(self).pending().last();
                &&& final(self).pending() == old(self).pending().drop_last()
                &&& final(self).found() == old(self).found().push(p)
                &&& match r {
                    WalkStep::Introspect { path, depth } => d > 0 && path@ == p && depth == d,
                    WalkStep::Recorded => d == 0,
                    WalkStep::Done => false,
                }
            },
    {
        match self.pending.pop() {
            None => WalkStep::Done,
            Some((path, depth)) => {
                let ghost before = self.found@;
                self.found.push(path.clone());
                proof {
                    assert(self.pending() =~= old(self).pending().drop_last());
                    assert(self.found() =~= old(self).found().push(path@));
                }
                if depth > 0 {
                    WalkStep::Introspect { path, depth }
                } else {
                    WalkStep::Recorded
                }
            },
        }
    }

    /// Hand over the children found under a path introspected at `depth`:
    /// they are walked next, first child first, one level deeper.
    pub fn add_children(&mut self, depth: u32, children: &Vec<String>)
        requires
            depth > 0,
        ensures
            final(self).pending() == old(self).pending() + pushed_children(
                Seq::new(children@.len(), |i: int| children@[i]@),
                (depth - 1) as u32,
            ),
            final(self).found() == old(self).found(),
    {
        let ghost kids = Seq::new(children@.len(), |i: int| children@[i]@);
        let mut i: usize = children.len();
        while i > 0
            invariant
                i <= children@.len(),
                kids == Seq::new(children@.len(), |k: int| children@[k]@),
                self.pending() == old(self).pending() + pushed_children(kids, (depth - 1) as u32).subrange(
                    0,
                    children@.len() - i,
                ),
                self.found() == old(self).found(),
                depth > 0,
            decreases i,
        {
            i = i - 1;
            let ghost before = self.pending();
            self.pending.push((children[i].clone(), depth - 1));
            proof {
                let all = pushed_children(kids, (depth - 1) as u32);
                assert(all.subrange(0, children@.len() - i) =~= all.subrange(
                    0,
                    children@.len() - i - 1,
                ).push((kids[i as int], (depth - 1) as u32)));
                assert(self.pending() =~= before.push((children@[i as int]@, (depth - 1) as u32)));
            }
        }
        assert(pushed_children(kids, (depth - 1) as u32).subrange(0, children@.len() as int)
            =~= pushed_children(kids, (depth - 1) as u32));
    }

    /// The paths recorded, in the order they were reached.
    pub fn into_paths(self) -> (r: Vec<String>)
        ensures
            Seq::new(r@.len(), |i: int| r@[i]@) == self.found(),
    {
        let r = self.found;
        assert(Seq::new(r@.len(), |i: int| r@[i]@) =~= self.found());
        r
    }
}

// ─── The order of the walk ───────────────────────────────────────────────────

/// The paths of the tree below `x` in pre-order, down to `d` more levels, when
/// introspecting a path always lists the children `kids` gives for it.
pub open spec fn preorder(kids: spec_fn(Seq<char>) -> Seq<Seq<char>>, x: Seq<char>, d: u32) -> Seq<
    Seq<char>,
>
    decreases d, 0int, 0int,
{
    seq![x] + if d == 0 {
        seq![]
    } else {
        forest(kids, kids(x), (d - 1) as u32)
    }
}

/// The pre-orders of several subtrees, one after the other.
pub open spec fn forest(kids: spec_fn(Seq<char>) -> Seq<Seq<char>>, xs: Seq<Seq<char>>, d: u32) -> Seq<
    Seq<char>,
>
    decreases d, 1int, xs.len(),
{
    if xs.len() == 0 {
        seq![]
    } else {
        preorder(kids, xs[0], d) + forest(kids, xs.subrange(1, xs.len() as int), d)
    }
}

/// The paths still to come from a stack of pending paths (the last is next).
pub open spec fn still_to_come(kids: spec_fn(Seq<char>) -> Seq<Seq<char>>, p: Seq<(Seq<char>, u32)>) -> Seq<
    Seq<char>,
>
    decreases p.len(),
{
    if p.len() == 0 {
        seq![]
    } else {
        preorder(kids, p.last().0, p.last().1) + still_to_come(kids, p.drop_last())
    }
}

/// One step of the walk as `next` and `add_children` make it, when each
/// introspection lists the children `kids` gives: the state is (pending,
/// found).
pub open spec fn walk_step(
    kids: spec_fn(Seq<char>) -> Seq<Seq<char>>,
    state: (Seq<(Seq<char>, u32)>, Seq<Seq<char>>),
) -> (Seq<(Seq<char>, u32)>, Seq<Seq<char>>) {
    let (p, f) = state;
    if p.len() == 0 {
        state
    } else {
        let (x, d) = p.last();
        if d > 0 {
            (p.drop_last() + pushed_children(kids(x), (d - 1) as u32), f.push(x))
        } else {
            (p.drop_last(), f.push(x))
        }
    }
}

/// The state after `n` steps of a walk from `root` down to `depth` levels.
pub open spec fn walk_after(
    kids: spec_fn(Seq<char>) -> Seq<Seq<char>>,
    root: Seq<char>,
    depth: u32,
    n: nat,
) -> (Seq<(Seq<char>, u32)>, Seq<Seq<char>>)
    decreases n,
{
    if n == 0 {
        (seq![(root, depth)], seq![])
    } else {
        walk_step(kids, walk_after(kids, root, depth, (n - 1) as nat))
    }
}

/// Children pushed on a stack come off it as the forest of their subtrees.
proof fn lemma_pushed_children_to_come(
    kids: spec_fn(Seq<char>) -> Seq<Seq<char>>,
    q: Seq<(Seq<char>, u32)>,
    ks: Seq<Seq<char>>,
    e: u32,
)
    ensures
        still_to_come(kids, q + pushed_children(ks, e)) == forest(kids, ks, e) + still_to_come(kids, q),
    decreases ks.len(),
{
    if ks.len() == 0 {
        assert(q + pushed_children(ks, e) =~= q);
        assert(forest(kids, ks, e) + still_to_come(kids, q) =~= still_to_come(kids, q));
    } else {
        let rest = ks.subrange(1, ks.len() as int);
        let all = q + pushed_children(ks, e);
        assert(all.last() == (ks[0], e));
        assert(all.drop_last() =~= q + pushed_children(rest, e));
        lemma_pushed_children_to_come(kids, q, rest, e);
        assert(forest(kids, ks, e) == preorder(kids, ks[0], e) + forest(kids, rest, e));
        assert(still_to_come(kids, all) =~= forest(kids, ks, e) + still_to_come(kids, q));
    }
}

/// A step of the walk keeps what was found followed by what is still to come.
proof fn lemma_walk_step_keeps_order(
    kids: spec_fn(Seq<char>) -> Seq<Seq<char>>,
    state: (Seq<(Seq<char>, u32)>, Seq<Seq<char>>),
)
    ensures
        ({
            let next = walk_step(kids, state);
            next.1 + still_to_come(kids, next.0) == state.1 + still_to_come(kids, state.0)
        }),
{
    let (p, f) = state;
    if p.len() > 0 {
        let (x, d) = p.last();
        if d > 0 {
            lemma_pushed_children_to_come(kids, p.drop_last(), kids(x), (d - 1) as u32);
            assert(f.push(x) + (forest(kids, kids(x), (d - 1) as u32) + still_to_come(kids, p.drop_last()))
                =~= f + (preorder(kids, x, d) + still_to_come(kids, p.drop_last())));
        } else {
            assert(f.push(x) + still_to_come(kids, p.drop_last()) =~= f + (preorder(kids, x, d)
                + still_to_come(kids, p.drop_last())));
        }
    }
}

/// The object walk lists the tree in pre-order: after any number of steps,
/// the paths found so far followed by those still to come are the pre-order
/// of the tree below the root down to the maximum depth; once nothing is
/// pending, the paths found are exactly that pre-order.
pub proof fn lemma_walk_is_preorder(
    kids: spec_fn(Seq<char>) -> Seq<Seq<char>>,
    root: Seq<char>,
    depth: u32,
    n: nat,
)
    ensures
        ({
            let (p, f) = walk_after(kids, root, depth, n);
            &&& f + still_to_come(kids, p) == preorder(kids, root, depth)
            &&& p.len() == 0 ==> f == preorder(kids, root, depth)
        }),
    decreases n,
{
    if n == 0 {
        let p = seq![(root, depth)];
        assert(p.drop_last() =~= Seq::<(Seq<char>, u32)>::empty());
        assert(p.last() == (root, depth));
        assert(still_to_come(kids, p.drop_last()) == Seq::<Seq<char>>::empty());
        assert(still_to_come(kids, p) =~= preorder(kids, root, depth));
        assert(Seq::<Seq<char>>::empty() + still_to_come(kids, p) =~= preorder(kids, root, depth));
    } else {
        lemma_walk_is_preorder(kids, root, depth, (n - 1) as nat);
        lemma_walk_step_keeps_order(kids, walk_after(kids, root, depth, (n - 1) as nat));
    }
    let (p, f) = walk_after(kids, root, depth, n);
    if p.len() == 0 {
        assert(f + still_to_come(kids, p) =~= f);
    }
}

} // verus!
