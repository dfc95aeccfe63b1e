//! AT-SPI identifiers, role and state tables, relation and layer names, and
//! the small decisions made while walking the accessibility tree.
//!
//! Elements are identified by a string of the form `"<bus_name>:<object_path>"`,
//! e.g. `":1.6:/org/a11y/atspi/accessible/42"`.

use vstd::prelude::*;
use crate::text::{
    lowercase, to_lowercase, contains_ignore_case, contains_ignoring_case, chars_find, chars_of, concat2, decimal, first_occurrence, has_substring, last_occurrence, occurs_at, push_char,
    push_str, str_eq, u64_to_string, lemma_decimal_injective, lemma_decimal_len,
};

verus! {

// ─── ElementId ───────────────────────────────────────────────────────────────

/// Opaque identifier for an AT-SPI accessibility element, encoded as
/// `"<bus_name>:<object_path>"`.
pub struct ElementId(pub String);

impl View for ElementId {
    type V = Seq<char>;

    open spec fn view(&self) -> Seq<char> {
        self.0@
    }
}

/// The text of the identifier built from a bus name and an object path.
pub open spec fn element_id_text(bus: Seq<char>, path: Seq<char>) -> Seq<char> {
    bus + seq![':'] + path
}

/// The separator between bus name and object path inside an identifier.
pub open spec fn id_separator() -> Seq<char> {
    seq![':', '/']
}

/// Error returned when an identifier holds no `":/"` separator.
pub struct InvalidElementId {
    pub id: String,
}

impl InvalidElementId {
    /// Human-readable description of the error.
    pub fn message(&self) -> (r: String)
        ensures
            r@ == "Invalid ElementId (no ':/' separator): "@ + self.id@,
    {
        concat2("Invalid ElementId (no ':/' separator): ", self.id.as_str())
    }
}

impl ElementId {
    /// Construct from individual parts.
    pub fn new(bus: &str, path: &str) -> (r: ElementId)
        ensures
            r@ == element_id_text(bus@, path@),
    {
        let mut s = bus.to_owned();
        push_char(&mut s, ':');
        push_str(&mut s, path);
        ElementId(s)
    }

    /// Split into (bus_name, object_path) at the last `":/"`: the last `':'`
    /// that is immediately followed by `'/'`.
    pub fn parts(&self) -> (r: Result<(&str, &str), InvalidElementId>)
        ensures
            match last_occurrence(self@, id_separator()) {
                Some(i) => r matches Ok((bus, path)) && bus@ == self@.subrange(0, i)
                    && path@ == self@.subrange(i + 1, self@.len() as int),
                None => r matches Err(e) && e.id@ == self@,
            },
    {
        let chars = chars_of(self.0.as_str());
        match last_separator(&chars) {
            Some(i) => {
                let s = self.0.as_str();
                let n = s.unicode_len();
                let bus = s.substring_char(0, i);
                let path = s.substring_char(i + 1, n);
                Ok((bus, path))
            },
            None => Err(InvalidElementId { id: self.0.clone() }),
        }
    }

    /// The identifier's text.
    pub fn as_str(&self) -> (r: &str)
        ensures
            r@ == self@,
    {
        self.0.as_str()
    }
}

/// The position of the last `":/"` in a character sequence, searching from
/// the end.
fn last_separator(chars: &Vec<char>) -> (r: Option<usize>)
    ensures
        match r {
            Some(i) => last_occurrence(chars@, id_separator()) == Some(i as int) && i + 2
                <= chars@.len(),
            None => last_occurrence(chars@, id_separator()) is None,
        },
{
    let ghost p = id_separator();
    let n = chars.len();
    let mut j: usize = n;
    while j >= 2
        invariant
            n == chars@.len(),
            j <= n,
            p == id_separator(),
            forall|m: int| j - 1 <= m && m + 2 <= n ==> !occurs_at(chars@, p, m),
        decreases j,
    {
        let k = j - 2;
        proof {
            lemma_occurs_at_pair(chars@, p, k as int);
        }
        if chars[k] == ':' && chars[k + 1] == '/' {
            proof {
                lemma_last_occurrence_is(chars@, p, k as int);
            }
            return Some(k);
        }
        j = j - 1;
    }
    assert(!has_substring(chars@, p));
    None
}

/// Every occurrence is followed by a last one.
pub proof fn lemma_last_occurrence_exists(s: Seq<char>, p: Seq<char>, i: int)
    requires
        occurs_at(s, p, i),
    ensures
        exists|k: int| occurs_at(s, p, k) && forall|j: int| k < j ==> !occurs_at(s, p, j),
    decreases s.len() - i,
{
    if exists|j: int| i < j && occurs_at(s, p, j) {
        let j = choose|j: int| i < j && occurs_at(s, p, j);
        lemma_last_occurrence_exists(s, p, j);
    } else {
        assert(forall|j: int| i < j ==> !occurs_at(s, p, j));
    }
}

/// An occurrence with no later occurrence is the last one.
pub proof fn lemma_last_occurrence_is(s: Seq<char>, p: Seq<char>, i: int)
    requires
        occurs_at(s, p, i),
        forall|j: int| i < j ==> !occurs_at(s, p, j),
    ensures
        last_occurrence(s, p) == Some(i),
{
    lemma_last_occurrence_exists(s, p, i);
    let c = last_occurrence(s, p)->0;
    assert(occurs_at(s, p, c) && forall|j: int| c < j ==> !occurs_at(s, p, j));
    if c < i {
        assert(!occurs_at(s, p, i));
    } else if c > i {
        assert(!occurs_at(s, p, c));
    }
}

/// Every occurrence is preceded by a first one.
pub proof fn lemma_first_occurrence_exists(s: Seq<char>, p: Seq<char>, i: int)
    requires
        occurs_at(s, p, i),
    ensures
        exists|k: int| occurs_at(s, p, k) && forall|j: int| 0 <= j < k ==> !occurs_at(s, p, j),
    decreases i,
{
    if exists|j: int| 0 <= j < i && occurs_at(s, p, j) {
        let j = choose|j: int| 0 <= j < i && occurs_at(s, p, j);
        lemma_first_occurrence_exists(s, p, j);
    } else {
        assert(forall|j: int| 0 <= j < i ==> !occurs_at(s, p, j));
    }
}

/// The first occurrence of a pattern lies inside the text.
pub proof fn lemma_first_occurrence_bounds(s: Seq<char>, p: Seq<char>)
    ensures
        first_occurrence(s, p) matches Some(i) ==> occurs_at(s, p, i) && 0 <= i
            && i + p.len() <= s.len() && forall|j: int| 0 <= j < i ==> !occurs_at(s, p, j),
{
    if has_substring(s, p) {
        let i = choose|i: int| occurs_at(s, p, i);
        lemma_first_occurrence_exists(s, p, i);
    }
}

/// A two-character pattern occurs exactly where its two characters stand.
pub proof fn lemma_occurs_at_pair(s: Seq<char>, p: Seq<char>, j: int)
    requires
        p.len() == 2,
        0 <= j,
        j + 2 <= s.len(),
    ensures
        occurs_at(s, p, j) <==> (s[j] == p[0] && s[j + 1] == p[1]),
{
    if s[j] == p[0] && s[j + 1] == p[1] {
        assert(s.subrange(j, j + 2) =~= p);
    }
    if occurs_at(s, p, j) {
        assert(s.subrange(j, j + 2)[0] == s[j]);
        assert(s.subrange(j, j + 2)[1] == s[j + 1]);
    }
}

/// Past the bus name, an identifier holds a separator only where its path
/// does.
proof fn lemma_no_separator_after_bus(bus: Seq<char>, path: Seq<char>, j: int)
    requires
        !has_substring(path, id_separator()),
        bus.len() < j,
    ensures
        !occurs_at(element_id_text(bus, path), id_separator(), j),
{
    let s = element_id_text(bus, path);
    let p = id_separator();
    let k = j - bus.len() - 1;
    if j + 2 <= s.len() {
        lemma_occurs_at_pair(s, p, j);
        lemma_occurs_at_pair(path, p, k);
        assert(!occurs_at(path, p, k));
        assert(s[j] == path[k]);
        assert(s[j + 1] == path[k + 1]);
    }
}

/// Splitting an identifier built by `ElementId::new` gives back the bus name
/// and the object path, whenever the path starts with `'/'` and holds no
/// `":/"`.
pub proof fn lemma_element_id_round_trip(bus: Seq<char>, path: Seq<char>)
    requires
        !has_substring(path, id_separator()),
        path.len() > 0,
        path[0] == '/',
    ensures
        last_occurrence(element_id_text(bus, path), id_separator()) == Some(bus.len() as int),
        element_id_text(bus, path).subrange(0, bus.len() as int) == bus,
        element_id_text(bus, path).subrange(
            bus.len() + 1int,
            element_id_text(bus, path).len() as int,
        ) == path,
{
    let s = element_id_text(bus, path);
    let p = id_separator();
    let n = bus.len() as int;
    assert(s[n] == ':');
    assert(s[n + 1] == path[0]);
    lemma_occurs_at_pair(s, p, n);
    assert forall|j: int| n < j implies !occurs_at(s, p, j) by {
        lemma_no_separator_after_bus(bus, path, j);
    }
    lemma_last_occurrence_is(s, p, n);
    assert(s.subrange(0, n) =~= bus);
    assert(s.subrange(n + 1, s.len() as int) =~= path);
}

// ─── ObjectRef ───────────────────────────────────────────────────────────────

/// A (bus_name, object_path) pair as returned by AT-SPI D-Bus calls.
pub struct ObjectRef {
    pub bus_name: String,
    pub path: String,
}

/// The object path AT-SPI uses for "no element".
pub open spec fn null_path() -> Seq<char> {
    "/org/a11y/atspi/null"@
}

impl ObjectRef {
    /// The identifier of the referenced element.
    pub fn to_element_id(&self) -> (r: ElementId)
        ensures
            r@ == element_id_text(self.bus_name@, self.path@),
    {
        ElementId::new(self.bus_name.as_str(), self.path.as_str())
    }

    /// Whether this ref points to the null/invalid element.
    pub fn is_null(&self) -> (r: bool)
        ensures
            r == (self.path@ == null_path() || self.bus_name@.len() == 0),
    {
        str_eq(self.path.as_str(), "/org/a11y/atspi/null") || self.bus_name.as_str().is_empty()
    }
}

// ─── Data records ────────────────────────────────────────────────────────────

/// Information about a running application visible via AT-SPI.
pub struct AppInfo {
    /// The element ID of the application root.
    pub root_id: ElementId,
    /// Application name (from the `Name` property).
    pub name: String,
    /// Toolkit name.
    pub toolkit: String,
    /// Toolkit version.
    pub toolkit_version: String,
}

/// Full information about a single UI element.
pub struct ElementInfo {
    pub id: ElementId,
    pub name: String,
    pub role: String,
    pub role_id: u32,
    pub description: String,
    pub states: Vec<String>,
    pub interfaces: Vec<String>,
    pub position: Option<(i32, i32)>,
    pub size: Option<(i32, i32)>,
    pub index_in_parent: i32,
    pub child_count: i32,
}

/// A node in the UI tree hierarchy.
pub struct UiTreeNode {
    pub id: ElementId,
    pub name: String,
    pub role: String,
    pub description: String,
    pub states: Vec<String>,
    pub child_count: i32,
    pub children: Vec<UiTreeNode>,
}

/// A single action available on an element.
pub struct ActionInfo {
    pub index: i32,
    pub name: String,
    pub description: String,
    pub key_binding: String,
}

/// Result of reading text from an element.
pub struct TextInfo {
    pub text: String,
    pub length: i32,
    pub caret_offset: i32,
}

/// A single relation entry: (relation_type, targets).
pub struct RelationEntry {
    pub relation_type: u32,
    pub relation_type_name: String,
    pub targets: Vec<ElementId>,
}

// ─── Tables ──────────────────────────────────────────────────────────────────

/// Names of the AT-SPI roles, indexed by role number.
pub open spec fn known_role_name(role: u32) -> Option<Seq<char>> {
    match role {
        0 => Some("invalid"@),
        1 => Some("accelerator label"@),
        2 => Some("alert"@),
        3 => Some("animation"@),
        4 => Some("arrow"@),
        5 => Some("calendar"@),
        6 => Some("canvas"@),
        7 => Some("check box"@),
        8 => Some("check menu item"@),
        9 => Some("color chooser"@),
        10 => Some("column header"@),
        11 => Some("combo box"@),
        12 => Some("date editor"@),
        13 => Some("desktop icon"@),
        14 => Some("desktop frame"@),
        15 => Some("dial"@),
        16 => Some("dialog"@),
        17 => Some("directory pane"@),
        18 => Some("drawing area"@),
        19 => Some("file chooser"@),
        20 => Some("filler"@),
        21 => Some("focus traversable"@),
        22 => Some("font chooser"@),
        23 => Some("frame"@),
        24 => Some("glass pane"@),
        25 => Some("html container"@),
        26 => Some("icon"@),
        27 => Some("image"@),
        28 => Some("internal frame"@),
        29 => Some("label"@),
        30 => Some("layered pane"@),
        31 => Some("list"@),
        32 => Some("list item"@),
        33 => Some("menu"@),
        34 => Some("menu bar"@),
        35 => Some("menu item"@),
        36 => Some("option pane"@),
        37 => Some("page tab"@),
        38 => Some("page tab list"@),
        39 => Some("panel"@),
        40 => Some("password text"@),
        41 => Some("popup menu"@),
        42 => Some("progress bar"@),
        43 => Some("push button"@),
        44 => Some("radio button"@),
        45 => Some("radio menu item"@),
        46 => Some("root pane"@),
        47 => Some("row header"@),
        48 => Some("scroll bar"@),
        49 => Some("scroll pane"@),
        50 => Some("separator"@),
        51 => Some("slider"@),
        52 => Some("spin button"@),
        53 => Some("split pane"@),
        54 => Some("status bar"@),
        55 => Some("table"@),
        56 => Some("table cell"@),
        57 => Some("table column header"@),
        58 => Some("table row header"@),
        59 => Some("tearoff menu item"@),
        60 => Some("terminal"@),
        61 => Some("text"@),
        62 => Some("toggle button"@),
        63 => Some("tool bar"@),
        64 => Some("tool tip"@),
        65 => Some("tree"@),
        66 => Some("tree table"@),
        67 => Some("unknown"@),
        68 => Some("viewport"@),
        69 => Some("window"@),
        70 => Some("extended"@),
        71 => Some("header"@),
        72 => Some("footer"@),
        73 => Some("paragraph"@),
        74 => Some("ruler"@),
        75 => Some("application"@),
        76 => Some("autocomplete"@),
        77 => Some("editbar"@),
        78 => Some("embedded"@),
        79 => Some("entry"@),
        80 => Some("chart"@),
        81 => Some("caption"@),
        82 => Some("document frame"@),
        83 => Some("heading"@),
        84 => Some("page"@),
        85 => Some("section"@),
        86 => Some("redundant object"@),
        87 => Some("form"@),
        88 => Some("link"@),
        89 => Some("input method window"@),
        90 => Some("table row"@),
        91 => Some("tree item"@),
        92 => Some("document spreadsheet"@),
        93 => Some("document presentation"@),
        94 => Some("document text"@),
        95 => Some("document web"@),
        96 => Some("document email"@),
        97 => Some("comment"@),
        98 => Some("list box"@),
        99 => Some("grouping"@),
        100 => Some("image map"@),
        101 => Some("notification"@),
        102 => Some("info bar"@),
        103 => Some("level bar"@),
        104 => Some("title bar"@),
        105 => Some("block quote"@),
        106 => Some("audio"@),
        107 => Some("video"@),
        108 => Some("definition"@),
        109 => Some("article"@),
        110 => Some("landmark"@),
        111 => Some("log"@),
        112 => Some("marquee"@),
        113 => Some("math"@),
        114 => Some("rating"@),
        115 => Some("timer"@),
        116 => Some("static"@),
        117 => Some("math fraction"@),
        118 => Some("math root"@),
        119 => Some("subscript"@),
        120 => Some("superscript"@),
        121 => Some("description list"@),
        122 => Some("description term"@),
        123 => Some("description value"@),
        124 => Some("footnote"@),
        125 => Some("content deletion"@),
        126 => Some("content insertion"@),
        127 => Some("mark"@),
        128 => Some("suggestion"@),
        _ => None,
    }
}

/// The role number whose table entry is `name`, or -1 where no entry is.
spec fn table_role_number(name: Seq<char>) -> int {
    if name == "invalid"@ {
        0
    } else if name == "accelerator label"@ {
        1
    } else if name == "alert"@ {
        2
    } else if name == "animation"@ {
        3
    } else if name == "arrow"@ {
        4
    } else if name == "calendar"@ {
        5
    } else if name == "canvas"@ {
        6
    } else if name == "check box"@ {
        7
    } else if name == "check menu item"@ {
        8
    } else if name == "color chooser"@ {
        9
    } else if name == "column header"@ {
        10
    } else if name == "combo box"@ {
        11
    } else if name == "date editor"@ {
        12
    } else if name == "desktop icon"@ {
        13
    } else if name == "desktop frame"@ {
        14
    } else if name == "dial"@ {
        15
    } else if name == "dialog"@ {
        16
    } else if name == "directory pane"@ {
        17
    } else if name == "drawing area"@ {
        18
    } else if name == "file chooser"@ {
        19
    } else if name == "filler"@ {
        20
    } else if name == "focus traversable"@ {
        21
    } else if name == "font chooser"@ {
        22
    } else if name == "frame"@ {
        23
    } else if name == "glass pane"@ {
        24
    } else if name == "html container"@ {
        25
    } else if name == "icon"@ {
        26
    } else if name == "image"@ {
        27
    } else if name == "internal frame"@ {
        28
    } else if name == "label"@ {
        29
    } else if name == "layered pane"@ {
        30
    } else if name == "list"@ {
        31
    } else if name == "list item"@ {
        32
    } else if name == "menu"@ {
        33
    } else if name == "menu bar"@ {
        34
    } else if name == "menu item"@ {
        35
    } else if name == "option pane"@ {
        36
    } else if name == "page tab"@ {
        37
    } else if name == "page tab list"@ {
        38
    } else if name == "panel"@ {
        39
    } else if name == "password text"@ {
        40
    } else if name == "popup menu"@ {
        41
    } else if name == "progress bar"@ {
        42
    } else if name == "push button"@ {
        43
    } else if name == "radio button"@ {
        44
    } else if name == "radio menu item"@ {
        45
    } else if name == "root pane"@ {
        46
    } else if name == "row header"@ {
        47
    } else if name == "scroll bar"@ {
        48
    } else if name == "scroll pane"@ {
        49
    } else if name == "separator"@ {
        50
    } else if name == "slider"@ {
        51
    } else if name == "spin button"@ {
        52
    } else if name == "split pane"@ {
        53
    } else if name == "status bar"@ {
        54
    } else if name == "table"@ {
        55
    } else if name == "table cell"@ {
        56
    } else if name == "table column header"@ {
        57
    } else if name == "table row header"@ {
        58
    } else if name == "tearoff menu item"@ {
        59
    } else if name == "terminal"@ {
        60
    } else if name == "text"@ {
        61
    } else if name == "toggle button"@ {
        62
    } else if name == "tool bar"@ {
        63
    } else if name == "tool tip"@ {
        64
    } else if name == "tree"@ {
        65
    } else if name == "tree table"@ {
        66
    } else if name == "unknown"@ {
        67
    } else if name == "viewport"@ {
        68
    } else if name == "window"@ {
        69
    } else if name == "extended"@ {
        70
    } else if name == "header"@ {
        71
    } else if name == "footer"@ {
        72
    } else if name == "paragraph"@ {
        73
    } else if name == "ruler"@ {
        74
    } else if name == "application"@ {
        75
    } else if name == "autocomplete"@ {
        76
    } else if name == "editbar"@ {
        77
    } else if name == "embedded"@ {
        78
    } else if name == "entry"@ {
        79
    } else if name == "chart"@ {
        80
    } else if name == "caption"@ {
        81
    } else if name == "document frame"@ {
        82
    } else if name == "heading"@ {
        83
    } else if name == "page"@ {
        84
    } else if name == "section"@ {
        85
    } else if name == "redundant object"@ {
        86
    } else if name == "form"@ {
        87
    } else if name == "link"@ {
        88
    } else if name == "input method window"@ {
        89
    } else if name == "table row"@ {
        90
    } else if name == "tree item"@ {
        91
    } else if name == "document spreadsheet"@ {
        92
    } else if name == "document presentation"@ {
        93
    } else if name == "document text"@ {
        94
    } else if name == "document web"@ {
        95
    } else if name == "document email"@ {
        96
    } else if name == "comment"@ {
        97
    } else if name == "list box"@ {
        98
    } else if name == "grouping"@ {
        99
    } else if name == "image map"@ {
        100
    } else if name == "notification"@ {
        101
    } else if name == "info bar"@ {
        102
    } else if name == "level bar"@ {
        103
    } else if name == "title bar"@ {
        104
    } else if name == "block quote"@ {
        105
    } else if name == "audio"@ {
        106
    } else if name == "video"@ {
        107
    } else if name == "definition"@ {
        108
    } else if name == "article"@ {
        109
    } else if name == "landmark"@ {
        110
    } else if name == "log"@ {
        111
    } else if name == "marquee"@ {
        112
    } else if name == "math"@ {
        113
    } else if name == "rating"@ {
        114
    } else if name == "timer"@ {
        115
    } else if name == "static"@ {
        116
    } else if name == "math fraction"@ {
        117
    } else if name == "math root"@ {
        118
    } else if name == "subscript"@ {
        119
    } else if name == "superscript"@ {
        120
    } else if name == "description list"@ {
        121
    } else if name == "description term"@ {
        122
    } else if name == "description value"@ {
        123
    } else if name == "footnote"@ {
        124
    } else if name == "content deletion"@ {
        125
    } else if name == "content insertion"@ {
        126
    } else if name == "mark"@ {
        127
    } else if name == "suggestion"@ {
        128
    } else {
        -1
    }
}

/// Each table entry names its own role number and no other, and none has the
/// form `role-<n>`. Each name's length is stated, and the characters at which
/// it first differs from a name of the same length or from `role-`, so that
/// the names can be told apart.
#[verifier::rlimit(100)]
proof fn lemma_table_role_number(role: u32)
    requires
        role < 129,
    ensures
        table_role_number(known_role_name(role)->0) == role as int,
        forall|d: Seq<char>| d.len() > 0 ==> known_role_name(role)->0 != "role-"@ + d,
{
    reveal_strlit("role-");
    assert("role-"@.len() == 5 && "role-"@[0] == 'r' && "role-"@[1] == 'o' && "role-"@[2] == 'l'
        && "role-"@[3] == 'e' && "role-"@[4] == '-');
    reveal_strlit("invalid");
    assert("invalid"@.len() == 7 && "invalid"@[0] == 'i');
    reveal_strlit("accelerator label");
    assert("accelerator label"@.len() == 17 && "accelerator label"@[0] == 'a');
    reveal_strlit("alert");
    assert("alert"@.len() == 5 && "alert"@[0] == 'a' && "alert"@[1] == 'l');
    reveal_strlit("animation");
    assert("animation"@.len() == 9 && "animation"@[0] == 'a');
    reveal_strlit("arrow");
    assert("arrow"@.len() == 5 && "arrow"@[0] == 'a' && "arrow"@[1] == 'r');
    reveal_strlit("calendar");
    assert("calendar"@.len() == 8 && "calendar"@[0] == 'c');
    reveal_strlit("canvas");
    assert("canvas"@.len() == 6 && "canvas"@[0] == 'c');
    reveal_strlit("check box");
    assert("check box"@.len() == 9 && "check box"@[0] == 'c' && "check box"@[1] == 'h');
    reveal_strlit("check menu item");
    assert("check menu item"@.len() == 15 && "check menu item"@[0] == 'c');
    reveal_strlit("color chooser");
    assert("color chooser"@.len() == 13 && "color chooser"@[0] == 'c' && "color chooser"@[3] == 'o');
    reveal_strlit("column header");
    assert("column header"@.len() == 13 && "column header"@[0] == 'c' && "column header"@[3] == 'u');
    reveal_strlit("combo box");
    assert("combo box"@.len() == 9 && "combo box"@[0] == 'c' && "combo box"@[1] == 'o');
    reveal_strlit("date editor");
    assert("date editor"@.len() == 11 && "date editor"@[0] == 'd');
    reveal_strlit("desktop icon");
    assert("desktop icon"@.len() == 12 && "desktop icon"@[0] == 'd' && "desktop icon"@[1] == 'e');
    reveal_strlit("desktop frame");
    assert("desktop frame"@.len() == 13 && "desktop frame"@[0] == 'd' && "desktop frame"@[1] == 'e');
    reveal_strlit("dial");
    assert("dial"@.len() == 4 && "dial"@[0] == 'd');
    reveal_strlit("dialog");
    assert("dialog"@.len() == 6 && "dialog"@[0] == 'd');
    reveal_strlit("directory pane");
    assert("directory pane"@.len() == 14 && "directory pane"@[0] == 'd' && "directory pane"@[1] == 'i');
    reveal_strlit("drawing area");
    assert("drawing area"@.len() == 12 && "drawing area"@[0] == 'd' && "drawing area"@[1] == 'r');
    reveal_strlit("file chooser");
    assert("file chooser"@.len() == 12 && "file chooser"@[0] == 'f' && "file chooser"@[1] == 'i');
    reveal_strlit("filler");
    assert("filler"@.len() == 6 && "filler"@[0] == 'f' && "filler"@[1] == 'i');
    reveal_strlit("focus traversable");
    assert("focus traversable"@.len() == 17 && "focus traversable"@[0] == 'f');
    reveal_strlit("font chooser");
    assert("font chooser"@.len() == 12 && "font chooser"@[0] == 'f' && "font chooser"@[1] == 'o');
    reveal_strlit("frame");
    assert("frame"@.len() == 5 && "frame"@[0] == 'f');
    reveal_strlit("glass pane");
    assert("glass pane"@.len() == 10 && "glass pane"@[0] == 'g');
    reveal_strlit("html container");
    assert("html container"@.len() == 14 && "html container"@[0] == 'h');
    reveal_strlit("icon");
    assert("icon"@.len() == 4 && "icon"@[0] == 'i');
    reveal_strlit("image");
    assert("image"@.len() == 5 && "image"@[0] == 'i');
    reveal_strlit("internal frame");
    assert("internal frame"@.len() == 14 && "internal frame"@[0] == 'i');
    reveal_strlit("label");
    assert("label"@.len() == 5 && "label"@[0] == 'l');
    reveal_strlit("layered pane");
    assert("layered pane"@.len() == 12 && "layered pane"@[0] == 'l');
    reveal_strlit("list");
    assert("list"@.len() == 4 && "list"@[0] == 'l' && "list"@[2] == 's');
    reveal_strlit("list item");
    assert("list item"@.len() == 9 && "list item"@[0] == 'l' && "list item"@[1] == 'i');
    reveal_strlit("menu");
    assert("menu"@.len() == 4 && "menu"@[0] == 'm' && "menu"@[1] == 'e');
    reveal_strlit("menu bar");
    assert("menu bar"@.len() == 8 && "menu bar"@[0] == 'm');
    reveal_strlit("menu item");
    assert("menu item"@.len() == 9 && "menu item"@[0] == 'm' && "menu item"@[1] == 'e');
    reveal_strlit("option pane");
    assert("option pane"@.len() == 11 && "option pane"@[0] == 'o');
    reveal_strlit("page tab");
    assert("page tab"@.len() == 8 && "page tab"@[0] == 'p');
    reveal_strlit("page tab list");
    assert("page tab list"@.len() == 13 && "page tab list"@[0] == 'p' && "page tab list"@[2] == 'g');
    reveal_strlit("panel");
    assert("panel"@.len() == 5 && "panel"@[0] == 'p');
    reveal_strlit("password text");
    assert("password text"@.len() == 13 && "password text"@[0] == 'p' && "password text"@[2] == 's');
    reveal_strlit("popup menu");
    assert("popup menu"@.len() == 10 && "popup menu"@[0] == 'p');
    reveal_strlit("progress bar");
    assert("progress bar"@.len() == 12 && "progress bar"@[0] == 'p');
    reveal_strlit("push button");
    assert("push button"@.len() == 11 && "push button"@[0] == 'p');
    reveal_strlit("radio button");
    assert("radio button"@.len() == 12 && "radio button"@[0] == 'r' && "radio button"@[1] == 'a');
    reveal_strlit("radio menu item");
    assert("radio menu item"@.len() == 15 && "radio menu item"@[0] == 'r' && "radio menu item"@[1] == 'a');
    reveal_strlit("root pane");
    assert("root pane"@.len() == 9 && "root pane"@[0] == 'r' && "root pane"@[2] == 'o');
    reveal_strlit("row header");
    assert("row header"@.len() == 10 && "row header"@[0] == 'r' && "row header"@[2] == 'w');
    reveal_strlit("scroll bar");
    assert("scroll bar"@.len() == 10 && "scroll bar"@[0] == 's' && "scroll bar"@[1] == 'c');
    reveal_strlit("scroll pane");
    assert("scroll pane"@.len() == 11 && "scroll pane"@[0] == 's' && "scroll pane"@[1] == 'c');
    reveal_strlit("separator");
    assert("separator"@.len() == 9 && "separator"@[0] == 's' && "separator"@[1] == 'e');
    reveal_strlit("slider");
    assert("slider"@.len() == 6 && "slider"@[0] == 's' && "slider"@[1] == 'l');
    reveal_strlit("spin button");
    assert("spin button"@.len() == 11 && "spin button"@[0] == 's' && "spin button"@[1] == 'p');
    reveal_strlit("split pane");
    assert("split pane"@.len() == 10 && "split pane"@[0] == 's' && "split pane"@[1] == 'p');
    reveal_strlit("status bar");
    assert("status bar"@.len() == 10 && "status bar"@[0] == 's' && "status bar"@[1] == 't');
    reveal_strlit("table");
    assert("table"@.len() == 5 && "table"@[0] == 't' && "table"@[1] == 'a');
    reveal_strlit("table cell");
    assert("table cell"@.len() == 10 && "table cell"@[0] == 't' && "table cell"@[1] == 'a');
    reveal_strlit("table column header");
    assert("table column header"@.len() == 19 && "table column header"@[0] == 't');
    reveal_strlit("table row header");
    assert("table row header"@.len() == 16 && "table row header"@[0] == 't');
    reveal_strlit("tearoff menu item");
    assert("tearoff menu item"@.len() == 17 && "tearoff menu item"@[0] == 't');
    reveal_strlit("terminal");
    assert("terminal"@.len() == 8 && "terminal"@[0] == 't' && "terminal"@[1] == 'e');
    reveal_strlit("text");
    assert("text"@.len() == 4 && "text"@[0] == 't' && "text"@[1] == 'e');
    reveal_strlit("toggle button");
    assert("toggle button"@.len() == 13 && "toggle button"@[0] == 't');
    reveal_strlit("tool bar");
    assert("tool bar"@.len() == 8 && "tool bar"@[0] == 't' && "tool bar"@[1] == 'o' && "tool bar"@[5] == 'b');
    reveal_strlit("tool tip");
    assert("tool tip"@.len() == 8 && "tool tip"@[0] == 't' && "tool tip"@[1] == 'o' && "tool tip"@[5] == 't');
    reveal_strlit("tree");
    assert("tree"@.len() == 4 && "tree"@[0] == 't' && "tree"@[1] == 'r');
    reveal_strlit("tree table");
    assert("tree table"@.len() == 10 && "tree table"@[0] == 't' && "tree table"@[1] == 'r');
    reveal_strlit("unknown");
    assert("unknown"@.len() == 7 && "unknown"@[0] == 'u');
    reveal_strlit("viewport");
    assert("viewport"@.len() == 8 && "viewport"@[0] == 'v');
    reveal_strlit("window");
    assert("window"@.len() == 6 && "window"@[0] == 'w');
    reveal_strlit("extended");
    assert("extended"@.len() == 8 && "extended"@[0] == 'e' && "extended"@[1] == 'x');
    reveal_strlit("header");
    assert("header"@.len() == 6 && "header"@[0] == 'h');
    reveal_strlit("footer");
    assert("footer"@.len() == 6 && "footer"@[0] == 'f' && "footer"@[1] == 'o');
    reveal_strlit("paragraph");
    assert("paragraph"@.len() == 9 && "paragraph"@[0] == 'p');
    reveal_strlit("ruler");
    assert("ruler"@.len() == 5 && "ruler"@[0] == 'r' && "ruler"@[1] == 'u');
    reveal_strlit("application");
    assert("application"@.len() == 11 && "application"@[0] == 'a');
    reveal_strlit("autocomplete");
    assert("autocomplete"@.len() == 12 && "autocomplete"@[0] == 'a');
    reveal_strlit("editbar");
    assert("editbar"@.len() == 7 && "editbar"@[0] == 'e');
    reveal_strlit("embedded");
    assert("embedded"@.len() == 8 && "embedded"@[0] == 'e' && "embedded"@[1] == 'm');
    reveal_strlit("entry");
    assert("entry"@.len() == 5 && "entry"@[0] == 'e');
    reveal_strlit("chart");
    assert("chart"@.len() == 5 && "chart"@[0] == 'c');
    reveal_strlit("caption");
    assert("caption"@.len() == 7 && "caption"@[0] == 'c' && "caption"@[1] == 'a');
    reveal_strlit("document frame");
    assert("document frame"@.len() == 14 && "document frame"@[0] == 'd' && "document frame"@[1] == 'o' && "document frame"@[9] == 'f');
    reveal_strlit("heading");
    assert("heading"@.len() == 7 && "heading"@[0] == 'h');
    reveal_strlit("page");
    assert("page"@.len() == 4 && "page"@[0] == 'p');
    reveal_strlit("section");
    assert("section"@.len() == 7 && "section"@[0] == 's');
    reveal_strlit("redundant object");
    assert("redundant object"@.len() == 16 && "redundant object"@[0] == 'r' && "redundant object"@[1] == 'e');
    reveal_strlit("form");
    assert("form"@.len() == 4 && "form"@[0] == 'f');
    reveal_strlit("link");
    assert("link"@.len() == 4 && "link"@[0] == 'l' && "link"@[2] == 'n');
    reveal_strlit("input method window");
    assert("input method window"@.len() == 19 && "input method window"@[0] == 'i');
    reveal_strlit("table row");
    assert("table row"@.len() == 9 && "table row"@[0] == 't' && "table row"@[1] == 'a');
    reveal_strlit("tree item");
    assert("tree item"@.len() == 9 && "tree item"@[0] == 't' && "tree item"@[1] == 'r');
    reveal_strlit("document spreadsheet");
    assert("document spreadsheet"@.len() == 20 && "document spreadsheet"@[0] == 'd');
    reveal_strlit("document presentation");
    assert("document presentation"@.len() == 21 && "document presentation"@[0] == 'd');
    reveal_strlit("document text");
    assert("document text"@.len() == 13 && "document text"@[0] == 'd' && "document text"@[1] == 'o');
    reveal_strlit("document web");
    assert("document web"@.len() == 12 && "document web"@[0] == 'd' && "document web"@[1] == 'o');
    reveal_strlit("document email");
    assert("document email"@.len() == 14 && "document email"@[0] == 'd' && "document email"@[1] == 'o' && "document email"@[9] == 'e');
    reveal_strlit("comment");
    assert("comment"@.len() == 7 && "comment"@[0] == 'c' && "comment"@[1] == 'o');
    reveal_strlit("list box");
    assert("list box"@.len() == 8 && "list box"@[0] == 'l' && "list box"@[1] == 'i');
    reveal_strlit("grouping");
    assert("grouping"@.len() == 8 && "grouping"@[0] == 'g');
    reveal_strlit("image map");
    assert("image map"@.len() == 9 && "image map"@[0] == 'i');
    reveal_strlit("notification");
    assert("notification"@.len() == 12 && "notification"@[0] == 'n');
    reveal_strlit("info bar");
    assert("info bar"@.len() == 8 && "info bar"@[0] == 'i');
    reveal_strlit("level bar");
    assert("level bar"@.len() == 9 && "level bar"@[0] == 'l' && "level bar"@[1] == 'e');
    reveal_strlit("title bar");
    assert("title bar"@.len() == 9 && "title bar"@[0] == 't' && "title bar"@[1] == 'i');
    reveal_strlit("block quote");
    assert("block quote"@.len() == 11 && "block quote"@[0] == 'b');
    reveal_strlit("audio");
    assert("audio"@.len() == 5 && "audio"@[0] == 'a' && "audio"@[1] == 'u');
    reveal_strlit("video");
    assert("video"@.len() == 5 && "video"@[0] == 'v');
    reveal_strlit("definition");
    assert("definition"@.len() == 10 && "definition"@[0] == 'd');
    reveal_strlit("article");
    assert("article"@.len() == 7 && "article"@[0] == 'a');
    reveal_strlit("landmark");
    assert("landmark"@.len() == 8 && "landmark"@[0] == 'l' && "landmark"@[1] == 'a');
    reveal_strlit("log");
    assert("log"@.len() == 3 && "log"@[0] == 'l');
    reveal_strlit("marquee");
    assert("marquee"@.len() == 7 && "marquee"@[0] == 'm');
    reveal_strlit("math");
    assert("math"@.len() == 4 && "math"@[0] == 'm' && "math"@[1] == 'a' && "math"@[2] == 't');
    reveal_strlit("rating");
    assert("rating"@.len() == 6 && "rating"@[0] == 'r' && "rating"@[1] == 'a');
    reveal_strlit("timer");
    assert("timer"@.len() == 5 && "timer"@[0] == 't' && "timer"@[1] == 'i');
    reveal_strlit("static");
    assert("static"@.len() == 6 && "static"@[0] == 's' && "static"@[1] == 't');
    reveal_strlit("math fraction");
    assert("math fraction"@.len() == 13 && "math fraction"@[0] == 'm');
    reveal_strlit("math root");
    assert("math root"@.len() == 9 && "math root"@[0] == 'm' && "math root"@[1] == 'a');
    reveal_strlit("subscript");
    assert("subscript"@.len() == 9 && "subscript"@[0] == 's' && "subscript"@[1] == 'u');
    reveal_strlit("superscript");
    assert("superscript"@.len() == 11 && "superscript"@[0] == 's' && "superscript"@[1] == 'u');
    reveal_strlit("description list");
    assert("description list"@.len() == 16 && "description list"@[0] == 'd' && "description list"@[12] == 'l');
    reveal_strlit("description term");
    assert("description term"@.len() == 16 && "description term"@[0] == 'd' && "description term"@[12] == 't');
    reveal_strlit("description value");
    assert("description value"@.len() == 17 && "description value"@[0] == 'd');
    reveal_strlit("footnote");
    assert("footnote"@.len() == 8 && "footnote"@[0] == 'f');
    reveal_strlit("content deletion");
    assert("content deletion"@.len() == 16 && "content deletion"@[0] == 'c');
    reveal_strlit("content insertion");
    assert("content insertion"@.len() == 17 && "content insertion"@[0] == 'c');
    reveal_strlit("mark");
    assert("mark"@.len() == 4 && "mark"@[0] == 'm' && "mark"@[1] == 'a' && "mark"@[2] == 'r');
    reveal_strlit("suggestion");
    assert("suggestion"@.len() == 10 && "suggestion"@[0] == 's' && "suggestion"@[1] == 'u');
    assert forall|d: Seq<char>| d.len() > 0 implies known_role_name(role)->0 != "role-"@ + d by {
        let t = "role-"@ + d;
        assert(t.len() == 5 + d.len());
        assert(t[0] == 'r' && t[1] == 'o' && t[2] == 'l' && t[3] == 'e' && t[4] == '-');
    }
}

/// Distinct role numbers get distinct names: the table's names differ from
/// each other, none of them has the form `role-<n>`, and distinct numbers
/// beyond the table have distinct decimals.
pub proof fn lemma_role_name_injective(a: u32, b: u32)
    requires
        a != b,
    ensures
        role_name_of(a) != role_name_of(b),
{
    reveal_strlit("role-");
    assert("role-"@.len() == 5);
    lemma_decimal_len(a as nat);
    lemma_decimal_len(b as nat);
    if a < 129 && b < 129 {
        lemma_table_role_number(a);
        lemma_table_role_number(b);
    } else if a < 129 {
        lemma_table_role_number(a);
    } else if b < 129 {
        lemma_table_role_number(b);
    } else if role_name_of(a) == role_name_of(b) {
        let ta = "role-"@ + decimal(a as nat);
        let tb = "role-"@ + decimal(b as nat);
        assert(ta.subrange(5, ta.len() as int) =~= decimal(a as nat));
        assert(tb.subrange(5, tb.len() as int) =~= decimal(b as nat));
        lemma_decimal_injective(a as nat, b as nat);
    }
}

/// The role table, looked up.
fn role_table(role: u32) -> (r: Option<&'static str>)
    ensures
        r matches Some(s) ==> known_role_name(role) == Some(s@),
        r is None ==> known_role_name(role) is None,
{
    match role {
        0 => Some("invalid"),
        1 => Some("accelerator label"),
        2 => Some("alert"),
        3 => Some("animation"),
        4 => Some("arrow"),
        5 => Some("calendar"),
        6 => Some("canvas"),
        7 => Some("check box"),
        8 => Some("check menu item"),
        9 => Some("color chooser"),
        10 => Some("column header"),
        11 => Some("combo box"),
        12 => Some("date editor"),
        13 => Some("desktop icon"),
        14 => Some("desktop frame"),
        15 => Some("dial"),
        16 => Some("dialog"),
        17 => Some("directory pane"),
        18 => Some("drawing area"),
        19 => Some("file chooser"),
        20 => Some("filler"),
        21 => Some("focus traversable"),
        22 => Some("font chooser"),
        23 => Some("frame"),
        24 => Some("glass pane"),
        25 => Some("html container"),
        26 => Some("icon"),
        27 => Some("image"),
        28 => Some("internal frame"),
        29 => Some("label"),
        30 => Some("layered pane"),
        31 => Some("list"),
        32 => Some("list item"),
        33 => Some("menu"),
        34 => Some("menu bar"),
        35 => Some("menu item"),
        36 => Some("option pane"),
        37 => Some("page tab"),
        38 => Some("page tab list"),
        39 => Some("panel"),
        40 => Some("password text"),
        41 => Some("popup menu"),
        42 => Some("progress bar"),
        43 => Some("push button"),
        44 => Some("radio button"),
        45 => Some("radio menu item"),
        46 => Some("root pane"),
        47 => Some("row header"),
        48 => Some("scroll bar"),
        49 => Some("scroll pane"),
        50 => Some("separator"),
        51 => Some("slider"),
        52 => Some("spin button"),
        53 => Some("split pane"),
        54 => Some("status bar"),
        55 => Some("table"),
        56 => Some("table cell"),
        57 => Some("table column header"),
        58 => Some("table row header"),
        59 => Some("tearoff menu item"),
        60 => Some("terminal"),
        61 => Some("text"),
        62 => Some("toggle button"),
        63 => Some("tool bar"),
        64 => Some("tool tip"),
        65 => Some("tree"),
        66 => Some("tree table"),
        67 => Some("unknown"),
        68 => Some("viewport"),
        69 => Some("window"),
        70 => Some("extended"),
        71 => Some("header"),
        72 => Some("footer"),
        73 => Some("paragraph"),
        74 => Some("ruler"),
        75 => Some("application"),
        76 => Some("autocomplete"),
        77 => Some("editbar"),
        78 => Some("embedded"),
        79 => Some("entry"),
        80 => Some("chart"),
        81 => Some("caption"),
        82 => Some("document frame"),
        83 => Some("heading"),
        84 => Some("page"),
        85 => Some("section"),
        86 => Some("redundant object"),
        87 => Some("form"),
        88 => Some("link"),
        89 => Some("input method window"),
        90 => Some("table row"),
        91 => Some("tree item"),
        92 => Some("document spreadsheet"),
        93 => Some("document presentation"),
        94 => Some("document text"),
        95 => Some("document web"),
        96 => Some("document email"),
        97 => Some("comment"),
        98 => Some("list box"),
        99 => Some("grouping"),
        100 => Some("image map"),
        101 => Some("notification"),
        102 => Some("info bar"),
        103 => Some("level bar"),
        104 => Some("title bar"),
        105 => Some("block quote"),
        106 => Some("audio"),
        107 => Some("video"),
        108 => Some("definition"),
        109 => Some("article"),
        110 => Some("landmark"),
        111 => Some("log"),
        112 => Some("marquee"),
        113 => Some("math"),
        114 => Some("rating"),
        115 => Some("timer"),
        116 => Some("static"),
        117 => Some("math fraction"),
        118 => Some("math root"),
        119 => Some("subscript"),
        120 => Some("superscript"),
        121 => Some("description list"),
        122 => Some("description term"),
        123 => Some("description value"),
        124 => Some("footnote"),
        125 => Some("content deletion"),
        126 => Some("content insertion"),
        127 => Some("mark"),
        128 => Some("suggestion"),
        _ => None,
    }
}

/// Names of the AT-SPI states, indexed by bit position over the state words.
pub open spec fn known_state_name(idx: u32) -> Option<Seq<char>> {
    match idx {
        0 => Some("invalid"@),
        1 => Some("active"@),
        2 => Some("armed"@),
        3 => Some("busy"@),
        4 => Some("checked"@),
        5 => Some("collapsed"@),
        6 => Some("defunct"@),
        7 => Some("editable"@),
        8 => Some("enabled"@),
        9 => Some("expandable"@),
        10 => Some("expanded"@),
        11 => Some("focusable"@),
        12 => Some("focused"@),
        13 => Some("has-tooltip"@),
        14 => Some("horizontal"@),
        15 => Some("iconified"@),
        16 => Some("modal"@),
        17 => Some("multi-line"@),
        18 => Some("multiselectable"@),
        19 => Some("opaque"@),
        20 => Some("pressed"@),
        21 => Some("resizable"@),
        22 => Some("selectable"@),
        23 => Some("selected"@),
        24 => Some("sensitive"@),
        25 => Some("showing"@),
        26 => Some("single-line"@),
        27 => Some("stale"@),
        28 => Some("transient"@),
        29 => Some("vertical"@),
        30 => Some("visible"@),
        31 => Some("manages-descendants"@),
        32 => Some("indeterminate"@),
        33 => Some("truncated"@),
        34 => Some("required"@),
        35 => Some("invalid-entry"@),
        36 => Some("supports-autocompletion"@),
        37 => Some("selectable-text"@),
        38 => Some("is-default"@),
        39 => Some("visited"@),
        40 => Some("checkable"@),
        41 => Some("has-popup"@),
        42 => Some("read-only"@),
        _ => None,
    }
}

/// The state table, looked up.
fn state_table(idx: u32) -> (r: Option<&'static str>)
    ensures
        r matches Some(s) ==> known_state_name(idx) == Some(s@),
        r is None ==> known_state_name(idx) is None,
{
    match idx {
        0 => Some("invalid"),
        1 => Some("active"),
        2 => Some("armed"),
        3 => Some("busy"),
        4 => Some("checked"),
        5 => Some("collapsed"),
        6 => Some("defunct"),
        7 => Some("editable"),
        8 => Some("enabled"),
        9 => Some("expandable"),
        10 => Some("expanded"),
        11 => Some("focusable"),
        12 => Some("focused"),
        13 => Some("has-tooltip"),
        14 => Some("horizontal"),
        15 => Some("iconified"),
        16 => Some("modal"),
        17 => Some("multi-line"),
        18 => Some("multiselectable"),
        19 => Some("opaque"),
        20 => Some("pressed"),
        21 => Some("resizable"),
        22 => Some("selectable"),
        23 => Some("selected"),
        24 => Some("sensitive"),
        25 => Some("showing"),
        26 => Some("single-line"),
        27 => Some("stale"),
        28 => Some("transient"),
        29 => Some("vertical"),
        30 => Some("visible"),
        31 => Some("manages-descendants"),
        32 => Some("indeterminate"),
        33 => Some("truncated"),
        34 => Some("required"),
        35 => Some("invalid-entry"),
        36 => Some("supports-autocompletion"),
        37 => Some("selectable-text"),
        38 => Some("is-default"),
        39 => Some("visited"),
        40 => Some("checkable"),
        41 => Some("has-popup"),
        42 => Some("read-only"),
        _ => None,
    }
}

/// The human-readable name of a role number: its table entry, or
/// `"role-<n>"` beyond the table.
pub open spec fn role_name_of(role: u32) -> Seq<char> {
    match known_role_name(role) {
        Some(n) => n,
        None => "role-"@ + decimal(role as nat),
    }
}

/// Convert an AT-SPI role number to a human-readable name.
pub fn role_name(role: u32) -> (r: String)
    ensures
        r@ == role_name_of(role),
{
    match role_table(role) {
        Some(s) => s.to_owned(),
        None => {
            let digits = u64_to_string(role as u64);
            concat2("role-", digits.as_str())
        },
    }
}

/// The name of the state at bit position `idx`: its table entry, or
/// `"state-<idx>"` beyond the table.
pub open spec fn state_name_of(idx: nat) -> Seq<char> {
    if idx < 43 && known_state_name(idx as u32) is Some {
        known_state_name(idx as u32)->0
    } else {
        "state-"@ + decimal(idx)
    }
}

/// Whether bit `bit` of `word` is set.
pub open spec fn bit_set(word: u32, bit: u32) -> bool {
    word & (1u32 << bit) != 0u32
}

/// The views of a sequence of strings.
pub open spec fn string_views(v: Seq<String>) -> Seq<Seq<char>> {
    v.map_values(|s: String| s@)
}

/// The names of the set states among the first `k` bit positions, in order
/// of position; bit `i` is bit `i % 32` of word `i / 32`.
pub open spec fn states_upto(words: Seq<u32>, k: nat) -> Seq<Seq<char>>
    decreases k,
{
    if k == 0 {
        seq![]
    } else {
        let idx = (k - 1) as nat;
        let prev = states_upto(words, idx);
        if bit_set(words[(idx / 32) as int], (idx % 32) as u32) {
            prev.push(state_name_of(idx))
        } else {
            prev
        }
    }
}

/// The names of all states set in a state bitfield.
pub open spec fn decoded_states(words: Seq<u32>) -> Seq<Seq<char>> {
    states_upto(words, 32 * words.len())
}

/// Decode an AT-SPI state bitfield (`au`, usually two u32 words) into state
/// name strings.
pub fn decode_states(words: &[u32]) -> (r: Vec<String>)
    requires
        words@.len() <= usize::MAX / 32,
    ensures
        string_views(r@) == decoded_states(words@),
{
    let mut result: Vec<String> = Vec::new();
    let n = words.len();
    let mut word_idx: usize = 0;
    while word_idx < n
        invariant
            n == words@.len(),
            n <= usize::MAX / 32,
            word_idx <= n,
            string_views(result@) == states_upto(words@, 32 * word_idx as nat),
        decreases n - word_idx,
    {
        let word = words[word_idx];
        let mut bit: u32 = 0;
        while bit < 32
            invariant
                n == words@.len(),
                n <= usize::MAX / 32,
                word_idx < n,
                word == words@[word_idx as int],
                bit <= 32,
                string_views(result@) == states_upto(words@, (32 * word_idx + bit) as nat),
            decreases 32 - bit,
        {
            let state_idx: usize = word_idx * 32 + bit as usize;
            let ghost k = (32 * word_idx + bit) as nat;
            assert(k / 32 == word_idx && k % 32 == bit) by (nonlinear_arith)
                requires k == 32 * word_idx + bit, bit < 32;
            if word & (1u32 << bit) != 0 {
                let known = if state_idx < 43 {
                    state_table(state_idx as u32)
                } else {
                    None
                };
                let name = match known {
                    Some(s) => s.to_owned(),
                    None => {
                        let digits = u64_to_string(state_idx as u64);
                        concat2("state-", digits.as_str())
                    },
                };
                let ghost old_result = result@;
                result.push(name);
                assert(string_views(result@) =~= string_views(old_result).push(name@));
            }
            bit = bit + 1;
        }
        word_idx = word_idx + 1;
    }
    result
}

/// Whether `idx` places each item of `s` in `t`: `s[i]` is `t[idx[i]]`, and
/// the positions rise strictly.
pub open spec fn places_in<A>(s: Seq<A>, t: Seq<A>, idx: Seq<int>) -> bool {
    &&& idx.len() == s.len()
    &&& forall|i: int| 0 <= i < idx.len() ==> 0 <= #[trigger] idx[i] < t.len() && t[idx[i]] == s[i]
    &&& forall|i: int, j: int| 0 <= i < j < idx.len() ==> #[trigger] idx[i] < #[trigger] idx[j]
}

/// Whether `s` is a subsequence of `t`: its items occur in `t` in the same
/// order, possibly with others between them.
pub open spec fn is_subsequence<A>(s: Seq<A>, t: Seq<A>) -> bool {
    exists|idx: Seq<int>| #[trigger] places_in(s, t, idx)
}

/// Whether every bit set in `a` is set in `b`, word by word.
pub open spec fn bits_within(a: Seq<u32>, b: Seq<u32>) -> bool {
    &&& a.len() == b.len()
    &&& forall|i: int| 0 <= i < a.len() ==> #[trigger] a[i] & !b[i] == 0u32
}

proof fn lemma_bit_within(x: u32, y: u32, bit: u32)
    requires
        x & !y == 0u32,
        bit < 32,
        bit_set(x, bit),
    ensures
        bit_set(y, bit),
{
    assert(x & !y == 0u32 && bit < 32 && x & (1u32 << bit) != 0u32 ==> y & (1u32 << bit) != 0u32)
        by (bit_vector);
}

/// The positions that place the states of `a` among those of `b`, up to
/// bit position `k`.
proof fn lemma_states_upto_placed(a: Seq<u32>, b: Seq<u32>, k: nat) -> (idx: Seq<int>)
    requires
        bits_within(a, b),
        k <= 32 * a.len(),
    ensures
        places_in(states_upto(a, k), states_upto(b, k), idx),
    decreases k,
{
    if k == 0 {
        seq![]
    } else {
        let p = (k - 1) as nat;
        let prev = lemma_states_upto_placed(a, b, p);
        let w = (p / 32) as int;
        let bit = (p % 32) as u32;
        assert(0 <= w < a.len()) by (nonlinear_arith)
            requires w == p / 32, p < 32 * a.len();
        let sa = states_upto(a, p);
        let sb = states_upto(b, p);
        if bit_set(a[w], bit) {
            assert(a[w] & !b[w] == 0u32);
            lemma_bit_within(a[w], b[w], bit);
            let idx = prev.push(sb.len() as int);
            assert(places_in(states_upto(a, k), states_upto(b, k), idx));
            idx
        } else {
            assert(places_in(states_upto(a, k), states_upto(b, k), prev));
            prev
        }
    }
}

/// Where every state bit set in `a` is also set in `b` (words of equal
/// count), the states decoded from `a` are a subsequence of those decoded
/// from `b`.
pub proof fn lemma_decoded_states_subsequence(a: Seq<u32>, b: Seq<u32>)
    requires
        bits_within(a, b),
    ensures
        is_subsequence(decoded_states(a), decoded_states(b)),
{
    let idx = lemma_states_upto_placed(a, b, 32 * a.len());
    assert(places_in(decoded_states(a), decoded_states(b), idx));
}

/// The state bit whose table entry is `name`, or -1 where no entry is.
spec fn table_state_number(name: Seq<char>) -> int {
    if name == "invalid"@ {
        0
    } else if name == "active"@ {
        1
    } else if name == "armed"@ {
        2
    } else if name == "busy"@ {
        3
    } else if name == "checked"@ {
        4
    } else if name == "collapsed"@ {
        5
    } else if name == "defunct"@ {
        6
    } else if name == "editable"@ {
        7
    } else if name == "enabled"@ {
        8
    } else if name == "expandable"@ {
        9
    } else if name == "expanded"@ {
        10
    } else if name == "focusable"@ {
        11
    } else if name == "focused"@ {
        12
    } else if name == "has-tooltip"@ {
        13
    } else if name == "horizontal"@ {
        14
    } else if name == "iconified"@ {
        15
    } else if name == "modal"@ {
        16
    } else if name == "multi-line"@ {
        17
    } else if name == "multiselectable"@ {
        18
    } else if name == "opaque"@ {
        19
    } else if name == "pressed"@ {
        20
    } else if name == "resizable"@ {
        21
    } else if name == "selectable"@ {
        22
    } else if name == "selected"@ {
        23
    } else if name == "sensitive"@ {
        24
    } else if name == "showing"@ {
        25
    } else if name == "single-line"@ {
        26
    } else if name == "stale"@ {
        27
    } else if name == "transient"@ {
        28
    } else if name == "vertical"@ {
        29
    } else if name == "visible"@ {
        30
    } else if name == "manages-descendants"@ {
        31
    } else if name == "indeterminate"@ {
        32
    } else if name == "truncated"@ {
        33
    } else if name == "required"@ {
        34
    } else if name == "invalid-entry"@ {
        35
    } else if name == "supports-autocompletion"@ {
        36
    } else if name == "selectable-text"@ {
        37
    } else if name == "is-default"@ {
        38
    } else if name == "visited"@ {
        39
    } else if name == "checkable"@ {
        40
    } else if name == "has-popup"@ {
        41
    } else if name == "read-only"@ {
        42
    } else {
        -1
    }
}

/// Each state table entry names its own bit and no other, and none has the
/// form `state-<n>`. Each name's length is stated, and the characters at which
/// it first differs from a name of the same length or from `state-`, so that
/// the names can be told apart.
#[verifier::rlimit(100)]
proof fn lemma_table_state_number(idx: u32)
    requires
        idx < 43,
    ensures
        known_state_name(idx) is Some,
        table_state_number(known_state_name(idx)->0) == idx as int,
        forall|d: Seq<char>| d.len() > 0 ==> known_state_name(idx)->0 != "state-"@ + d,
{
    reveal_strlit("state-");
    assert("state-"@.len() == 6 && "state-"@[0] == 's' && "state-"@[1] == 't' && "state-"@[2] == 'a'
        && "state-"@[3] == 't' && "state-"@[4] == 'e' && "state-"@[5] == '-');
    reveal_strlit("invalid");
    assert("invalid"@.len() == 7 && "invalid"@[0] == 'i');
    reveal_strlit("active");
    assert("active"@.len() == 6 && "active"@[0] == 'a');
    reveal_strlit("armed");
    assert("armed"@.len() == 5 && "armed"@[0] == 'a');
    reveal_strlit("busy");
    assert("busy"@.len() == 4 && "busy"@[0] == 'b');
    reveal_strlit("checked");
    assert("checked"@.len() == 7 && "checked"@[0] == 'c');
    reveal_strlit("collapsed");
    assert("collapsed"@.len() == 9 && "collapsed"@[0] == 'c' && "collapsed"@[1] == 'o');
    reveal_strlit("defunct");
    assert("defunct"@.len() == 7 && "defunct"@[0] == 'd');
    reveal_strlit("editable");
    assert("editable"@.len() == 8 && "editable"@[0] == 'e' && "editable"@[1] == 'd');
    reveal_strlit("enabled");
    assert("enabled"@.len() == 7 && "enabled"@[0] == 'e');
    reveal_strlit("expandable");
    assert("expandable"@.len() == 10 && "expandable"@[0] == 'e');
    reveal_strlit("expanded");
    assert("expanded"@.len() == 8 && "expanded"@[0] == 'e' && "expanded"@[1] == 'x');
    reveal_strlit("focusable");
    assert("focusable"@.len() == 9 && "focusable"@[0] == 'f');
    reveal_strlit("focused");
    assert("focused"@.len() == 7 && "focused"@[0] == 'f');
    reveal_strlit("has-tooltip");
    assert("has-tooltip"@.len() == 11 && "has-tooltip"@[0] == 'h');
    reveal_strlit("horizontal");
    assert("horizontal"@.len() == 10 && "horizontal"@[0] == 'h');
    reveal_strlit("iconified");
    assert("iconified"@.len() == 9 && "iconified"@[0] == 'i');
    reveal_strlit("modal");
    assert("modal"@.len() == 5 && "modal"@[0] == 'm');
    reveal_strlit("multi-line");
    assert("multi-line"@.len() == 10 && "multi-line"@[0] == 'm');
    reveal_strlit("multiselectable");
    assert("multiselectable"@.len() == 15 && "multiselectable"@[0] == 'm');
    reveal_strlit("opaque");
    assert("opaque"@.len() == 6 && "opaque"@[0] == 'o');
    reveal_strlit("pressed");
    assert("pressed"@.len() == 7 && "pressed"@[0] == 'p');
    reveal_strlit("resizable");
    assert("resizable"@.len() == 9 && "resizable"@[0] == 'r' && "resizable"@[2] == 's');
    reveal_strlit("selectable");
    assert("selectable"@.len() == 10 && "selectable"@[0] == 's' && "selectable"@[1] == 'e');
    reveal_strlit("selected");
    assert("selected"@.len() == 8 && "selected"@[0] == 's' && "selected"@[1] == 'e');
    reveal_strlit("sensitive");
    assert("sensitive"@.len() == 9 && "sensitive"@[0] == 's' && "sensitive"@[1] == 'e');
    reveal_strlit("showing");
    assert("showing"@.len() == 7 && "showing"@[0] == 's' && "showing"@[1] == 'h');
    reveal_strlit("single-line");
    assert("single-line"@.len() == 11 && "single-line"@[0] == 's' && "single-line"@[1] == 'i');
    reveal_strlit("stale");
    assert("stale"@.len() == 5 && "stale"@[0] == 's' && "stale"@[3] == 'l');
    reveal_strlit("transient");
    assert("transient"@.len() == 9 && "transient"@[0] == 't' && "transient"@[2] == 'a');
    reveal_strlit("vertical");
    assert("vertical"@.len() == 8 && "vertical"@[0] == 'v');
    reveal_strlit("visible");
    assert("visible"@.len() == 7 && "visible"@[0] == 'v' && "visible"@[4] == 'b');
    reveal_strlit("manages-descendants");
    assert("manages-descendants"@.len() == 19 && "manages-descendants"@[0] == 'm');
    reveal_strlit("indeterminate");
    assert("indeterminate"@.len() == 13 && "indeterminate"@[0] == 'i' && "indeterminate"@[2] == 'd');
    reveal_strlit("truncated");
    assert("truncated"@.len() == 9 && "truncated"@[0] == 't' && "truncated"@[2] == 'u');
    reveal_strlit("required");
    assert("required"@.len() == 8 && "required"@[0] == 'r');
    reveal_strlit("invalid-entry");
    assert("invalid-entry"@.len() == 13 && "invalid-entry"@[0] == 'i' && "invalid-entry"@[2] == 'v');
    reveal_strlit("supports-autocompletion");
    assert("supports-autocompletion"@.len() == 23 && "supports-autocompletion"@[1] == 'u');
    reveal_strlit("selectable-text");
    assert("selectable-text"@.len() == 15 && "selectable-text"@[0] == 's' && "selectable-text"@[1] == 'e');
    reveal_strlit("is-default");
    assert("is-default"@.len() == 10 && "is-default"@[0] == 'i');
    reveal_strlit("visited");
    assert("visited"@.len() == 7 && "visited"@[0] == 'v' && "visited"@[4] == 't');
    reveal_strlit("checkable");
    assert("checkable"@.len() == 9 && "checkable"@[0] == 'c' && "checkable"@[1] == 'h');
    reveal_strlit("has-popup");
    assert("has-popup"@.len() == 9 && "has-popup"@[0] == 'h');
    reveal_strlit("read-only");
    assert("read-only"@.len() == 9 && "read-only"@[0] == 'r' && "read-only"@[2] == 'a');
    assert forall|d: Seq<char>| d.len() > 0 implies known_state_name(idx)->0 != "state-"@ + d by {
        let t = "state-"@ + d;
        assert(t.len() == 6 + d.len());
        assert(t[0] == 's' && t[1] == 't' && t[2] == 'a' && t[3] == 't' && t[4] == 'e' && t[5] == '-');
    }
}

/// Distinct state bits get distinct names: the table's names differ from
/// each other, none of them has the form `state-<n>`, and distinct bits
/// beyond the table have distinct decimals.
pub proof fn lemma_state_name_injective(a: nat, b: nat)
    requires
        a != b,
    ensures
        state_name_of(a) != state_name_of(b),
{
    reveal_strlit("state-");
    assert("state-"@.len() == 6);
    lemma_decimal_len(a);
    lemma_decimal_len(b);
    if a < 43 && b < 43 {
        lemma_table_state_number(a as u32);
        lemma_table_state_number(b as u32);
    } else if a < 43 {
        lemma_table_state_number(a as u32);
    } else if b < 43 {
        lemma_table_state_number(b as u32);
    } else if state_name_of(a) == state_name_of(b) {
        let ta = "state-"@ + decimal(a);
        let tb = "state-"@ + decimal(b);
        assert(ta.subrange(6, ta.len() as int) =~= decimal(a));
        assert(tb.subrange(6, tb.len() as int) =~= decimal(b));
        lemma_decimal_injective(a, b);
    }
}

/// The name of a state is among those decoded from the first `k` bit
/// positions exactly when its bit is among them and set.
proof fn lemma_states_upto_contains(words: Seq<u32>, k: nat, i: nat)
    requires
        k <= 32 * words.len(),
    ensures
        states_upto(words, k).contains(state_name_of(i)) <==> (i < k && bit_set(
            words[(i / 32) as int],
            (i % 32) as u32,
        )),
    decreases k,
{
    if k > 0 {
        let p = (k - 1) as nat;
        lemma_states_upto_contains(words, p, i);
        let prev = states_upto(words, p);
        if bit_set(words[(p / 32) as int], (p % 32) as u32) {
            assert(states_upto(words, k) == prev.push(state_name_of(p)));
            if p != i {
                lemma_state_name_injective(p, i);
            }
            if prev.push(state_name_of(p)).contains(state_name_of(i)) {
                let j = choose|j: int| 0 <= j < prev.len() + 1 && prev.push(state_name_of(p))[j] == state_name_of(i);
                if j < prev.len() {
                    assert(prev.contains(state_name_of(i)));
                }
            }
            if i == p {
                assert(prev.push(state_name_of(p))[prev.len() as int] == state_name_of(i));
            } else if i < p && bit_set(words[(i / 32) as int], (i % 32) as u32) {
                let j = choose|j: int| 0 <= j < prev.len() && prev[j] == state_name_of(i);
                assert(prev.push(state_name_of(p))[j] == state_name_of(i));
            }
        }
    }
}

/// A state is reported exactly when its bit is set: the name of bit `i`
/// (bit `i % 32` of word `i / 32`) is among the decoded states if and only if
/// that bit exists and is set.
pub proof fn lemma_decoded_state_iff_bit(words: Seq<u32>, i: nat)
    ensures
        decoded_states(words).contains(state_name_of(i)) <==> (i < 32 * words.len() && bit_set(
            words[(i / 32) as int],
            (i % 32) as u32,
        )),
{
    lemma_states_upto_contains(words, 32 * words.len(), i);
}

/// An element is reported focused exactly when its first state word has bit
/// 12 (`ATSPI_STATE_FOCUSED`) set, and selected exactly when it has bit 23
/// (`ATSPI_STATE_SELECTED`) set.
pub proof fn lemma_focused_and_selected_bits(words: Seq<u32>)
    ensures
        decoded_states(words).contains("focused"@) <==> (words.len() > 0 && bit_set(words[0], 12)),
        decoded_states(words).contains("selected"@) <==> (words.len() > 0 && bit_set(words[0], 23)),
{
    reveal_strlit("focused");
    reveal_strlit("selected");
    assert(state_name_of(12) == "focused"@);
    assert(state_name_of(23) == "selected"@);
    lemma_decoded_state_iff_bit(words, 12);
    lemma_decoded_state_iff_bit(words, 23);
}

/// Name of a relation type number.
pub open spec fn relation_label(rel: u32) -> Seq<char> {
    match rel {
        0 => "null"@,
        1 => "label-for"@,
        2 => "labelled-by"@,
        3 => "controller-for"@,
        4 => "controlled-by"@,
        5 => "member-of"@,
        6 => "tooltip-for"@,
        7 => "node-child-of"@,
        8 => "node-parent-of"@,
        9 => "extended"@,
        10 => "flows-to"@,
        11 => "flows-from"@,
        12 => "subwindow-of"@,
        13 => "embeds"@,
        14 => "embedded-by"@,
        15 => "popup-for"@,
        16 => "parent-window-of"@,
        17 => "description-for"@,
        18 => "described-by"@,
        19 => "details"@,
        20 => "details-for"@,
        21 => "error-message"@,
        22 => "error-for"@,
        _ => "unknown"@,
    }
}

/// Decode a relation type number to a name.
pub fn relation_type_name(rel: u32) -> (r: &'static str)
    ensures
        r@ == relation_label(rel),
{
    match rel {
        0 => "null",
        1 => "label-for",
        2 => "labelled-by",
        3 => "controller-for",
        4 => "controlled-by",
        5 => "member-of",
        6 => "tooltip-for",
        7 => "node-child-of",
        8 => "node-parent-of",
        9 => "extended",
        10 => "flows-to",
        11 => "flows-from",
        12 => "subwindow-of",
        13 => "embeds",
        14 => "embedded-by",
        15 => "popup-for",
        16 => "parent-window-of",
        17 => "description-for",
        18 => "described-by",
        19 => "details",
        20 => "details-for",
        21 => "error-message",
        22 => "error-for",
        _ => "unknown",
    }
}

/// Name of a component layer number.
pub open spec fn layer_label(layer: u32) -> Seq<char> {
    match layer {
        1 => "background"@,
        2 => "canvas"@,
        3 => "widget"@,
        4 => "mdi"@,
        5 => "popup"@,
        6 => "overlay"@,
        7 => "window"@,
        _ => "invalid"@,
    }
}

/// Decode a component layer number to a name.
pub fn layer_name(layer: u32) -> (r: &'static str)
    ensures
        r@ == layer_label(layer),
{
    match layer {
        1 => "background",
        2 => "canvas",
        3 => "widget",
        4 => "mdi",
        5 => "popup",
        6 => "overlay",
        7 => "window",
        _ => "invalid",
    }
}

// ─── Decisions while walking the tree ────────────────────────────────────────

/// A relation as read from a relation-set reply: its type number and the
/// (bus name, path) of each target.
pub struct RelationRecord {
    pub relation_type: u32,
    pub targets: Vec<ObjectRef>,
}

/// The relation entries of a relation set: each relation named, and each
/// target turned into an element identifier, in order.
pub fn relation_entries(records: &Vec<RelationRecord>) -> (r: Vec<RelationEntry>)
    ensures
        r@.len() == records@.len(),
        forall|i: int|
            0 <= i < r@.len() ==> {
                &&& (#[trigger] r@[i]).relation_type == records@[i].relation_type
                &&& r@[i].relation_type_name@ == relation_label(records@[i].relation_type)
                &&& r@[i].targets@.len() == records@[i].targets@.len()
                &&& forall|j: int|
                    0 <= j < r@[i].targets@.len() ==> (#[trigger] r@[i].targets@[j])@
                        == element_id_text(
                        records@[i].targets@[j].bus_name@,
                        records@[i].targets@[j].path@,
                    )
            },
{
    let mut out: Vec<RelationEntry> = Vec::new();
    let mut i: usize = 0;
    while i < records.len()
        invariant
            i <= records@.len(),
            out@.len() == i,
            forall|k: int|
                0 <= k < i ==> {
                    &&& (#[trigger] out@[k]).relation_type == records@[k].relation_type
                    &&& out@[k].relation_type_name@ == relation_label(records@[k].relation_type)
                    &&& out@[k].targets@.len() == records@[k].targets@.len()
                    &&& forall|j: int|
                        0 <= j < out@[k].targets@.len() ==> (#[trigger] out@[k].targets@[j])@
                            == element_id_text(
                            records@[k].targets@[j].bus_name@,
                            records@[k].targets@[j].path@,
                        )
                },
        decreases records.len() - i,
    {
        let rec = &records[i];
        let mut targets: Vec<ElementId> = Vec::new();
        let mut j: usize = 0;
        while j < rec.targets.len()
            invariant
                j <= rec.targets@.len(),
                targets@.len() == j,
                forall|m: int|
                    0 <= m < j ==> (#[trigger] targets@[m])@ == element_id_text(
                        rec.targets@[m].bus_name@,
                        rec.targets@[m].path@,
                    ),
            decreases rec.targets.len() - j,
        {
            targets.push(rec.targets[j].to_element_id());
            j = j + 1;
        }
        out.push(
            RelationEntry {
                relation_type: rec.relation_type,
                relation_type_name: relation_type_name(rec.relation_type).to_owned(),
                targets,
            },
        );
        i = i + 1;
    }
    out
}

/// The parent to look up for the element at (`bus`, `path`), given the
/// reference its `Parent` property holds: none for a null reference, an
/// empty bus name, or the element itself (the desktop root is its own parent).
pub fn parent_id(bus: &str, path: &str, parent: &Option<ObjectRef>) -> (r: Option<ElementId>)
    ensures
        match parent {
            None => r is None,
            Some(p) => if p.path@ == null_path() || p.bus_name@.len() == 0 || (p.bus_name@ == bus@
                && p.path@ == path@) {
                r is None
            } else {
                r matches Some(id) && id@ == element_id_text(p.bus_name@, p.path@)
            },
        },
{
    match parent {
        None => None,
        Some(p) => {
            if p.is_null() {
                None
            } else if str_eq(p.bus_name.as_str(), bus) && str_eq(p.path.as_str(), path) {
                None
            } else {
                Some(p.to_element_id())
            }
        },
    }
}

/// Whether an element is a search hit: at least one filter is given, and each
/// given filter occurs in the role (resp. name), ignoring case.
pub open spec fn search_hit(
    role: Seq<char>,
    name: Seq<char>,
    role_filter: Option<Seq<char>>,
    name_filter: Option<Seq<char>>,
) -> bool {
    &&& (role_filter is Some || name_filter is Some)
    &&& match role_filter {
        Some(f) => contains_ignoring_case(role, f),
        None => true,
    }
    &&& match name_filter {
        Some(f) => contains_ignoring_case(name, f),
        None => true,
    }
}

/// Whether an element found while searching the tree is a hit.
pub fn matches_search(info: &ElementInfo, role_filter: Option<&str>, name_filter: Option<&str>) -> (r: bool)
    ensures
        r == search_hit(
            info.role@,
            info.name@,
            match role_filter {
                Some(f) => Some(f@),
                None => None,
            },
            match name_filter {
                Some(f) => Some(f@),
                None => None,
            },
        ),
{
    let role_ok = match role_filter {
        Some(f) => contains_ignore_case(info.role.as_str(), f),
        None => true,
    };
    let name_ok = match name_filter {
        Some(f) => contains_ignore_case(info.name.as_str(), f),
        None => true,
    };
    role_ok && name_ok && (role_filter.is_some() || name_filter.is_some())
}

/// Whether an element has the `focused` state.
pub fn has_focus(info: &ElementInfo) -> (r: bool)
    ensures
        r == exists|i: int| 0 <= i < info.states@.len() && (#[trigger] info.states@[i])@ == "focused"@,
{
    let mut i: usize = 0;
    while i < info.states.len()
        invariant
            i <= info.states@.len(),
            forall|k: int| 0 <= k < i ==> (#[trigger] info.states@[k])@ != "focused"@,
        decreases info.states.len() - i,
    {
        if str_eq(info.states[i].as_str(), "focused") {
            return true;
        }
        i = i + 1;
    }
    false
}

/// Whether the walk goes on into an element's children: it has children and
/// more than one level of depth is left.
pub fn descends(child_count: i32, depth: u32) -> (r: bool)
    ensures
        r == (child_count > 0 && depth > 1),
{
    child_count > 0 && depth > 1
}

/// The string a property value holds, directly or inside a variant; `None`
/// for any other value (whose debug rendering is used in its place).
pub fn extract_string(v: &crate::dbus_value::DbusValue) -> (r: Option<String>)
    ensures
        match *v {
            crate::dbus_value::DbusValue::Str(s) => r matches Some(t) && t@ == s@,
            crate::dbus_value::DbusValue::Variant(inner) => match *inner {
                crate::dbus_value::DbusValue::Str(s) => r matches Some(t) && t@ == s@,
                _ => r is None,
            },
            _ => r is None,
        },
{
    match v {
        crate::dbus_value::DbusValue::Str(s) => Some(s.clone()),
        crate::dbus_value::DbusValue::Variant(inner) => match &**inner {
            crate::dbus_value::DbusValue::Str(s) => Some(s.clone()),
            _ => None,
        },
        _ => None,
    }
}

/// The 32-bit integer a property value holds, directly or inside a variant;
/// an unsigned value is reinterpreted as signed. `None` for any other value.
pub fn extract_i32(v: &crate::dbus_value::DbusValue) -> (r: Option<i32>)
    ensures
        match *v {
            crate::dbus_value::DbusValue::I32(n) => r == Some(n),
            crate::dbus_value::DbusValue::U32(n) => r == Some(n as i32),
            crate::dbus_value::DbusValue::Variant(inner) => match *inner {
                crate::dbus_value::DbusValue::I32(n) => r == Some(n),
                crate::dbus_value::DbusValue::U32(n) => r == Some(n as i32),
                _ => r is None,
            },
            _ => r is None,
        },
{
    match v {
        crate::dbus_value::DbusValue::I32(n) => Some(*n),
        crate::dbus_value::DbusValue::U32(n) => Some(*n as i32),
        crate::dbus_value::DbusValue::Variant(inner) => match &**inner {
            crate::dbus_value::DbusValue::I32(n) => Some(*n),
            crate::dbus_value::DbusValue::U32(n) => Some(*n as i32),
            _ => None,
        },
        _ => None,
    }
}

/// The first action whose name equals `name`, ignoring case.
pub fn find_action(names: &Vec<String>, name: &str) -> (r: Option<usize>)
    ensures
        match r {
            Some(i) => i < names@.len() && lowercase(names@[i as int]@) == lowercase(name@)
                && forall|k: int| 0 <= k < i ==> lowercase(#[trigger] names@[k]@) != lowercase(name@),
            None => forall|k: int| 0 <= k < names@.len() ==> lowercase(#[trigger] names@[k]@)
                != lowercase(name@),
        },
{
    let wanted = to_lowercase(name);
    let mut i: usize = 0;
    while i < names.len()
        invariant
            i <= names@.len(),
            wanted@ == lowercase(name@),
            forall|k: int| 0 <= k < i ==> lowercase(#[trigger] names@[k]@) != lowercase(name@),
        decreases names.len() - i,
    {
        let candidate = to_lowercase(names[i].as_str());
        if str_eq(candidate.as_str(), wanted.as_str()) {
            return Some(i);
        }
        i = i + 1;
    }
    None
}

} // verus!
