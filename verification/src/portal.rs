//! Decisions of the desktop-portal tools: options read from tool arguments,
//! the icon source of a launcher, and the texts the tools answer with.

use vstd::prelude::*;
use base64::Engine;
use vstd::string::StringSliceAdditionalSpecFns;
use crate::text::{concat2, concat3, decimal, int_decimal, push_char, push_str, str_eq, i64_to_string, u64_to_string};
use crate::tools::portal_tools::{GetAvailableDeviceTypesOutput, GetScreenCastCapabilitiesOutput, PrintFileOutput};

verus! {

// ─── Base64 ──────────────────────────────────────────────────────────────────

/// What `base64`'s standard engine decodes from a text, or the text of its
/// error.
pub uninterp spec fn base64_decoded(s: Seq<char>) -> Result<Seq<u8>, Seq<char>>;

/// The character of a six-bit value in the standard base64 alphabet
/// (`A`–`Z`, `a`–`z`, `0`–`9`, `+`, `/`).
pub open spec fn base64_char(n: int) -> char {
    if n < 26 {
        (65 + n) as char
    } else if n < 52 {
        (97 + n - 26) as char
    } else if n < 62 {
        (48 + n - 52) as char
    } else if n == 62 {
        '+'
    } else {
        '/'
    }
}

/// Standard base64 with padding: each group of three bytes becomes four
/// characters of six bits each; a final group of one or two bytes is
/// completed with zero bits and padded with `=` to four characters.
pub open spec fn base64_encoded(bytes: Seq<u8>) -> Seq<char>
    decreases bytes.len(),
{
    if bytes.len() == 0 {
        seq![]
    } else if bytes.len() == 1 {
        let a = bytes[0] as int;
        seq![base64_char(a / 4), base64_char((a % 4) * 16), '=', '=']
    } else if bytes.len() == 2 {
        let a = bytes[0] as int;
        let b = bytes[1] as int;
        seq![base64_char(a / 4), base64_char((a % 4) * 16 + b / 16), base64_char((b % 16) * 4), '=']
    } else {
        let a = bytes[0] as int;
        let b = bytes[1] as int;
        let c = bytes[2] as int;
        seq![
            base64_char(a / 4),
            base64_char((a % 4) * 16 + b / 16),
            base64_char((b % 16) * 4 + c / 64),
            base64_char(c % 64),
        ] + base64_encoded(bytes.subrange(3, bytes.len() as int))
    }
}

/// `base64::engine::general_purpose::STANDARD.decode`, its error converted to
/// its text. The result is named `base64_decoded`; the alphabet, padding and
/// trailing-bit rules are left to the outside crate.
#[verifier::external_body]
fn base64_decode(s: &str) -> (r: Result<Vec<u8>, String>)
    ensures
        match r {
            Ok(b) => base64_decoded(s@) == Ok::<Seq<u8>, Seq<char>>(b@),
            Err(e) => base64_decoded(s@) == Err::<Seq<u8>, Seq<char>>(e@),
        },
{
    match base64::engine::general_purpose::STANDARD.decode(s) {
        Ok(b) => Ok(b),
        Err(e) => Err(e.to_string()),
    }
}

/// `base64::engine::general_purpose::STANDARD.encode`: standard base64 with
/// padding, as `base64_encoded` states it.
#[verifier::external_body]
fn base64_encode_bytes(bytes: &[u8]) -> (r: String)
    ensures
        r@ == base64_encoded(bytes@),
{
    base64::engine::general_purpose::STANDARD.encode(bytes)
}

/// Bytes in standard base64, as images and icons are handed to clients.
pub fn base64_encode(bytes: &[u8]) -> (r: String)
    ensures
        r@ == base64_encoded(bytes@),
{
    base64_encode_bytes(bytes)
}

// ─── Launcher icons ──────────────────────────────────────────────────────────

/// Where a launcher icon comes from.
pub enum IconSource {
    /// A file to read.
    File(String),
    /// Bytes given inline.
    Inline(Vec<u8>),
}

/// Resolve the icon of a launcher from exactly one of a file path and inline
/// base64 data.
pub fn resolve_icon_source(icon_path: Option<&str>, icon_base64: Option<&str>) -> (r: Result<
    IconSource,
    String,
>)
    ensures
        match (icon_path, icon_base64) {
            (Some(p), None) => r matches Ok(IconSource::File(f)) && f@ == p@,
            (None, Some(b)) => match base64_decoded(b@) {
                Ok(bytes) => r matches Ok(IconSource::Inline(v)) && v@ == bytes,
                Err(e) => r matches Err(m) && m@ == "Invalid base64 icon data: "@ + e,
            },
            (Some(_), Some(_)) => r matches Err(m) && m@
                == "Provide either icon_path or icon_base64, not both"@,
            (None, None) => r matches Err(m) && m@ == "Either icon_path or icon_base64 is required"@,
        },
{
    match (icon_path, icon_base64) {
        (Some(p), None) => Ok(IconSource::File(p.to_owned())),
        (None, Some(b)) => match base64_decode(b) {
            Ok(bytes) => Ok(IconSource::Inline(bytes)),
            Err(e) => Err(concat2("Invalid base64 icon data: ", e.as_str())),
        },
        (Some(_), Some(_)) => Err("Provide either icon_path or icon_base64, not both".to_owned()),
        (None, None) => Err("Either icon_path or icon_base64 is required".to_owned()),
    }
}

// ─── Options read from arguments ─────────────────────────────────────────────

/// The actions a session can be kept from.
pub struct InhibitSet {
    pub logout: bool,
    pub suspend: bool,
    pub idle: bool,
    pub user_switch: bool,
}

/// Whether a list of flag names names the given flag.
pub open spec fn names_flag(flags: Seq<Seq<char>>, name: Seq<char>) -> bool {
    exists|i: int| 0 <= i < flags.len() && flags[i] == name
}

/// The inhibit flags named in a list (`logout`, `suspend`, `idle`,
/// `user-switch`; other names are ignored); an error where none is named.
pub fn parse_inhibit_flags(flags: &Vec<String>) -> (r: Result<InhibitSet, String>)
    ensures
        ({
            let fs = crate::atspi::string_views(flags@);
            let (lo, su, id, us) = (
                names_flag(fs, "logout"@),
                names_flag(fs, "suspend"@),
                names_flag(fs, "idle"@),
                names_flag(fs, "user-switch"@),
            );
            if lo || su || id || us {
                r matches Ok(s) && s.logout == lo && s.suspend == su && s.idle == id
                    && s.user_switch == us
            } else {
                r matches Err(m) && m@ == "No valid inhibit flags provided"@
            }
        }),
{
    let ghost fs = crate::atspi::string_views(flags@);
    let mut set = InhibitSet { logout: false, suspend: false, idle: false, user_switch: false };
    let mut i: usize = 0;
    while i < flags.len()
        invariant
            i <= flags@.len(),
            fs == crate::atspi::string_views(flags@),
            set.logout == exists|k: int| 0 <= k < i && fs[k] == "logout"@,
            set.suspend == exists|k: int| 0 <= k < i && fs[k] == "suspend"@,
            set.idle == exists|k: int| 0 <= k < i && fs[k] == "idle"@,
            set.user_switch == exists|k: int| 0 <= k < i && fs[k] == "user-switch"@,
        decreases flags.len() - i,
    {
        let f = flags[i].as_str();
        assert(fs[i as int] == f@);
        proof {
            reveal_strlit("logout");
            reveal_strlit("suspend");
            reveal_strlit("idle");
            reveal_strlit("user-switch");
        }
        if str_eq(f, "logout") {
            set.logout = true;
        } else if str_eq(f, "suspend") {
            set.suspend = true;
        } else if str_eq(f, "idle") {
            set.idle = true;
        } else if str_eq(f, "user-switch") {
            set.user_switch = true;
        }
        i = i + 1;
    }
    if set.logout || set.suspend || set.idle || set.user_switch {
        Ok(set)
    } else {
        Err("No valid inhibit flags provided".to_owned())
    }
}

/// How precisely a location is asked for.
#[derive(PartialEq, Eq, Structural, Clone, Copy, Debug)]
pub enum Accuracy {
    NoAccuracy,
    Country,
    City,
    Neighborhood,
    Street,
    Exact,
}

/// The accuracy a level names: `none` (`NoAccuracy`), `country`, `city`, `neighborhood`,
/// `street`, and `exact` for anything else or no level.
pub open spec fn accuracy_named(level: Option<Seq<char>>) -> Accuracy {
    match level {
        Some(l) => if l == "none"@ {
            Accuracy::NoAccuracy
        } else if l == "country"@ {
            Accuracy::Country
        } else if l == "city"@ {
            Accuracy::City
        } else if l == "neighborhood"@ {
            Accuracy::Neighborhood
        } else if l == "street"@ {
            Accuracy::Street
        } else {
            Accuracy::Exact
        },
        None => Accuracy::Exact,
    }
}

/// The accuracy a level names.
pub fn accuracy_level(level: Option<&str>) -> (r: Accuracy)
    ensures
        r == accuracy_named(
            match level {
                Some(l) => Some(l@),
                None => None,
            },
        ),
{
    match level {
        None => Accuracy::Exact,
        Some(l) => if str_eq(l, "none") {
            Accuracy::NoAccuracy
        } else if str_eq(l, "country") {
            Accuracy::Country
        } else if str_eq(l, "city") {
            Accuracy::City
        } else if str_eq(l, "neighborhood") {
            Accuracy::Neighborhood
        } else if str_eq(l, "street") {
            Accuracy::Street
        } else {
            Accuracy::Exact
        },
    }
}

/// How urgent a notification is.
#[derive(PartialEq, Eq, Structural, Clone, Copy, Debug)]
pub enum Priority {
    Low,
    Normal,
    High,
    Urgent,
}

/// The priority a name gives: `low`, `high`, `urgent`, and normal otherwise.
pub fn priority_named(p: &str) -> (r: Priority)
    ensures
        r == if p@ == "low"@ {
            Priority::Low
        } else if p@ == "high"@ {
            Priority::High
        } else if p@ == "urgent"@ {
            Priority::Urgent
        } else {
            Priority::Normal
        },
{
    if str_eq(p, "low") {
        Priority::Low
    } else if str_eq(p, "high") {
        Priority::High
    } else if str_eq(p, "urgent") {
        Priority::Urgent
    } else {
        Priority::Normal
    }
}

// ─── Texts ───────────────────────────────────────────────────────────────────

/// The name of a color scheme number: 1 dark, 2 light, anything else default.
pub fn color_scheme_name(n: u32) -> (r: &'static str)
    ensures
        r@ == if n == 1 {
            "dark"@
        } else if n == 2 {
            "light"@
        } else {
            "default"@
        },
{
    if n == 1 {
        "dark"
    } else if n == 2 {
        "light"
    } else {
        "default"
    }
}

/// The lower-case hexadecimal digit of a value below 16.
pub open spec fn hex_digit(d: int) -> char {
    if d < 10 {
        ('0' as int + d) as char
    } else {
        ('a' as int + d - 10) as char
    }
}

/// Two lower-case hexadecimal digits of a byte.
pub open spec fn hex_byte(b: u8) -> Seq<char> {
    seq![hex_digit(b as int / 16), hex_digit(b as int % 16)]
}

/// A color as `#rrggbb` in lower-case hexadecimal.
pub open spec fn hex_color_text(r: u8, g: u8, b: u8) -> Seq<char> {
    seq!['#'] + hex_byte(r) + hex_byte(g) + hex_byte(b)
}

/// The hexadecimal digit of a value below 16.
fn hex_char(d: u8) -> (c: char)
    requires
        d < 16,
    ensures
        c == hex_digit(d as int),
{
    if d < 10 {
        ((48u8 + d) as char)
    } else {
        ((87u8 + d) as char)
    }
}

/// A color as `#rrggbb` in lower-case hexadecimal.
pub fn hex_color(r: u8, g: u8, b: u8) -> (s: String)
    ensures
        s@ == hex_color_text(r, g, b),
{
    let mut s = String::new();
    push_char(&mut s, '#');
    push_char(&mut s, hex_char(r / 16));
    push_char(&mut s, hex_char(r % 16));
    push_char(&mut s, hex_char(g / 16));
    push_char(&mut s, hex_char(g % 16));
    push_char(&mut s, hex_char(b / 16));
    push_char(&mut s, hex_char(b % 16));
    assert(s@ =~= hex_color_text(r, g, b));
    s
}

/// The message about a pending low-memory warning, if any.
pub fn memory_warning_message(level: Option<i32>) -> (r: String)
    ensures
        r@ == match level {
            Some(l) => "Low memory warning: level="@ + int_decimal(l as int),
            None => "No pending memory warnings"@,
        },
{
    match level {
        Some(l) => concat2("Low memory warning: level=", i64_to_string(l as i64).as_str()),
        None => "No pending memory warnings".to_owned(),
    }
}

/// The clipboard of a session can be used only where the session was started
/// with clipboard access.
pub fn clipboard_access(enabled: bool) -> (r: Result<(), String>)
    ensures
        enabled ==> r is Ok,
        !enabled ==> (r matches Err(m) && m@
            == "Clipboard not enabled for this session. Start a session with with_clipboard=true"@),
{
    if enabled {
        Ok(())
    } else {
        Err(
            "Clipboard not enabled for this session. Start a session with with_clipboard=true".to_owned(),
        )
    }
}

// ─── Portal records ──────────────────────────────────────────────────────────

/// The state of the network as the network monitor reports it.
pub struct NetworkStatus {
    pub available: bool,
    pub metered: bool,
    pub connectivity: String,
}

/// A global shortcut bound to a session.
pub struct ShortcutInfo {
    pub id: String,
    pub description: String,
    pub trigger_description: String,
}

/// The kinds of image a launcher icon may be.
#[derive(PartialEq, Eq, Structural, Clone, Copy, Debug)]
pub enum IconKind {
    Png,
    Jpeg,
    Svg,
}

/// The name of an icon kind: `png`, `jpeg` or `svg`.
pub open spec fn icon_kind_text(k: IconKind) -> Seq<char> {
    match k {
        IconKind::Png => "png"@,
        IconKind::Jpeg => "jpeg"@,
        IconKind::Svg => "svg"@,
    }
}

/// The icon of a launcher as handed to clients: its bytes in base64, its
/// format and its nominal size in pixels.
pub struct IconInfo {
    pub data_base64: String,
    pub format: String,
    pub size: u32,
}

/// The icon record of an icon's bytes, kind and size.
pub fn icon_info(bytes: &[u8], kind: IconKind, size: u32) -> (r: IconInfo)
    ensures
        r.data_base64@ == base64_encoded(bytes@),
        r.format@ == icon_kind_text(kind),
        r.size == size,
{
    let format = match kind {
        IconKind::Png => "png",
        IconKind::Jpeg => "jpeg",
        IconKind::Svg => "svg",
    };
    IconInfo { data_base64: base64_encode(bytes), format: format.to_owned(), size }
}

/// The icon record of what the install dialog confirmed: its bytes, taken to
/// be a PNG of no stated size.
pub fn confirmed_icon_info(bytes: &[u8]) -> (r: IconInfo)
    ensures
        r.data_base64@ == base64_encoded(bytes@),
        r.format@ == "png"@,
        r.size == 0,
{
    icon_info(bytes, IconKind::Png, 0)
}

/// The kinds of launcher that can be installed.
#[derive(PartialEq, Eq, Structural, Clone, Copy, Debug)]
pub enum LauncherKind {
    Application,
    WebApplication,
}

/// The launcher kind a name asks for: `web_application`, else an application.
pub fn launcher_kind(name: &str) -> (r: LauncherKind)
    ensures
        r == if name@ == "web_application"@ {
            LauncherKind::WebApplication
        } else {
            LauncherKind::Application
        },
{
    if str_eq(name, "web_application") {
        LauncherKind::WebApplication
    } else {
        LauncherKind::Application
    }
}

/// The names of the launcher kinds a desktop supports, applications first.
pub open spec fn launcher_type_texts(application: bool, web: bool) -> Seq<Seq<char>> {
    (if application {
        seq!["application"@]
    } else {
        Seq::empty()
    }) + (if web {
        seq!["web_application"@]
    } else {
        Seq::empty()
    })
}

/// The names of the launcher kinds a desktop supports.
pub fn launcher_type_names(application: bool, web: bool) -> (r: Vec<String>)
    ensures
        crate::atspi::string_views(r@) == launcher_type_texts(application, web),
{
    let mut r: Vec<String> = Vec::new();
    if application {
        r.push("application".to_owned());
    }
    if web {
        r.push("web_application".to_owned());
    }
    assert(crate::atspi::string_views(r@) =~= launcher_type_texts(application, web));
    r
}

// ─── File dialogs and the clipboard ──────────────────────────────────────────

/// How a file-dialog filter pattern is matched.
#[derive(PartialEq, Eq, Structural, Clone, Copy, Debug)]
pub enum PatternKind {
    /// A MIME type such as `image/png`.
    MimeType,
    /// A shell glob such as `*.png`.
    Glob,
}

/// A pattern with a `/` in it is a MIME type, any other a glob.
pub fn filter_pattern_kind(pattern: &str) -> (r: PatternKind)
    ensures
        r == if pattern@.contains('/') {
            PatternKind::MimeType
        } else {
            PatternKind::Glob
        },
{
    let cs = crate::text::chars_of(pattern);
    let mut i: usize = 0;
    while i < cs.len()
        invariant
            i <= cs@.len(),
            cs@ == pattern@,
            forall|k: int| 0 <= k < i ==> cs@[k] != '/',
        decreases cs.len() - i,
    {
        if cs[i] == '/' {
            return PatternKind::MimeType;
        }
        i = i + 1;
    }
    PatternKind::Glob
}

/// The MIME types tried, in order, when the clipboard is read as text.
pub open spec fn clipboard_text_mimes() -> Seq<Seq<char>> {
    seq!["text/plain;charset=utf-8"@, "text/plain"@, "UTF8_STRING"@, "STRING"@]
}

/// The MIME types tried, in order, when the clipboard is read as text.
pub fn clipboard_text_mime_types() -> (r: Vec<&'static str>)
    ensures
        r@.len() == clipboard_text_mimes().len(),
        forall|i: int| 0 <= i < r@.len() ==> #[trigger] r@[i]@ == clipboard_text_mimes()[i],
{
    let r = vec!["text/plain;charset=utf-8", "text/plain", "UTF8_STRING", "STRING"];
    r
}

/// The MIME types offered when text is written to the clipboard.
pub fn clipboard_offer_mime_types() -> (r: Vec<&'static str>)
    ensures
        r@.len() == 2,
        r@[0]@ == "text/plain;charset=utf-8"@,
        r@[1]@ == "text/plain"@,
{
    vec!["text/plain;charset=utf-8", "text/plain"]
}

/// How many transfers of written clipboard text are served before the
/// handler stops.
pub const CLIPBOARD_MAX_TRANSFERS: u32 = 10;

/// Whether the clipboard handler serves another transfer after `served` ones.
pub fn clipboard_serves_more(served: u32) -> (r: bool)
    ensures
        r == (served < CLIPBOARD_MAX_TRANSFERS),
{
    served < CLIPBOARD_MAX_TRANSFERS
}

// ─── Remote desktop and screencast capabilities ──────────────────────────────

/// The device types a remote desktop offers, from the portal's bitmask:
/// keyboard 1, pointer 2, touchscreen 4.
pub fn available_device_types(bits: u32) -> (r: GetAvailableDeviceTypesOutput)
    ensures
        r.bitmask == bits,
        r.keyboard == (bits & 1 != 0),
        r.pointer == (bits & 2 != 0),
        r.touchscreen == (bits & 4 != 0),
{
    GetAvailableDeviceTypesOutput {
        bitmask: bits,
        keyboard: bits & 1 != 0,
        pointer: bits & 2 != 0,
        touchscreen: bits & 4 != 0,
    }
}

/// The cursor modes (hidden 1, embedded 2, metadata 4) and source types
/// (monitor 1, window 2, virtual 4) a screencast offers, from their bitmasks.
pub fn screencast_capabilities(cursor_modes: u32, source_types: u32) -> (r: GetScreenCastCapabilitiesOutput)
    ensures
        r.available_cursor_modes == cursor_modes,
        r.cursor_mode_hidden == (cursor_modes & 1 != 0),
        r.cursor_mode_embedded == (cursor_modes & 2 != 0),
        r.cursor_mode_metadata == (cursor_modes & 4 != 0),
        r.available_source_types == source_types,
        r.source_monitor == (source_types & 1 != 0),
        r.source_window == (source_types & 2 != 0),
        r.source_virtual == (source_types & 4 != 0),
{
    GetScreenCastCapabilitiesOutput {
        available_cursor_modes: cursor_modes,
        cursor_mode_hidden: cursor_modes & 1 != 0,
        cursor_mode_embedded: cursor_modes & 2 != 0,
        cursor_mode_metadata: cursor_modes & 4 != 0,
        available_source_types: source_types,
        source_monitor: source_types & 1 != 0,
        source_window: source_types & 2 != 0,
        source_virtual: source_types & 4 != 0,
    }
}

/// The axis of a discrete scroll: horizontal (1) for `horizontal`, vertical
/// (0) otherwise.
pub fn scroll_axis(axis: &str) -> (r: u32)
    ensures
        r == if axis@ == "horizontal"@ {
            1u32
        } else {
            0u32
        },
{
    if str_eq(axis, "horizontal") {
        1
    } else {
        0
    }
}

/// The message after a discrete scroll.
pub fn discrete_scroll_message(axis: &str, steps: i32) -> (r: String)
    ensures
        r@ == "Scroll discrete: axis="@ + axis@ + " steps="@ + int_decimal(steps as int),
{
    let n = i64_to_string(steps as i64);
    concat3("Scroll discrete: axis=", axis, concat2(" steps=", n.as_str()).as_str())
}

/// A touch event.
#[derive(PartialEq, Eq, Structural, Clone, Copy, Debug)]
pub enum TouchKind {
    Down,
    Motion,
    Up,
}

/// The touch event a name asks for: `down`, `motion`, and lifting the finger
/// otherwise.
pub fn touch_kind(s: &str) -> (r: TouchKind)
    ensures
        r == if s@ == "down"@ {
            TouchKind::Down
        } else if s@ == "motion"@ {
            TouchKind::Motion
        } else {
            TouchKind::Up
        },
{
    if str_eq(s, "down") {
        TouchKind::Down
    } else if str_eq(s, "motion") {
        TouchKind::Motion
    } else {
        TouchKind::Up
    }
}

// ─── Printing, settings and the clipboard ────────────────────────────────────

/// The answer after the print dialog: submitted where the user confirmed,
/// cancelled otherwise.
pub fn print_outcome(printed: bool) -> (r: PrintFileOutput)
    ensures
        r.success == printed,
        r.message@ == if printed {
            "Print job submitted"@
        } else {
            "Print cancelled"@
        },
{
    PrintFileOutput {
        success: printed,
        message: if printed {
            "Print job submitted".to_owned()
        } else {
            "Print cancelled".to_owned()
        },
    }
}

/// The settings namespaces read when all settings are asked for: those given,
/// or the appearance namespace where none is.
pub fn settings_namespaces(namespaces: &Vec<String>) -> (r: Vec<String>)
    ensures
        crate::atspi::string_views(r@) == if namespaces@.len() == 0 {
            seq!["org.freedesktop.appearance"@]
        } else {
            crate::atspi::string_views(namespaces@)
        },
{
    if namespaces.len() == 0 {
        let r = vec!["org.freedesktop.appearance".to_owned()];
        assert(crate::atspi::string_views(r@) =~= seq!["org.freedesktop.appearance"@]);
        r
    } else {
        crate::events::clone_strings(namespaces)
    }
}

/// The message after text was put on the clipboard: the number of bytes of
/// its UTF-8 form.
pub fn clipboard_set_message(text: &str) -> (r: String)
    ensures
        r@ == "Clipboard set to "@ + decimal((text.spec_bytes().len() as usize) as nat) + " chars"@,
{
    let n = text.len();
    let digits = u64_to_string(n as u64);
    concat3("Clipboard set to ", digits.as_str(), " chars")
}

} // verus!
