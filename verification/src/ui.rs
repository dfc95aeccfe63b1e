//! Decisions of the high-level UI tools: which applications and elements are
//! wanted, how deep a tree is built, what a wait reports, and the messages
//! the tools answer with.

use vstd::prelude::*;
use vstd::string::StringSliceAdditionalSpecFns;
use crate::atspi::ElementInfo;
use crate::text::{
    concat2, concat3, contains_ignore_case, contains_ignoring_case, has_substring, push_str,
    str_contains, u64_to_string, decimal,
};

verus! {

/// The text `{:?}` renders for an optional string (`None`, or `Some("…")`
/// with the string escaped).
pub uninterp spec fn debug_text(s: Option<Seq<char>>) -> Seq<char>;

/// An optional string as an optional character sequence.
pub open spec fn opt_view(s: Option<&str>) -> Option<Seq<char>> {
    match s {
        Some(t) => Some(t@),
        None => None,
    }
}

/// `format!("{:?}", s)` for an optional string: std's `Debug` rendering,
/// named `debug_text`. Of it only the rendering of `None`, the variant's
/// name, is stated; the escaping rules for a present string are not.
#[verifier::external_body]
fn debug_option(s: Option<&str>) -> (r: String)
    ensures
        r@ == debug_text(opt_view(s)),
        s is None ==> r@ == "None"@,
{
    format!("{:?}", s)
}

/// Whether an application is wanted: no filter, or its name contains the
/// filter, ignoring case.
pub fn app_selected(app_name: &str, filter: Option<&str>) -> (r: bool)
    ensures
        r == match filter {
            Some(f) => contains_ignoring_case(app_name@, f@),
            None => true,
        },
{
    match filter {
        Some(f) => contains_ignore_case(app_name, f),
        None => true,
    }
}

/// The depth to which an element search walks each application's tree.
pub const SEARCH_DEPTH: u32 = 4;

/// Whether a search that holds `found` results has reached its cap.
pub open spec fn search_full_at(found: int, max_results: u32) -> bool {
    found >= max_results
}

/// Whether a search that holds `found` results stops: it has reached its
/// cap of `max_results`.
pub fn search_full(found: usize, max_results: u32) -> (r: bool)
    ensures
        r == search_full_at(found as int, max_results),
{
    found >= max_results as usize
}

/// Whether a search reads the element it has come to: its results are not
/// full and depth is left.
pub fn search_visits(found: usize, max_results: u32, depth: u32) -> (r: bool)
    ensures
        r == (!search_full_at(found as int, max_results) && depth > 0),
{
    !search_full(found, max_results) && depth > 0
}

/// What a search does at an element it has read.
pub struct SearchStep {
    /// The element is added to the results.
    pub keep: bool,
    /// The search then goes on into the element's children.
    pub descend: bool,
}

/// The step of a search at an element read with `found` results so far, at
/// remaining `depth`: a hit is kept; the search goes on into the children
/// where the element has some, more than one level is left, and keeping it
/// did not fill the results.
pub fn search_step(found: usize, max_results: u32, depth: u32, hit: bool, child_count: i32) -> (r:
    SearchStep)
    ensures
        r.keep == hit,
        r.descend == (!(hit && search_full_at(found + 1, max_results)) && child_count > 0 && depth
            > 1),
{
    let filled = hit && (max_results == 0 || found >= (max_results - 1) as usize);
    SearchStep { keep: hit, descend: !filled && crate::atspi::descends(child_count, depth) }
}

/// Whether a role names a top-level window: it contains `frame`, `window` or
/// `dialog`.
pub fn is_window_role(role: &str) -> (r: bool)
    ensures
        r == (has_substring(role@, "frame"@) || has_substring(role@, "window"@) || has_substring(
            role@,
            "dialog"@,
        )),
{
    str_contains(role, "frame") || str_contains(role, "window") || str_contains(role, "dialog")
}

/// The depth a UI tree is built to: the requested depth, at most 6.
pub fn ui_tree_depth(depth: u32) -> (r: u32)
    ensures
        r == if depth < 6 {
            depth
        } else {
            6
        },
{
    if depth < 6 {
        depth
    } else {
        6
    }
}

/// The message when no element matches a search by role, name and application.
pub open spec fn no_element_text(
    role: Option<Seq<char>>,
    name: Option<Seq<char>>,
    app: Option<Seq<char>>,
) -> Seq<char> {
    "No element found with role="@ + debug_text(role) + " name="@ + debug_text(name) + " app="@
        + debug_text(app)
}

/// The message when no element matches a search by role, name and application.
pub fn no_element_message(role: Option<&str>, name: Option<&str>, app: Option<&str>) -> (r: String)
    ensures
        r@ == no_element_text(opt_view(role), opt_view(name), opt_view(app)),
{
    let mut m = concat2("No element found with role=", debug_option(role).as_str());
    push_str(&mut m, " name=");
    push_str(&mut m, debug_option(name).as_str());
    push_str(&mut m, " app=");
    push_str(&mut m, debug_option(app).as_str());
    m
}

/// The message when no element matches a search by role and name.
pub fn no_match_message(role: Option<&str>, name: Option<&str>) -> (r: String)
    ensures
        r@ == "No element found with role="@ + debug_text(opt_view(role)) + " name="@ + debug_text(
            opt_view(name),
        ),
{
    let mut m = concat2("No element found with role=", debug_option(role).as_str());
    push_str(&mut m, " name=");
    push_str(&mut m, debug_option(name).as_str());
    m
}

/// The message when no text field has the given name.
pub fn no_text_field_message(name: Option<&str>) -> (r: String)
    ensures
        r@ == "No text field found with name="@ + debug_text(opt_view(name)),
{
    concat2("No text field found with name=", debug_option(name).as_str())
}

/// The message after an action was performed on an element.
pub fn action_message(action: &str) -> (r: String)
    ensures
        r@ == "Action '"@ + action@ + "' performed"@,
{
    concat3("Action '", action, "' performed")
}

/// The message after text was typed: the number of bytes of its UTF-8 form.
pub fn typed_chars_message(text: &str) -> (r: String)
    ensures
        r@ == "Typed "@ + decimal((text.spec_bytes().len() as usize) as nat) + " chars"@,
{
    let n = text.len();
    let digits = u64_to_string(n as u64);
    concat3("Typed ", digits.as_str(), " chars")
}

/// What a wait for an element reports.
pub struct WaitReport {
    pub found: bool,
    pub element: Option<ElementInfo>,
    pub waited_ms: u64,
    pub message: String,
}

/// What a wait does after one search: report the element found, report
/// failure once the deadline has passed, or poll again (`None`).
pub fn wait_step(
    hit: Option<ElementInfo>,
    elapsed_ms: u64,
    deadline_passed: bool,
    timeout_ms: u64,
    role: Option<&str>,
    name: Option<&str>,
) -> (r: Option<WaitReport>)
    ensures
        match hit {
            Some(e) => r matches Some(rep) && rep.found && rep.element == Some(e) && rep.waited_ms
                == elapsed_ms && rep.message@ == "Element found"@,
            None => if deadline_passed {
                r matches Some(rep) && !rep.found && rep.element is None && rep.waited_ms
                    == timeout_ms && rep.message@ == "Element not found after "@ + decimal(
                    timeout_ms as nat,
                ) + "ms (role="@ + debug_text(opt_view(role)) + " name="@ + debug_text(
                    opt_view(name),
                ) + ")"@
            } else {
                r is None
            },
        },
{
    match hit {
        Some(e) => Some(
            WaitReport {
                found: true,
                element: Some(e),
                waited_ms: elapsed_ms,
                message: "Element found".to_owned(),
            },
        ),
        None => {
            if deadline_passed {
                let mut m = concat2("Element not found after ", u64_to_string(timeout_ms).as_str());
                push_str(&mut m, "ms (role=");
                push_str(&mut m, debug_option(role).as_str());
                push_str(&mut m, " name=");
                push_str(&mut m, debug_option(name).as_str());
                push_str(&mut m, ")");
                Some(
                    WaitReport {
                        found: false,
                        element: None,
                        waited_ms: timeout_ms,
                        message: m,
                    },
                )
            } else {
                None
            }
        },
    }
}

} // verus!
