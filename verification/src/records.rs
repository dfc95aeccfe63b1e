//! Records returned by the AT-SPI text, document, hyperlink, image and collection interfaces.

use vstd::prelude::*;
use crate::atspi::{ElementId, string_views};
use crate::events::clone_strings;

verus! {

/// A text selection range.
pub struct TextSelection {
    pub start_offset: i32,
    pub end_offset: i32,
}

/// A bounding box for a text range.
pub struct TextRangeExtents {
    pub x: i32,
    pub y: i32,
    pub width: i32,
    pub height: i32,
}

/// A clipped text range with bounding box.
pub struct BoundedRange {
    pub start_offset: i32,
    pub end_offset: i32,
    pub content: String,
}

/// A run of text with a uniform set of attributes.
pub struct AttributeRun {
    pub attributes: Vec<(String, String)>,
    pub start_offset: i32,
    pub end_offset: i32,
}

/// A document-level text selection spanning two accessible objects.
pub struct DocumentTextSelection {
    pub start_id: String,
    pub start_offset: i32,
    pub end_id: String,
    pub end_offset: i32,
    pub start_is_active: bool,
}

/// Hyperlink properties from the Properties interface.
pub struct HyperlinkInfo {
    pub id: ElementId,
    pub n_anchors: i32,
    pub start_index: i32,
    pub end_index: i32,
}

/// A summary of all image properties.
pub struct ImageInfo {
    pub image_description: String,
    pub image_locale: String,
    pub x: i32,
    pub y: i32,
    pub width: i32,
    pub height: i32,
}

/// A Collection match rule.
///
/// All fields are optional. Unset fields mean "any" (no filter applied).
pub struct MatchRule {
    /// State words to match (2 u32 bitmasks). Empty = any.
    pub states: Vec<u32>,
    /// How to match states: 0=ANY, 1=ALL, 2=NONE, 3=EMPTY.
    pub states_match_type: i32,
    /// Attribute key-value pairs to match. Empty = any.
    pub attributes: Vec<(String, String)>,
    /// How to match attributes: 0=ANY, 1=ALL, 2=NONE, 3=EMPTY.
    pub attributes_match_type: i32,
    /// Role numbers to match. Empty = any.
    pub roles: Vec<i32>,
    /// Role count (same as roles.len(), or 0 for any).
    pub roles_match_type: i32,
    /// Interface names to match (e.g. "org.a11y.atspi.Action"). Empty = any.
    pub interfaces: Vec<String>,
    /// How to match interfaces: 0=ANY, 1=ALL, 2=NONE, 3=EMPTY.
    pub interfaces_match_type: i32,
    /// Invert the match result.
    pub invert: bool,
}

/// The views of a list of string pairs.
pub open spec fn pair_views(v: Seq<(String, String)>) -> Seq<(Seq<char>, Seq<char>)> {
    Seq::new(v.len(), |i: int| (v[i].0@, v[i].1@))
}

/// A copy of a list of string pairs.
pub fn clone_pairs(v: &Vec<(String, String)>) -> (r: Vec<(String, String)>)
    ensures
        pair_views(r@) == pair_views(v@),
{
    let mut r: Vec<(String, String)> = Vec::new();
    let mut i: usize = 0;
    while i < v.len()
        invariant
            i <= v@.len(),
            r@.len() == i,
            forall|k: int| 0 <= k < i ==> (#[trigger] r@[k]).0@ == v@[k].0@ && r@[k].1@ == v@[k].1@,
        decreases v.len() - i,
    {
        r.push((v[i].0.clone(), v[i].1.clone()));
        i = i + 1;
    }
    assert(pair_views(r@) =~= pair_views(v@));
    r
}

/// A copy of a list of integers.
fn copy_ints<T: Copy>(v: &Vec<T>) -> (r: Vec<T>)
    ensures
        r@ == v@,
{
    let mut r: Vec<T> = Vec::new();
    let mut i: usize = 0;
    while i < v.len()
        invariant
            i <= v@.len(),
            r@ == v@.subrange(0, i as int),
        decreases v.len() - i,
    {
        r.push(v[i]);
        i = i + 1;
        assert(r@ =~= v@.subrange(0, i as int));
    }
    assert(v@.subrange(0, v@.len() as int) =~= v@);
    r
}

/// A match rule in the AT-SPI wire layout `(aiia{ss}iaiiasib)`: states,
/// states match type, attributes, attributes match type, roles, roles match
/// type, interfaces, interfaces match type, invert.
pub type EncodedMatchRule = (
    Vec<u32>,
    i32,
    Vec<(String, String)>,
    i32,
    Vec<i32>,
    i32,
    Vec<String>,
    i32,
    bool,
);

/// Encode a match rule in the AT-SPI wire layout; no states are sent as two
/// zero state words.
pub fn encode_match_rule(rule: &MatchRule) -> (r: EncodedMatchRule)
    ensures
        r.0@ == if rule.states@.len() == 0 {
            seq![0u32, 0u32]
        } else {
            rule.states@
        },
        r.1 == rule.states_match_type,
        pair_views(r.2@) == pair_views(rule.attributes@),
        r.3 == rule.attributes_match_type,
        r.4@ == rule.roles@,
        r.5 == rule.roles_match_type,
        string_views(r.6@) == string_views(rule.interfaces@),
        r.7 == rule.interfaces_match_type,
        r.8 == rule.invert,
{
    let states = if rule.states.len() == 0 {
        let v = vec![0u32, 0u32];
        assert(v@ =~= seq![0u32, 0u32]);
        v
    } else {
        copy_ints(&rule.states)
    };
    (
        states,
        rule.states_match_type,
        clone_pairs(&rule.attributes),
        rule.attributes_match_type,
        copy_ints(&rule.roles),
        rule.roles_match_type,
        clone_strings(&rule.interfaces),
        rule.interfaces_match_type,
        rule.invert,
    )
}

} // verus!
