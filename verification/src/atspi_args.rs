//! AT-SPI tool arguments read into the numbers and operations of the
//! accessibility interfaces.

use vstd::prelude::*;
use crate::text::{concat2, concat3, i64_to_string, int_decimal, str_eq};

verus! {

/// Coordinates relative to the screen.
pub const COORD_TYPE_SCREEN: u32 = 0;

/// Coordinates relative to the window.
pub const COORD_TYPE_WINDOW: u32 = 1;

/// The scroll type a name gives: `top-left` 0, `bottom-right` 1, `top-edge`
/// 2, `bottom-edge` 3, `left-edge` 4, `right-edge` 5, anything else 6
/// (anywhere).
pub open spec fn scroll_type_named(s: Seq<char>) -> u32 {
    if s == "top-left"@ {
        0
    } else if s == "bottom-right"@ {
        1
    } else if s == "top-edge"@ {
        2
    } else if s == "bottom-edge"@ {
        3
    } else if s == "left-edge"@ {
        4
    } else if s == "right-edge"@ {
        5
    } else {
        6
    }
}

/// The scroll type a name gives.
pub fn scroll_type_code(s: &str) -> (r: u32)
    ensures
        r == scroll_type_named(s@),
{
    if str_eq(s, "top-left") {
        0
    } else if str_eq(s, "bottom-right") {
        1
    } else if str_eq(s, "top-edge") {
        2
    } else if str_eq(s, "bottom-edge") {
        3
    } else if str_eq(s, "left-edge") {
        4
    } else if str_eq(s, "right-edge") {
        5
    } else {
        6
    }
}

/// The text boundary a granularity gives for reading text at an offset:
/// `char` 0, `word` 1, `sentence` 3, `line` 5, anything else a word (1).
pub fn text_boundary(g: &str) -> (r: u32)
    ensures
        r == if g@ == "char"@ {
            0u32
        } else if g@ == "word"@ {
            1u32
        } else if g@ == "sentence"@ {
            3u32
        } else if g@ == "line"@ {
            5u32
        } else {
            1u32
        },
{
    if str_eq(g, "char") {
        0
    } else if str_eq(g, "word") {
        1
    } else if str_eq(g, "sentence") {
        3
    } else if str_eq(g, "line") {
        5
    } else {
        1
    }
}

/// The granularity a name gives for reading the string at an offset:
/// `char` 0, `word_start` 1, `word_end` 2, `sentence_start` 3,
/// `sentence_end` 4, `line_start` 5, `line_end` 6, anything else 1.
pub open spec fn string_granularity_named(g: Seq<char>) -> u32 {
    if g == "char"@ {
        0
    } else if g == "word_start"@ {
        1
    } else if g == "word_end"@ {
        2
    } else if g == "sentence_start"@ {
        3
    } else if g == "sentence_end"@ {
        4
    } else if g == "line_start"@ {
        5
    } else if g == "line_end"@ {
        6
    } else {
        1
    }
}

/// The granularity a name gives for reading the string at an offset.
pub fn string_granularity(g: &str) -> (r: u32)
    ensures
        r == string_granularity_named(g@),
{
    if str_eq(g, "char") {
        0
    } else if str_eq(g, "word_start") {
        1
    } else if str_eq(g, "word_end") {
        2
    } else if str_eq(g, "sentence_start") {
        3
    } else if str_eq(g, "sentence_end") {
        4
    } else if str_eq(g, "line_start") {
        5
    } else if str_eq(g, "line_end") {
        6
    } else {
        1
    }
}

/// The clip type a name gives: `min` 1, `max` 2, `both` 3, anything else 0.
pub fn clip_type(s: &str) -> (r: u32)
    ensures
        r == if s@ == "min"@ {
            1u32
        } else if s@ == "max"@ {
            2u32
        } else if s@ == "both"@ {
            3u32
        } else {
            0u32
        },
{
    if str_eq(s, "min") {
        1
    } else if str_eq(s, "max") {
        2
    } else if str_eq(s, "both") {
        3
    } else {
        0
    }
}

/// The coordinate type a name gives: relative to the window for `window`,
/// else to the screen.
pub fn coord_type(s: &str) -> (r: u32)
    ensures
        r == if s@ == "window"@ {
            COORD_TYPE_WINDOW
        } else {
            COORD_TYPE_SCREEN
        },
{
    if str_eq(s, "window") {
        COORD_TYPE_WINDOW
    } else {
        COORD_TYPE_SCREEN
    }
}

/// An edit of a text element.
#[derive(PartialEq, Eq, Structural, Clone, Copy, Debug)]
pub enum EditOperation {
    Cut,
    Paste,
    Copy,
    Delete,
    Insert,
    SetContents,
}

/// The edit an operation name asks for: `cut`, `paste`, `copy`, `delete`,
/// `insert`, and replacing the contents for `set` or anything else.
pub open spec fn edit_named(s: Seq<char>) -> EditOperation {
    if s == "cut"@ {
        EditOperation::Cut
    } else if s == "paste"@ {
        EditOperation::Paste
    } else if s == "copy"@ {
        EditOperation::Copy
    } else if s == "delete"@ {
        EditOperation::Delete
    } else if s == "insert"@ {
        EditOperation::Insert
    } else {
        EditOperation::SetContents
    }
}

/// The edit an operation name asks for.
pub fn edit_operation(s: &str) -> (r: EditOperation)
    ensures
        r == edit_named(s@),
{
    if str_eq(s, "cut") {
        EditOperation::Cut
    } else if str_eq(s, "paste") {
        EditOperation::Paste
    } else if str_eq(s, "copy") {
        EditOperation::Copy
    } else if str_eq(s, "delete") {
        EditOperation::Delete
    } else if str_eq(s, "insert") {
        EditOperation::Insert
    } else {
        EditOperation::SetContents
    }
}

/// A change to a text selection.
#[derive(PartialEq, Eq, Structural, Clone, Copy, Debug)]
pub enum SelectionAction {
    Replace,
    Remove,
    Add,
}

/// The selection change an action name asks for: replacing one for `set`, `remove`, and adding
/// a selection otherwise.
pub fn selection_action(s: &str) -> (r: SelectionAction)
    ensures
        r == if s@ == "set"@ {
            SelectionAction::Replace
        } else if s@ == "remove"@ {
            SelectionAction::Remove
        } else {
            SelectionAction::Add
        },
{
    if str_eq(s, "set") {
        SelectionAction::Replace
    } else if str_eq(s, "remove") {
        SelectionAction::Remove
    } else {
        SelectionAction::Add
    }
}

/// A change to an element's geometry.
#[derive(PartialEq, Eq, Structural, Clone, Copy, Debug)]
pub enum GeometryOperation {
    Position,
    Size,
    Extents,
}

/// The geometry change an operation name asks for: `position`, `size`, and
/// the full extents otherwise.
pub fn geometry_operation(s: &str) -> (r: GeometryOperation)
    ensures
        r == if s@ == "position"@ {
            GeometryOperation::Position
        } else if s@ == "size"@ {
            GeometryOperation::Size
        } else {
            GeometryOperation::Extents
        },
{
    if str_eq(s, "position") {
        GeometryOperation::Position
    } else if str_eq(s, "size") {
        GeometryOperation::Size
    } else {
        GeometryOperation::Extents
    }
}

/// A read from offset 0 to -1 asks for the whole text, with its length and
/// caret; any other pair of offsets for that range alone.
pub fn reads_whole_text(start_offset: i32, end_offset: i32) -> (r: bool)
    ensures
        r == (start_offset == 0 && end_offset == -1),
{
    start_offset == 0 && end_offset == -1
}

/// The sort order a name gives for collection searches: reverse canonical (4)
/// for `reverse`, canonical (1) otherwise.
pub fn sort_order_code(s: &str) -> (r: u32)
    ensures
        r == if s@ == "reverse"@ {
            4u32
        } else {
            1u32
        },
{
    if str_eq(s, "reverse") {
        4
    } else {
        1
    }
}

/// How an action performed by name is reported: `name (index i)`.
pub fn named_action_text(name: &str, index: i32) -> (r: String)
    ensures
        r@ == name@ + " (index "@ + int_decimal(index as int) + ")"@,
{
    let n = i64_to_string(index as i64);
    let head = concat3(name, " (index ", n.as_str());
    concat2(head.as_str(), ")")
}

/// How an action performed by index is reported: `index i`.
pub fn indexed_action_text(index: i32) -> (r: String)
    ensures
        r@ == "index "@ + int_decimal(index as int),
{
    let n = i64_to_string(index as i64);
    concat2("index ", n.as_str())
}

} // verus!
