//! Inputs and outputs of the AT-SPI tools, and the defaults of their optional inputs.

use vstd::prelude::*;
use crate::atspi::{ActionInfo, AppInfo, ElementId, ElementInfo, RelationEntry};
use crate::events::{events_for, events_not_for, AtspiEvent, EventQueue};
use crate::text::{concat3, decimal, u64_to_string};
use crate::json::JsonValue;
use crate::records::{BoundedRange, DocumentTextSelection, TextSelection};

verus! {

pub struct AtspiGetDesktopInput {
}

pub struct AtspiGetDesktopOutput {
    pub desktop_id: ElementId,
    pub applications: Vec<AppInfo>,
    pub application_count: usize,
}

pub struct AtspiGetApplicationsInput {
}

pub struct AtspiGetApplicationsOutput {
    pub applications: Vec<AppInfo>,
    pub count: usize,
}

pub struct AtspiGetElementInput {
    /// Element ID returned by a previous AT-SPI call (e.g. from atspi_get_applications).
    pub id: String,
}

pub struct AtspiGetElementOutput {
    pub element: ElementInfo,
}

pub struct AtspiGetChildrenInput {
    /// Element ID whose children to retrieve.
    pub id: String,
}

pub struct AtspiGetChildrenOutput {
    pub children: Vec<ElementInfo>,
    pub count: usize,
}

pub struct AtspiGetParentInput {
    /// Element ID whose parent to retrieve.
    pub id: String,
}

pub struct AtspiGetParentOutput {
    pub parent: Option<ElementInfo>,
    pub found: bool,
}

pub struct AtspiGetPropertiesInput {
    /// Element ID to query.
    pub id: String,
}

pub struct AtspiGetPropertiesOutput {
    pub id: ElementId,
    pub name: String,
    pub role: String,
    pub role_id: u32,
    pub description: String,
    pub states: Vec<String>,
    pub interfaces: Vec<String>,
    pub index_in_parent: i32,
    pub child_count: i32,
    pub position: Option<(i32, i32)>,
    pub size: Option<(i32, i32)>,
}

pub struct AtspiGetActionsInput {
    /// Element ID to query for actions.
    pub id: String,
}

pub struct AtspiGetActionsOutput {
    pub supported: bool,
    pub actions: Vec<ActionInfo>,
    pub count: usize,
    pub error: Option<String>,
}

pub struct AtspiDoActionInput {
    /// Element ID to perform the action on.
    pub id: String,
    /// Action name (e.g. "click", "press", "activate").
    /// If provided, index is ignored.
    pub action_name: Option<String>,
    /// Action index (0-based). Used only when action_name is not provided.
    pub index: i32,
}

pub struct AtspiDoActionOutput {
    pub success: bool,
    pub action_performed: String,
    pub error: Option<String>,
}

pub struct AtspiGetTextInput {
    /// Element ID to read text from.
    pub id: String,
    /// Start offset (default 0).
    pub start_offset: i32,
    /// End offset (-1 = all, default -1).
    pub end_offset: i32,
}

pub struct AtspiGetTextOutput {
    pub supported: bool,
    pub text: Option<String>,
    pub character_count: Option<i32>,
    pub caret_offset: Option<i32>,
    pub error: Option<String>,
}

pub struct AtspiSetTextInput {
    /// Element ID of the editable field.
    pub id: String,
    /// Text to set (replaces existing content).
    pub text: String,
}

pub struct AtspiSetTextOutput {
    pub supported: bool,
    pub success: bool,
    pub error: Option<String>,
}

pub struct AtspiGetPositionInput {
    /// Element ID to get position of.
    pub id: String,
}

pub struct AtspiGetPositionOutput {
    pub supported: bool,
    pub x: Option<i32>,
    pub y: Option<i32>,
    pub width: Option<i32>,
    pub height: Option<i32>,
    pub error: Option<String>,
}

pub struct AtspiGetSizeInput {
    /// Element ID to get size of.
    pub id: String,
}

pub struct AtspiGetSizeOutput {
    pub supported: bool,
    pub width: Option<i32>,
    pub height: Option<i32>,
    pub error: Option<String>,
}

pub struct AtspiScrollToInput {
    /// Element ID to scroll into view.
    pub id: String,
    /// Scroll type: "anywhere" (default), "top-left", "bottom-right",
    /// "top-edge", "bottom-edge", "left-edge", "right-edge".
    pub scroll_type: String,
}

pub struct AtspiScrollToOutput {
    pub supported: bool,
    pub success: bool,
    pub error: Option<String>,
}

pub struct AtspiGetValueInput {
    /// Element ID (slider, spinner, progress bar, etc.).
    pub id: String,
}

pub struct AtspiSetValueOutput {
    pub supported: bool,
    pub success: bool,
    pub error: Option<String>,
}

pub struct AtspiGetSelectionInput {
    /// Element ID of the container (list, combo box, etc.).
    pub id: String,
}

pub struct AtspiGetSelectionOutput {
    pub supported: bool,
    pub selected: Vec<ElementInfo>,
    pub count: usize,
    pub error: Option<String>,
}

pub struct AtspiSelectItemInput {
    /// Element ID of the container (list, combo box, etc.).
    pub id: String,
    /// Zero-based index of the child to select.
    pub index: i32,
}

pub struct AtspiSelectItemOutput {
    pub supported: bool,
    pub success: bool,
    pub error: Option<String>,
}

pub struct AtspiSubscribeEventsInput {
    /// Category shortcuts: "object", "window", "focus", "mouse", "keyboard",
    /// "document", "terminal", "all".
    /// OR fine-grained: "object:state-changed:focused", "window:create", etc.
    /// Multiple values are OR'd together.
    pub categories: Option<Vec<String>>,
    /// Fine-grained event names (can be combined with categories).
    pub event_names: Option<Vec<String>>,
}

pub struct AtspiSubscribeEventsOutput {
    pub subscription_id: String,
    pub subscribed_to: Vec<String>,
    pub message: String,
}

pub struct AtspiUnsubscribeEventsInput {
    /// Subscription ID returned by atspi_subscribe_events.
    pub subscription_id: String,
}

pub struct AtspiUnsubscribeEventsOutput {
    pub success: bool,
    pub message: String,
}

pub struct AtspiGetPendingEventsInput {
    /// Subscription ID to retrieve events for.
    /// If omitted, returns all buffered events across all subscriptions.
    pub subscription_id: Option<String>,
    /// Maximum number of events to return (default 50).
    pub max_events: usize,
}

pub struct AtspiGetPendingEventsOutput {
    pub events: Vec<AtspiEvent>,
    pub count: usize,
    pub message: String,
}

pub struct AtspiGetAttributesInput {
    /// Element ID to query.
    pub id: String,
}

pub struct AtspiGetAttributesOutput {
    pub supported: bool,
    pub attributes: Vec<(String, String)>,
    pub error: Option<String>,
}

pub struct AtspiGetRelationSetInput {
    pub id: String,
}

pub struct AtspiGetRelationSetOutput {
    pub supported: bool,
    pub relations: Vec<RelationEntry>,
    pub error: Option<String>,
}

pub struct AtspiGetChildAtIndexInput {
    pub id: String,
    /// Zero-based child index.
    pub index: i32,
}

pub struct AtspiGetChildAtIndexOutput {
    pub element: Option<ElementInfo>,
    pub error: Option<String>,
}

pub struct AtspiGetExtendedPropertiesInput {
    pub id: String,
}

pub struct AtspiGetExtendedPropertiesOutput {
    pub locale: String,
    pub accessible_id: String,
    pub help_text: String,
}

pub struct AtspiGrabFocusInput {
    pub id: String,
}

pub struct AtspiGrabFocusOutput {
    pub supported: bool,
    pub success: bool,
    pub error: Option<String>,
}

pub struct AtspiGetLayerInput {
    pub id: String,
}

pub struct AtspiContainsInput {
    pub id: String,
    pub x: i32,
    pub y: i32,
    /// "screen" (default) or "window".
    pub coord_type: String,
}

pub struct AtspiContainsOutput {
    pub supported: bool,
    pub contains: bool,
    pub error: Option<String>,
}

pub struct AtspiGetAccessibleAtPointInput {
    /// ID of the container element to search within.
    pub id: String,
    pub x: i32,
    pub y: i32,
    pub coord_type: String,
}

pub struct AtspiGetAccessibleAtPointOutput {
    pub supported: bool,
    pub element: Option<ElementInfo>,
    pub error: Option<String>,
}

pub struct AtspiScrollToPointInput {
    pub id: String,
    pub x: i32,
    pub y: i32,
    pub coord_type: String,
}

pub struct AtspiScrollToPointOutput {
    pub supported: bool,
    pub success: bool,
    pub error: Option<String>,
}

pub struct AtspiSetCaretOffsetInput {
    pub id: String,
    pub offset: i32,
}

pub struct AtspiSetCaretOffsetOutput {
    pub supported: bool,
    pub success: bool,
    pub error: Option<String>,
}

pub struct AtspiGetTextAtOffsetInput {
    pub id: String,
    pub offset: i32,
    /// Granularity: "char", "word", "sentence", "line" (default "word").
    pub granularity: String,
}

pub struct AtspiGetTextAtOffsetOutput {
    pub supported: bool,
    pub text: Option<String>,
    pub start_offset: Option<i32>,
    pub end_offset: Option<i32>,
    pub error: Option<String>,
}

pub struct AtspiGetCharacterExtentsInput {
    pub id: String,
    pub offset: i32,
    pub coord_type: String,
}

pub struct AtspiGetCharacterExtentsOutput {
    pub supported: bool,
    pub x: Option<i32>,
    pub y: Option<i32>,
    pub width: Option<i32>,
    pub height: Option<i32>,
    pub error: Option<String>,
}

pub struct AtspiGetOffsetAtPointInput {
    pub id: String,
    pub x: i32,
    pub y: i32,
    pub coord_type: String,
}

pub struct AtspiGetOffsetAtPointOutput {
    pub supported: bool,
    pub offset: Option<i32>,
    pub error: Option<String>,
}

pub struct AtspiGetTextSelectionsInput {
    pub id: String,
}

pub struct AtspiGetTextSelectionsOutput {
    pub supported: bool,
    pub selections: Vec<TextSelection>,
    pub count: usize,
    pub error: Option<String>,
}

pub struct AtspiSetTextSelectionInput {
    pub id: String,
    /// "add", "set" (modify selection 0), or "remove".
    pub action: String,
    /// Selection index (for set/remove). Default 0.
    pub selection_num: i32,
    pub start_offset: i32,
    pub end_offset: i32,
}

pub struct AtspiSetTextSelectionOutput {
    pub supported: bool,
    pub success: bool,
    pub error: Option<String>,
}

pub struct AtspiGetTextAttributesInput {
    pub id: String,
    /// Character offset to query. If omitted, returns default attributes.
    pub offset: Option<i32>,
}

pub struct AtspiGetTextAttributesOutput {
    pub supported: bool,
    pub attributes: Vec<(String, String)>,
    pub start_offset: Option<i32>,
    pub end_offset: Option<i32>,
    pub error: Option<String>,
}

pub struct AtspiEditTextInput {
    pub id: String,
    /// "cut", "paste", "copy", "insert", "delete", or "set".
    pub operation: String,
    pub start_offset: i32,
    pub end_offset: i32,
    /// For "paste" or "insert": position to paste/insert at.
    pub position: i32,
    /// For "insert" or "set": the text to insert/set.
    pub text: Option<String>,
}

pub struct AtspiEditTextOutput {
    pub supported: bool,
    pub success: bool,
    pub error: Option<String>,
}

pub struct AtspiDeselectItemInput {
    pub id: String,
    pub index: i32,
}

pub struct AtspiDeselectItemOutput {
    pub supported: bool,
    pub success: bool,
    pub error: Option<String>,
}

pub struct AtspiSelectAllInput {
    pub id: String,
}

pub struct AtspiSelectAllOutput {
    pub supported: bool, pub success: bool, pub error: Option<String>,
}

pub struct AtspiClearSelectionInput {
    pub id: String,
}

pub struct AtspiClearSelectionOutput {
    pub supported: bool, pub success: bool, pub error: Option<String>,
}

pub struct AtspiIsChildSelectedInput {
    pub id: String, pub index: i32,
}

pub struct AtspiIsChildSelectedOutput {
    pub supported: bool, pub selected: bool, pub error: Option<String>,
}

pub struct AtspiGetHyperlinksInput {
    pub id: String,
}

pub struct HyperlinkEntry {
    pub link_index: i32,
    pub link_id: String,
    pub n_anchors: i32,
    pub start_index: i32,
    pub end_index: i32,
    pub uris: Vec<String>,
}

pub struct AtspiGetHyperlinksOutput {
    pub supported: bool,
    pub n_links: i32,
    pub links: Vec<HyperlinkEntry>,
    pub error: Option<String>,
}

pub struct AtspiCollectionGetMatchesInput {
    /// Root element to search within (typically an application or window ID).
    pub id: String,
    /// Role numbers to match (empty = any role). Use atspi_get_properties to find role_id.
    pub roles: Vec<i32>,
    /// Interface names required (e.g. ["org.a11y.atspi.Action"]).
    pub interfaces: Vec<String>,
    /// Attribute key-value pairs to match.
    pub attributes: Vec<(String, String)>,
    /// Maximum results (0 = unlimited, default 50).
    pub count: i32,
    /// Sort order: "canonical" (default), "reverse".
    pub sort_order: String,
}

pub struct AtspiCollectionGetMatchesOutput {
    pub supported: bool,
    pub elements: Vec<ElementInfo>,
    pub count: usize,
    pub error: Option<String>,
}

pub struct AtspiGetActiveDescendantInput {
    pub id: String,
}

pub struct AtspiGetActiveDescendantOutput {
    pub supported: bool,
    pub element: Option<ElementInfo>,
    pub error: Option<String>,
}

pub struct AtspiGetDocumentInfoInput {
    pub id: String,
}

pub struct AtspiGetDocumentInfoOutput {
    pub supported: bool,
    pub locale: Option<String>,
    pub attributes: Option<Vec<(String, String)>>,
    pub current_page: Option<i32>,
    pub page_count: Option<i32>,
    pub error: Option<String>,
}

pub struct AtspiGetImageInfoInput {
    pub id: String,
}

pub struct AtspiGetImageInfoOutput {
    pub supported: bool,
    pub image_description: Option<String>,
    pub image_locale: Option<String>,
    pub x: Option<i32>,
    pub y: Option<i32>,
    pub width: Option<i32>,
    pub height: Option<i32>,
    pub error: Option<String>,
}

pub struct AtspiGetTableInfoInput {
    pub id: String,
}

pub struct AtspiGetTableInfoOutput {
    pub supported: bool,
    pub n_rows: Option<i32>,
    pub n_columns: Option<i32>,
    pub selected_rows: Option<Vec<i32>>,
    pub selected_columns: Option<Vec<i32>>,
    pub error: Option<String>,
}

pub struct AtspiGetTableCellInput {
    /// Element ID of the Table.
    pub id: String,
    pub row: i32,
    pub column: i32,
}

pub struct AtspiGetTableCellOutput {
    pub supported: bool,
    pub element: Option<ElementInfo>,
    pub row_span: Option<i32>,
    pub column_span: Option<i32>,
    pub error: Option<String>,
}

pub struct AtspiTableSelectRowInput {
    pub id: String, pub row: i32,
}

pub struct AtspiTableSelectRowOutput {
    pub supported: bool, pub success: bool, pub error: Option<String>,
}

pub struct AtspiTableSelectColumnInput {
    pub id: String, pub column: i32,
}

pub struct AtspiTableSelectColumnOutput {
    pub supported: bool, pub success: bool, pub error: Option<String>,
}

pub struct AtspiGetApplicationInfoInput {
    pub id: String,
}

pub struct AtspiGetApplicationInfoOutput {
    pub supported: bool,
    pub toolkit_name: Option<String>,
    pub toolkit_version: Option<String>,
    pub atspi_version: Option<String>,
    pub locale: Option<String>,
    pub error: Option<String>,
}

pub struct AtspiGetStatusInput {
}

pub struct AtspiGetStatusOutput {
    pub is_enabled: bool,
    pub screen_reader_enabled: bool,
}

pub struct AtspiScrollSubstringToInput {
    pub id: String,
    pub start_offset: i32,
    pub end_offset: i32,
    pub scroll_type: String,
}

pub struct AtspiScrollSubstringToOutput {
    pub supported: bool,
    pub success: bool,
    pub error: Option<String>,
}

pub struct AtspiGetActionDetailsInput {
    pub id: String,
    /// Action index (0-based).
    pub index: i32,
}

pub struct AtspiGetActionDetailsOutput {
    pub supported: bool,
    pub index: i32,
    pub name: Option<String>,
    pub description: Option<String>,
    pub localized_name: Option<String>,
    pub key_binding: Option<String>,
    pub n_actions: Option<i32>,
    pub error: Option<String>,
}

pub struct AtspiSetGeometryInput {
    pub id: String,
    /// Operation: "extents" (x,y,w,h), "position" (x,y), or "size" (w,h).
    pub operation: String,
    pub x: Option<i32>,
    pub y: Option<i32>,
    pub width: Option<i32>,
    pub height: Option<i32>,
    /// "screen" (default) or "window".
    pub coord_type: String,
}

pub struct AtspiSetGeometryOutput {
    pub supported: bool,
    pub success: bool,
    pub error: Option<String>,
}

pub struct AtspiGetStringAtOffsetInput {
    pub id: String,
    pub offset: i32,
    /// "char"(0), "word_start"(1), "word_end"(2), "sentence_start"(3),
    /// "sentence_end"(4), "line_start"(5), "line_end"(6).
    /// Default "word_start".
    pub granularity: String,
}

pub struct AtspiGetStringAtOffsetOutput {
    pub supported: bool,
    pub text: Option<String>,
    pub start_offset: Option<i32>,
    pub end_offset: Option<i32>,
    pub error: Option<String>,
}

pub struct AtspiGetTextAttributeValueInput {
    pub id: String,
    pub offset: i32,
    /// Attribute name, e.g. "font-size", "font-family", "color".
    pub attribute_name: String,
}

pub struct AtspiGetTextAttributeValueOutput {
    pub supported: bool,
    pub value: Option<String>,
    pub error: Option<String>,
}

pub struct AtspiGetRangeExtentsInput {
    pub id: String,
    pub start_offset: i32,
    pub end_offset: i32,
    pub coord_type: String,
}

pub struct AtspiGetRangeExtentsOutput {
    pub supported: bool,
    pub x: Option<i32>,
    pub y: Option<i32>,
    pub width: Option<i32>,
    pub height: Option<i32>,
    pub error: Option<String>,
}

pub struct AtspiGetBoundedRangesInput {
    pub id: String,
    pub x: i32,
    pub y: i32,
    pub width: i32,
    pub height: i32,
    pub coord_type: String,
    /// "none"(0), "min"(1), "max"(2), "both"(3). Default "none".
    pub x_clip_type: String,
    pub y_clip_type: String,
}

pub struct AtspiGetBoundedRangesOutput {
    pub supported: bool,
    pub ranges: Vec<BoundedRange>,
    pub count: usize,
    pub error: Option<String>,
}

pub struct AtspiGetAttributeRunInput {
    pub id: String,
    pub offset: i32,
    /// If true, merge default attributes into the result. Default true.
    pub include_defaults: bool,
}

pub struct AtspiGetAttributeRunOutput {
    pub supported: bool,
    pub attributes: Option<Vec<(String, String)>>,
    pub start_offset: Option<i32>,
    pub end_offset: Option<i32>,
    pub error: Option<String>,
}

pub struct AtspiGetDefaultAttributeSetInput {
    pub id: String,
}

pub struct AtspiGetDefaultAttributeSetOutput {
    pub supported: bool,
    pub attributes: Option<Vec<(String, String)>>,
    pub error: Option<String>,
}

pub struct AtspiScrollSubstringToPointInput {
    pub id: String,
    pub start_offset: i32,
    pub end_offset: i32,
    pub x: i32,
    pub y: i32,
    pub coord_type: String,
}

pub struct AtspiScrollSubstringToPointOutput {
    pub supported: bool,
    pub success: bool,
    pub error: Option<String>,
}

pub struct AtspiCollectionGetMatchesToInput {
    /// Root element to search within.
    pub id: String,
    /// Current object path to search backwards from (element ID).
    pub current_object_id: String,
    pub roles: Vec<i32>,
    pub interfaces: Vec<String>,
    pub attributes: Vec<(String, String)>,
    pub count: i32,
    pub sort_order: String,
    /// Whether to limit the search scope. Default false.
    pub limit_scope: bool,
}

pub struct AtspiCollectionGetMatchesToOutput {
    pub supported: bool,
    pub elements: Vec<ElementInfo>,
    pub count: usize,
    pub error: Option<String>,
}

pub struct AtspiGetDocumentTextSelectionsInput {
    pub id: String,
}

pub struct AtspiGetDocumentTextSelectionsOutput {
    pub supported: bool,
    pub selections: Vec<DocumentTextSelection>,
    pub count: usize,
    pub error: Option<String>,
}

pub struct AtspiDocumentTextSelectionItem {
    pub start_id: String,
    pub start_offset: i32,
    pub end_id: String,
    pub end_offset: i32,
    pub start_is_active: bool,
}

pub struct AtspiSetDocumentTextSelectionsInput {
    pub id: String,
    pub selections: Vec<AtspiDocumentTextSelectionItem>,
}

pub struct AtspiSetDocumentTextSelectionsOutput {
    pub supported: bool,
    pub success: bool,
    pub error: Option<String>,
}

pub struct AtspiGetTableSelectionCountsInput {
    pub id: String,
}

pub struct AtspiGetTableSelectionCountsOutput {
    pub supported: bool,
    pub n_selected_rows: Option<i32>,
    pub n_selected_columns: Option<i32>,
    pub error: Option<String>,
}

pub struct AtspiGetRegisteredEventsInput {
}

pub struct AtspiGetRegisteredEventsOutput {
    pub events: Vec<(String, String)>,
    pub count: usize,
}

/// The value used when the `true` input is not given.
pub fn default_true() -> (r: bool)
    ensures
        r == true,
{
    true
}

/// The value used when the `neg1` input is not given.
pub fn default_neg1() -> (r: i32)
    ensures
        r == -1,
{
    -1
}

/// The value used when the `scroll_type` input is not given.
pub fn default_scroll_type() -> (r: String)
    ensures
        r@ == "anywhere"@,
{
    "anywhere".to_owned()
}

/// The value used when the `max_events` input is not given.
pub fn default_max_events() -> (r: usize)
    ensures
        r == 50,
{
    50
}

/// The message of the pending-events tool for `count` events handed back.
pub open spec fn pending_events_message(count: nat) -> Seq<char> {
    if count == 0 {
        "No pending events. Make sure to subscribe first with atspi_subscribe_events."@
    } else {
        "Retrieved "@ + decimal(count) + " event(s)"@
    }
}

/// The events that a pending-events request drains from a buffer: those of
/// the named subscription, or all of them.
pub open spec fn drained_events(buf: Seq<AtspiEvent>, sub: Option<Seq<char>>) -> Seq<AtspiEvent> {
    match sub {
        Some(id) => events_for(buf, id),
        None => buf,
    }
}

/// The events that stay in the buffer after a pending-events request.
pub open spec fn remaining_events(buf: Seq<AtspiEvent>, sub: Option<Seq<char>>) -> Seq<AtspiEvent> {
    match sub {
        Some(id) => events_not_for(buf, id),
        None => Seq::empty(),
    }
}

/// Drain the buffered events of one subscription (or of all), and hand back
/// at most `max_events` of them, oldest first, with their count and a
/// message. The events past `max_events` are dropped.
pub fn atspi_get_pending_events(queue: &mut EventQueue, input: AtspiGetPendingEventsInput) -> (r:
    AtspiGetPendingEventsOutput)
    requires
        old(queue).wf(),
    ensures
        final(queue).wf(),
        ({
            let sub = match input.subscription_id {
                Some(id) => Some(id@),
                None => None,
            };
            let drained = drained_events(old(queue).events(), sub);
            &&& r.events@ == drained.take(
                if input.max_events < drained.len() {
                    input.max_events as int
                } else {
                    drained.len() as int
                },
            )
            &&& final(queue).events() == remaining_events(old(queue).events(), sub)
        }),
        r.count == r.events@.len(),
        r.message@ == pending_events_message(r.count as nat),
        final(queue).capacity() == old(queue).capacity(),
        final(queue).subscriptions() == old(queue).subscriptions(),
        final(queue).subscription_entries() == old(queue).subscription_entries(),
{
    let mut evs = match &input.subscription_id {
        Some(id) => queue.drain_for(id.as_str()),
        None => queue.drain_all(),
    };
    evs.truncate(input.max_events);
    let count = evs.len();
    let message = if count == 0 {
        "No pending events. Make sure to subscribe first with atspi_subscribe_events.".to_owned()
    } else {
        let digits = u64_to_string(count as u64);
        concat3("Retrieved ", digits.as_str(), " event(s)")
    };
    AtspiGetPendingEventsOutput { events: evs, count, message }
}

/// The value used when the `coord_screen` input is not given.
pub fn default_coord_screen() -> (r: String)
    ensures
        r@ == "screen"@,
{
    "screen".to_owned()
}

/// The value used when the `granularity` input is not given.
pub fn default_granularity() -> (r: String)
    ensures
        r@ == "word"@,
{
    "word".to_owned()
}

/// The value used when the `sel_action` input is not given.
pub fn default_sel_action() -> (r: String)
    ensures
        r@ == "add"@,
{
    "add".to_owned()
}

/// The value used when the `collection_count` input is not given.
pub fn default_collection_count() -> (r: i32)
    ensures
        r == 50,
{
    50
}

/// The value used when the `sort_canonical` input is not given.
pub fn default_sort_canonical() -> (r: String)
    ensures
        r@ == "canonical"@,
{
    "canonical".to_owned()
}

/// The value used when the `clip_none` input is not given.
pub fn default_clip_none() -> (r: String)
    ensures
        r@ == "none"@,
{
    "none".to_owned()
}

} // verus!
