//! Inputs and outputs of the high-level UI tools, and the defaults of their optional inputs.

use vstd::prelude::*;
use crate::atspi::{ElementId, ElementInfo, UiTreeNode};

verus! {

pub struct FindElementInput {
    /// Element role to search for (e.g. "push button", "text", "menu item").
    /// Case-insensitive partial match.
    pub role: Option<String>,
    /// Element name to search for. Case-insensitive partial match.
    pub name: Option<String>,
    /// Limit search to a specific application name (partial match).
    pub app_name: Option<String>,
    /// Maximum number of results (default 10).
    pub max_results: u32,
}

pub struct FindElementOutput {
    pub elements: Vec<ElementInfo>,
    pub count: usize,
}

pub struct FindFocusedInput {
}

pub struct FindFocusedOutput {
    pub element: Option<ElementInfo>,
    pub found: bool,
}

pub struct ClickElementInput {
    /// Element ID returned by a previous find/search call.
    /// If provided, clicks this element directly.
    pub id: Option<String>,
    /// Find by name (used if id is not provided).
    pub name: Option<String>,
    /// Find by role (used if id is not provided).
    pub role: Option<String>,
    /// Limit search to this application.
    pub app_name: Option<String>,
    /// Action to perform (default "click").
    pub action: String,
}

pub struct ClickElementOutput {
    pub success: bool,
    pub element: ElementInfo,
    pub message: String,
}

pub struct TypeIntoInput {
    /// Element ID of the text field. If not provided, searches by name/role.
    pub id: Option<String>,
    /// Name of the text field to search for.
    pub field_name: Option<String>,
    /// Text to insert.
    pub text: String,
    /// If true, clears existing content before typing (default true).
    pub clear_first: bool,
    /// Insertion offset (default 0 when clearing, else appends at end).
    pub offset: Option<i32>,
}

pub struct TypeIntoOutput {
    pub success: bool,
    pub element: ElementInfo,
    pub message: String,
}

pub struct ReadElementTextInput {
    /// Element ID. If not provided, searches by name/role.
    pub id: Option<String>,
    /// Name to search for.
    pub name: Option<String>,
    /// Role to search for.
    pub role: Option<String>,
    /// Limit to this application.
    pub app_name: Option<String>,
}

pub struct ReadElementTextOutput {
    pub text: String,
    pub length: i32,
    pub element_name: String,
    pub element_role: String,
}

pub struct GetUiTreeInput {
    /// Root element ID (defaults to the desktop root).
    pub id: Option<String>,
    /// How many levels deep to traverse (default 3, max 6).
    pub depth: u32,
    /// Limit to this application name.
    pub app_name: Option<String>,
}

pub struct GetUiTreeOutput {
    pub tree: Vec<UiTreeNode>,
}

pub struct GetWindowListInput {
    /// Limit to this application name (optional).
    pub app_name: Option<String>,
}

pub struct WindowInfo {
    pub id: ElementId,
    pub title: String,
    pub app_name: String,
    pub states: Vec<String>,
    pub position: Option<(i32, i32)>,
    pub size: Option<(i32, i32)>,
}

pub struct GetWindowListOutput {
    pub windows: Vec<WindowInfo>,
    pub count: usize,
}

pub struct WaitForElementInput {
    /// Role to search for.
    pub role: Option<String>,
    /// Name to search for.
    pub name: Option<String>,
    /// Application to search in.
    pub app_name: Option<String>,
    /// Maximum wait time in milliseconds (default 5000).
    pub timeout_ms: u64,
    /// Polling interval in milliseconds (default 200).
    pub interval_ms: u64,
}

pub struct WaitForElementOutput {
    pub found: bool,
    pub element: Option<ElementInfo>,
    pub waited_ms: u64,
    pub message: String,
}

pub struct RefreshUiCacheInput {
}

pub struct RefreshUiCacheOutput {
    pub message: String,
    pub application_count: usize,
}

/// The value used when the `max_results` input is not given.
pub fn default_max_results() -> (r: u32)
    ensures
        r == 10,
{
    10
}

/// The value used when the `click_action` input is not given.
pub fn default_click_action() -> (r: String)
    ensures
        r@ == "click"@,
{
    "click".to_owned()
}

/// The value used when the `true` input is not given.
pub fn default_true() -> (r: bool)
    ensures
        r == true,
{
    true
}

/// The value used when the `depth` input is not given.
pub fn default_depth() -> (r: u32)
    ensures
        r == 3,
{
    3
}

/// The value used when the `timeout_ms` input is not given.
pub fn default_timeout_ms() -> (r: u64)
    ensures
        r == 5000,
{
    5000
}

/// The value used when the `interval_ms` input is not given.
pub fn default_interval_ms() -> (r: u64)
    ensures
        r == 200,
{
    200
}

} // verus!
