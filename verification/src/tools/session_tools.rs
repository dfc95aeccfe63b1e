//! Inputs and outputs of the session tools, and the defaults of their optional inputs.

use vstd::prelude::*;
use crate::atspi::string_views;

verus! {

/// Start a new remote desktop session
pub struct StartSessionInput {
    /// Device types to enable (keyboard, pointer, touchscreen)
    pub devices: Vec<String>,
    /// Enable screencast for viewing the desktop
    pub with_screencast: bool,
    /// Enable clipboard access (read/write clipboard)
    pub with_clipboard: bool,
}

pub struct StartSessionOutput {
    pub session_id: String,
    pub devices: Vec<String>,
    pub with_screencast: bool,
    pub clipboard_enabled: bool,
}

/// Stop an active session
pub struct StopSessionInput {
    pub session_id: String,
}

pub struct StopSessionOutput {
    pub success: bool,
    pub message: String,
}

/// The value used when the `devices` input is not given.
pub fn default_devices() -> (r: Vec<String>)
    ensures
        string_views(r@) == seq!["keyboard"@, "pointer"@],
{
    let r = vec!["keyboard".to_owned(), "pointer".to_owned()];
    assert(string_views(r@) =~= seq!["keyboard"@, "pointer"@]);
    r
}

/// The value used when the `with_screencast` input is not given.
pub fn default_with_screencast() -> (r: bool)
    ensures
        r == true,
{
    true
}

/// The value used when the `with_clipboard` input is not given.
pub fn default_with_clipboard() -> (r: bool)
    ensures
        r == true,
{
    true
}

} // verus!
