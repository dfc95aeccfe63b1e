//! Inputs and outputs of the screenshot tools, and the defaults of their optional inputs.

use vstd::prelude::*;

verus! {

/// Take a screenshot from an active session
pub struct TakeScreenshotInput {
    /// Session ID
    pub session_id: String,
    /// Image format (png or jpeg)
    pub format: String,
    /// JPEG quality (1-100, only used for jpeg format)
    pub quality: u8,
}

pub struct TakeScreenshotOutput {
    pub format: String,
    pub width: u32,
    pub height: u32,
    pub data_base64: String,
}

/// Pick a color from the screen
pub struct PickColorInput {
}

/// Take a SIMPLE screenshot (one-shot, no session needed)
/// This uses the Screenshot portal which shows a dialog each time,
/// but is much simpler and more reliable than screencast-based capture.
pub struct SimpleScreenshotInput {
}

pub struct SimpleScreenshotOutput {
    /// URI/path to the saved screenshot file
    pub uri: String,
    /// Message
    pub message: String,
}

/// The value used when the `format` input is not given.
pub fn default_format() -> (r: String)
    ensures
        r@ == "jpeg"@,
{
    "jpeg".to_owned()
}

/// The value used when the `quality` input is not given.
pub fn default_quality() -> (r: u8)
    ensures
        r == 85,
{
    85
}

} // verus!
