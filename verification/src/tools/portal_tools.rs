//! Inputs and outputs of the XDG portal tools, and the defaults of their optional inputs.

use vstd::prelude::*;
use crate::json::JsonValue;

verus! {

pub struct SendNotificationInput {
    /// Unique notification ID (for later removal)
    pub id: String,
    /// Notification title
    pub title: String,
    /// Optional body text
    pub body: Option<String>,
    /// Priority: low, normal, high, urgent
    pub priority: Option<String>,
}

pub struct SendNotificationOutput {
    pub success: bool,
    pub message: String,
}

pub struct OpenUriInput {
    /// URI to open (https://, file://, etc.)
    pub uri: String,
}

pub struct OpenUriOutput {
    pub success: bool,
    pub message: String,
}

pub struct OpenFileInput {
    /// Local file path to open in the default application.
    pub path: String,
}

pub struct OpenDirectoryInput {
    /// Local directory path to open in the file manager.
    pub path: String,
}

pub struct SchemeSupportedInput {
    /// URI scheme to check (e.g. "https", "ftp", "mailto").
    pub scheme: String,
}

pub struct SchemeSupportedOutput {
    pub scheme: String,
    pub supported: bool,
}

pub struct OpenFileDialogInput {
    /// Dialog title
    pub title: String,
    /// Allow selecting multiple files
    pub multiple: bool,
    /// Select directories instead of files
    pub directory: bool,
}

pub struct FileDialogOutput {
    /// Selected file URIs
    pub uris: Vec<String>,
    pub count: usize,
}

pub struct SaveFileDialogInput {
    /// Dialog title
    pub title: String,
    /// Suggested file name
    pub suggested_name: Option<String>,
}

pub struct ReadSettingInput {
    /// Settings namespace (e.g. "org.freedesktop.appearance")
    pub namespace: String,
    /// Setting key (e.g. "color-scheme")
    pub key: String,
}

pub struct ReadSettingOutput {
    pub namespace: String,
    pub key: String,
    pub value: String,
}

pub struct GetAppearanceInput {
}

pub struct GetAppearanceOutput {
    /// Color scheme: "default", "dark", or "light"
    pub color_scheme: String,
    /// Accent color as hex string, if available
    pub accent_color: Option<String>,
}

pub struct NetworkStatusInput {
}

pub struct NetworkStatusOutput {
    pub available: bool,
    pub metered: bool,
    pub connectivity: String,
}

pub struct SetWallpaperInput {
    /// URI to image file (file:// or https://)
    pub uri: String,
    /// Show preview dialog before setting
    pub show_preview: bool,
}

pub struct SetWallpaperOutput {
    pub success: bool,
    pub message: String,
}

pub struct TrashFileInput {
    /// Path to the file to trash
    pub path: String,
}

pub struct TrashFileOutput {
    pub success: bool,
    pub message: String,
}

pub struct ClipboardReadInput {
    /// Session ID (must have clipboard enabled)
    pub session_id: String,
}

pub struct ClipboardReadOutput {
    pub text: String,
    pub length: usize,
}

pub struct ClipboardWriteInput {
    /// Session ID (must have clipboard enabled)
    pub session_id: String,
    /// Text to write to clipboard
    pub text: String,
}

pub struct ClipboardWriteOutput {
    pub success: bool,
    pub message: String,
}

pub struct SaveFilesDialogInput {
    /// Dialog title.
    pub title: String,
    /// Suggested filenames for each file to save.
    pub filenames: Vec<String>,
}

pub struct SetWallpaperFileInput {
    /// Local file path to the image.
    pub path: String,
    pub show_preview: bool,
}

pub struct ReadAllSettingsInput {
    /// List of namespaces to read (e.g. ["org.freedesktop.appearance"]).
    /// Leave empty to read common appearance namespace.
    pub namespaces: Vec<String>,
}

pub struct ReadAllSettingsOutput {
    pub settings: Vec<(String, Vec<(String, String)>)>,
}

pub struct CanReachInput {
    /// Hostname to check reachability for.
    pub hostname: String,
    /// Port to check (default 80).
    pub port: u32,
}

pub struct CanReachOutput {
    pub hostname: String,
    pub port: u32,
    pub reachable: bool,
}

pub struct GetUserInformationInput {
    /// Reason shown to user in the permission dialog.
    pub reason: Option<String>,
}

pub struct GetUserInformationOutput {
    pub user_id: String,
    pub display_name: String,
    pub icon_uri: String,
}

pub struct RequestBackgroundInput {
    /// Reason shown to the user.
    pub reason: Option<String>,
    /// Whether to auto-start the app at login.
    pub auto_start: bool,
}

pub struct RequestBackgroundOutput {
    pub run_in_background: bool,
    pub auto_start: bool,
}

pub struct SetBackgroundStatusInput {
    /// Status message to display to the user.
    pub message: String,
}

pub struct SetBackgroundStatusOutput {
    pub success: bool,
}

pub struct CheckCameraInput {
}

pub struct CheckCameraOutput {
    pub camera_present: bool,
}

pub struct ComposeEmailInput {
    /// Primary recipient email address.
    pub address: Option<String>,
    /// Email subject line.
    pub subject: Option<String>,
    /// Email body text.
    pub body: Option<String>,
    /// CC addresses.
    pub cc: Vec<String>,
    /// BCC addresses.
    pub bcc: Vec<String>,
}

pub struct ComposeEmailOutput {
    pub success: bool, pub message: String,
}

pub struct GetLocationInput {
    /// Accuracy: "none", "country", "city", "neighborhood", "street", "exact" (default).
    pub accuracy: Option<String>,
}

pub struct GetMemoryWarningInput {
}

pub struct GetMemoryWarningOutput {
    pub warning_pending: bool,
    pub level: Option<i32>,
    pub message: String,
}

pub struct GetPowerProfileInput {
}

pub struct GetPowerProfileOutput {
    pub power_saver_enabled: bool,
}

pub struct GetProxyInput {
    /// URI to look up proxy settings for (e.g. "https://example.com").
    pub uri: String,
}

pub struct GetProxyOutput {
    pub uri: String,
    pub proxies: Vec<String>,
}

pub struct RetrieveSecretInput {
}

pub struct RetrieveSecretOutput {
    /// Base64-encoded application secret bytes.
    pub secret_base64: String,
    pub length: usize,
}

pub struct GameModeStatusInput {
    /// PID to query (0 = just check if GameMode is active globally).
    pub pid: u32,
}

pub struct GameModeStatusOutput {
    pub is_active: bool,
    pub pid_status: Option<String>,
}

pub struct ListShortcutsInput {
}

pub struct ShortcutOutput {
    pub id: String,
    pub description: String,
    pub trigger_description: String,
}

pub struct ListShortcutsOutput {
    pub shortcuts: Vec<ShortcutOutput>,
    pub count: usize,
}

pub struct BindShortcutItem {
    pub id: String,
    pub description: String,
    pub preferred_trigger: Option<String>,
}

pub struct BindShortcutsInput {
    pub shortcuts: Vec<BindShortcutItem>,
}

pub struct PrintFileInput {
    /// Path to the file to print.
    pub path: String,
    /// Window title for the print dialog.
    pub title: String,
}

pub struct PrintFileOutput {
    pub success: bool,
    pub message: String,
}

pub struct SessionInhibitInput {
    /// Reason for inhibiting.
    pub reason: String,
    /// Actions to inhibit: "logout", "suspend", "idle", "user-switch".
    pub flags: Vec<String>,
}

pub struct SessionInhibitOutput {
    pub success: bool, pub message: String,
}

pub struct TouchEventOutput {
    pub success: bool,
}

pub struct MouseScrollDiscreteInput {
    pub session_id: String,
    /// Axis: "vertical" (default) or "horizontal".
    pub axis: String,
    /// Number of scroll steps (positive = down/right, negative = up/left).
    pub steps: i32,
}

pub struct GetAvailableDeviceTypesInput {
}

pub struct GetAvailableDeviceTypesOutput {
    pub bitmask: u32,
    pub keyboard: bool,
    pub pointer: bool,
    pub touchscreen: bool,
}

pub struct GetScreenCastCapabilitiesInput {
}

pub struct GetScreenCastCapabilitiesOutput {
    pub available_cursor_modes: u32,
    pub cursor_mode_hidden: bool,
    pub cursor_mode_embedded: bool,
    pub cursor_mode_metadata: bool,
    pub available_source_types: u32,
    pub source_monitor: bool,
    pub source_window: bool,
    pub source_virtual: bool,
}

pub struct LauncherSupportedTypesInput {
}

pub struct LauncherSupportedTypesOutput {
    pub types: Vec<String>,
}

pub struct LauncherGetDesktopEntryInput {
    /// The .desktop file ID, e.g. "my-app.desktop".
    pub desktop_file_id: String,
}

pub struct LauncherGetDesktopEntryOutput {
    pub desktop_file_id: String,
    pub desktop_entry: String,
}

pub struct LauncherGetIconInput {
    /// The .desktop file ID, e.g. "my-app.desktop".
    pub desktop_file_id: String,
}

pub struct LauncherGetIconOutput {
    pub desktop_file_id: String,
    /// Base64-encoded icon data.
    pub data_base64: String,
    /// Icon format: "png", "jpeg", or "svg".
    pub format: String,
    /// Nominal icon size in pixels (0 for scalable formats).
    pub size: u32,
}

pub struct LauncherPrepareInstallInput {
    /// Display name for the launcher.
    pub name: String,
    /// Path to a local icon file (PNG/JPEG/SVG). Mutually exclusive with icon_base64.
    pub icon_path: Option<String>,
    /// Icon as a base64-encoded string (PNG/JPEG/SVG bytes). Mutually exclusive with icon_path.
    pub icon_base64: Option<String>,
    /// Launcher type: "application" (default) or "web_application".
    pub launcher_type: String,
    /// URL for web application launchers (required when launcher_type is "web_application").
    pub web_url: Option<String>,
    /// Allow the user to edit the name in the dialog. Default true.
    pub editable_name: bool,
    /// Allow the user to edit the icon in the dialog. Default true.
    pub editable_icon: bool,
}

pub struct LauncherPrepareInstallOutput {
    /// Name confirmed by the user (may differ from input name).
    pub confirmed_name: String,
    /// Base64-encoded icon as confirmed by the user.
    pub icon_base64: String,
    pub icon_format: String,
    /// Token to pass to `launcher_install`.
    pub token: String,
    pub message: String,
}

pub struct LauncherInstallInput {
    /// Token returned by `launcher_prepare_install`.
    pub token: String,
    /// The .desktop file name, e.g. "my-app.desktop".
    pub desktop_file_id: String,
    /// Full contents of the .desktop file.
    ///
    /// The `Name=` and `Icon=` keys will be overwritten from what the user
    /// confirmed. Minimum required keys:
    /// ```
    /// [Desktop Entry]
    /// Type=Application
    /// Exec=/path/to/app
    /// ```
    pub desktop_entry: String,
}

pub struct LauncherInstallOutput {
    pub success: bool,
    pub desktop_file_id: String,
    pub message: String,
}

pub struct LauncherRequestTokenInput {
    /// Display name for the launcher.
    pub name: String,
    /// Path to a local icon file (PNG/JPEG/SVG). Mutually exclusive with icon_base64.
    pub icon_path: Option<String>,
    /// Icon as a base64-encoded string (PNG/JPEG/SVG bytes). Mutually exclusive with icon_path.
    pub icon_base64: Option<String>,
}

pub struct LauncherRequestTokenOutput {
    /// Token to pass to `launcher_install`. Valid for a short time.
    pub token: String,
}

pub struct LauncherUninstallInput {
    /// The .desktop file ID to remove, e.g. "my-app.desktop".
    pub desktop_file_id: String,
}

pub struct LauncherUninstallOutput {
    pub success: bool,
    pub message: String,
}

pub struct LauncherLaunchInput {
    /// The .desktop file ID to launch, e.g. "my-app.desktop".
    pub desktop_file_id: String,
}

pub struct LauncherLaunchOutput {
    pub success: bool,
    pub message: String,
}

/// The value used when the `open_title` input is not given.
pub fn default_open_title() -> (r: String)
    ensures
        r@ == "Open File"@,
{
    "Open File".to_owned()
}

/// The value used when the `save_title` input is not given.
pub fn default_save_title() -> (r: String)
    ensures
        r@ == "Save File"@,
{
    "Save File".to_owned()
}

/// The value used when the `true` input is not given.
pub fn default_true() -> (r: bool)
    ensures
        r == true,
{
    true
}

/// The value used when the `port` input is not given.
pub fn default_port() -> (r: u32)
    ensures
        r == 80,
{
    80
}

/// The value used when the `print_title` input is not given.
pub fn default_print_title() -> (r: String)
    ensures
        r@ == "Print"@,
{
    "Print".to_owned()
}

/// The value used when the `vertical` input is not given.
pub fn default_vertical() -> (r: String)
    ensures
        r@ == "vertical"@,
{
    "vertical".to_owned()
}

/// The value used when the `launcher_type` input is not given.
pub fn default_launcher_type() -> (r: String)
    ensures
        r@ == "application"@,
{
    "application".to_owned()
}

} // verus!
