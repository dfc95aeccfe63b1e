//! The tools the server offers: their inputs, outputs and defaults.

pub mod atspi_tools;
pub mod dbus_tools;
pub mod portal_tools;
pub mod screenshot_tools;
pub mod session_tools;
pub mod ui_tools;
