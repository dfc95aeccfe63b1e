//! Verified core of a desktop-automation server: AT-SPI element identifiers
//! and tables, event and signal buffers, D-Bus value conversion, introspection
//! interpretation and session bookkeeping.

pub mod text;
pub mod atspi;
pub mod json;
pub mod ids;
pub mod registry;
pub mod events;
pub mod signals;
pub mod session;
pub mod input;
pub mod records;
pub mod introspect;
pub mod tools;
pub mod dbus_value;
pub mod to_dbus;
pub mod ui;
pub mod bus_names;
pub mod pixels;
pub mod portal;
pub mod atspi_args;
pub mod document;
