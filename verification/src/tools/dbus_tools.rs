//! Inputs and outputs of the generic D-Bus tools, and the defaults of their optional inputs.

use vstd::prelude::*;
use crate::introspect::IntrospectResult;
use crate::json::JsonValue;
use crate::signals::SignalEvent;

verus! {

pub struct DbusListNamesInput {
    /// Which bus to query: "session" (default) or "system".
    pub bus: String,
    /// If true, also include activatable service names (default false).
    pub include_activatable: bool,
}

pub struct DbusListNamesOutput {
    pub bus: String,
    pub names: Vec<String>,
    pub count: usize,
}

pub struct DbusIntrospectInput {
    /// D-Bus service name (e.g. "org.freedesktop.NetworkManager").
    pub service: String,
    /// Object path (e.g. "/org/freedesktop/NetworkManager"). Defaults to "/".
    pub path: String,
    /// Which bus: "session" or "system".
    pub bus: String,
}

pub struct DbusIntrospectOutput {
    pub result: IntrospectResult,
}

pub struct DbusListObjectsInput {
    /// D-Bus service name.
    pub service: String,
    /// Root path to start from (default "/").
    pub root_path: String,
    /// Which bus: "session" or "system".
    pub bus: String,
    /// How many levels deep to recurse (default 2, max 5).
    pub depth: u32,
}

pub struct DbusListObjectsOutput {
    pub service: String,
    pub paths: Vec<String>,
    pub count: usize,
}

pub struct DbusGetPropertyInput {
    /// D-Bus service name.
    pub service: String,
    /// Object path.
    pub path: String,
    /// Interface name the property belongs to.
    pub interface: String,
    /// Property name.
    pub property: String,
    /// Which bus: "session" or "system".
    pub bus: String,
}

pub struct DbusGetAllPropertiesInput {
    /// D-Bus service name.
    pub service: String,
    /// Object path.
    pub path: String,
    /// Interface name.
    pub interface: String,
    /// Which bus: "session" or "system".
    pub bus: String,
}

pub struct DbusSetPropertyOutput {
    pub success: bool,
    pub message: String,
}

pub struct DbusSubscribeSignalInput {
    /// D-Bus match rule string.
    ///
    /// Examples:
    /// - `"type='signal',sender='org.freedesktop.NetworkManager',member='StateChanged'"`
    /// - `"type='signal',interface='org.freedesktop.DBus.Properties',member='PropertiesChanged'"`
    /// - `"type='signal'"` (all signals — may be noisy)
    pub rule: String,
    /// Which bus: "session" or "system".
    pub bus: String,
}

pub struct DbusSubscribeSignalOutput {
    /// Opaque ID; pass to `dbus_unsubscribe_signal` to cancel.
    pub subscription_id: String,
    pub rule: String,
    pub message: String,
}

pub struct DbusUnsubscribeSignalInput {
    /// Subscription ID returned by dbus_subscribe_signal.
    pub subscription_id: String,
    /// Which bus: "session" or "system".
    pub bus: String,
}

pub struct DbusUnsubscribeSignalOutput {
    pub success: bool,
    pub message: String,
}

pub struct DbusGetSignalsInput {
    /// Which bus: "session" or "system".
    pub bus: String,
    /// Only return signals from this interface (optional filter).
    pub interface_filter: Option<String>,
    /// Only return signals with this member name (optional filter).
    pub member_filter: Option<String>,
}

pub struct DbusGetSignalsOutput {
    pub signals: Vec<SignalEvent>,
    pub count: usize,
}

pub struct DbusListSubscriptionsInput {
    /// Which bus: "session" or "system".
    pub bus: String,
}

pub struct DbusSubscriptionInfo {
    pub id: String,
    pub rule: String,
}

pub struct DbusListSubscriptionsOutput {
    pub subscriptions: Vec<DbusSubscriptionInfo>,
    pub count: usize,
}

pub struct DbusGetNameOwnerInput {
    /// Well-known name to resolve (e.g. "org.freedesktop.NetworkManager").
    pub name: String,
    /// Which bus: "session" or "system".
    pub bus: String,
}

pub struct DbusGetNameOwnerOutput {
    pub name: String,
    pub unique_name: String,
}

/// The value used when the `session` input is not given.
pub fn default_session() -> (r: String)
    ensures
        r@ == "session"@,
{
    "session".to_owned()
}

/// The value used when the `root_path` input is not given.
pub fn default_root_path() -> (r: String)
    ensures
        r@ == "/"@,
{
    "/".to_owned()
}

/// The value used when the `obj_depth` input is not given.
pub fn default_obj_depth() -> (r: u32)
    ensures
        r == 2,
{
    2
}

/// A raw method call: destination, object, member, JSON arguments and
/// optional per-argument signature hints.
pub struct DbusCallMethodInput {
    pub service: String,
    pub path: String,
    pub interface: String,
    pub method: String,
    pub args: Vec<JsonValue>,
    pub arg_signatures: Option<Vec<String>>,
    pub bus: String,
}

/// The reply of a raw method call as JSON.
pub struct DbusCallMethodOutput {
    pub service: String,
    pub path: String,
    pub interface: String,
    pub method: String,
    pub result: JsonValue,
}

/// One property's value as JSON.
pub struct DbusGetPropertyOutput {
    pub property: String,
    pub value: JsonValue,
}

/// All properties of an interface as one JSON object.
pub struct DbusGetAllPropertiesOutput {
    pub interface: String,
    pub properties: JsonValue,
}

/// A property to set from JSON, with an optional signature hint.
pub struct DbusSetPropertyInput {
    pub service: String,
    pub path: String,
    pub interface: String,
    pub property: String,
    pub value: JsonValue,
    pub signature: Option<String>,
    pub bus: String,
}

/// The message after a property was set.
pub fn property_set_message(property: &str) -> (r: String)
    ensures
        r@ == "Property '"@ + property@ + "' set"@,
{
    crate::text::concat3("Property '", property, "' set")
}

} // verus!
