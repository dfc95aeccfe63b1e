//! Bookkeeping of active remote-desktop portal sessions and the choice of
//! input devices a session is started with.

use vstd::prelude::*;
use crate::atspi::string_views;
use crate::registry::{NotRegistered, Registry};
use crate::text::{concat2, str_eq};

verus! {

/// Input device types a remote desktop session can request.
#[derive(Debug, Clone, Copy, PartialEq, Eq, Structural)]
pub enum DeviceType {
    Keyboard,
    Pointer,
    Touchscreen,
}

/// The device type a name stands for, if any.
pub open spec fn device_type_named(name: Seq<char>) -> Option<DeviceType> {
    if name == "keyboard"@ {
        Some(DeviceType::Keyboard)
    } else if name == "pointer"@ {
        Some(DeviceType::Pointer)
    } else if name == "touchscreen"@ {
        Some(DeviceType::Touchscreen)
    } else {
        None
    }
}

/// The name under which the portal's remote-desktop interface documents a
/// device type.
pub open spec fn device_name(t: DeviceType) -> Seq<char> {
    match t {
        DeviceType::Keyboard => "keyboard"@,
        DeviceType::Pointer => "pointer"@,
        DeviceType::Touchscreen => "touchscreen"@,
    }
}

/// A name stands for a device type exactly when it is that type's own name:
/// each of `keyboard`, `pointer` and `touchscreen` gives its own type, and
/// distinct names give distinct types.
pub proof fn lemma_device_names(name: Seq<char>, t: DeviceType)
    ensures
        device_type_named(name) == Some(t) <==> name == device_name(t),
{
    reveal_strlit("keyboard");
    reveal_strlit("pointer");
    reveal_strlit("touchscreen");
    assert("keyboard"@.len() == 8 && "pointer"@.len() == 7 && "touchscreen"@.len() == 11);
}

/// The device types named in a list, in order; unknown names are skipped.
pub open spec fn device_types_named(names: Seq<Seq<char>>) -> Seq<DeviceType>
    decreases names.len(),
{
    if names.len() == 0 {
        seq![]
    } else {
        let prev = device_types_named(names.drop_last());
        match device_type_named(names.last()) {
            Some(d) => prev.push(d),
            None => prev,
        }
    }
}

/// A device type is requested exactly when its own name is among the given
/// names, and no more types are requested than names given.
pub proof fn lemma_device_types_requested(names: Seq<Seq<char>>, t: DeviceType)
    ensures
        device_types_named(names).contains(t) <==> names.contains(device_name(t)),
        device_types_named(names).len() <= names.len(),
    decreases names.len(),
{
    if names.len() > 0 {
        let init = names.drop_last();
        lemma_device_types_requested(init, t);
        lemma_device_names(names.last(), t);
        let prev = device_types_named(init);
        if names.contains(device_name(t)) {
            let j = choose|j: int| 0 <= j < names.len() && names[j] == device_name(t);
            if j < names.len() - 1 {
                assert(init[j] == device_name(t));
            }
        }
        if init.contains(device_name(t)) {
            let j = choose|j: int| 0 <= j < init.len() && init[j] == device_name(t);
            assert(names[j] == device_name(t));
        }
        if names.last() == device_name(t) {
            assert(names[names.len() - 1] == device_name(t));
        }
        match device_type_named(names.last()) {
            Some(d) => {
                if prev.contains(t) {
                    let j = choose|j: int| 0 <= j < prev.len() && prev[j] == t;
                    assert(prev.push(d)[j] == t);
                }
                if d == t {
                    assert(prev.push(d)[prev.len() as int] == t);
                }
                if prev.push(d).contains(t) {
                    let j = choose|j: int| 0 <= j < prev.len() + 1 && prev.push(d)[j] == t;
                    if j < prev.len() {
                        assert(prev[j] == t);
                    }
                }
            },
            None => {},
        }
    }
}

/// Parse one device type name.
pub fn parse_device_type(name: &str) -> (r: Option<DeviceType>)
    ensures
        r == device_type_named(name@),
{
    if str_eq(name, "keyboard") {
        Some(DeviceType::Keyboard)
    } else if str_eq(name, "pointer") {
        Some(DeviceType::Pointer)
    } else if str_eq(name, "touchscreen") {
        Some(DeviceType::Touchscreen)
    } else {
        None
    }
}

/// Error returned when no known device type was requested.
pub struct NoDeviceType;

impl NoDeviceType {
    /// Human-readable description of the error.
    pub fn message(&self) -> (r: String)
        ensures
            r@ == "At least one device type must be specified"@,
    {
        "At least one device type must be specified".to_owned()
    }
}

/// The device types a session is started with: the known names, in order;
/// an error when none is known.
pub fn select_device_types(names: &Vec<String>) -> (r: Result<Vec<DeviceType>, NoDeviceType>)
    ensures
        match r {
            Ok(v) => v@ == device_types_named(string_views(names@)) && v@.len() > 0,
            Err(_) => device_types_named(string_views(names@)).len() == 0,
        },
{
    let ghost ns = string_views(names@);
    let mut out: Vec<DeviceType> = Vec::new();
    let mut i: usize = 0;
    while i < names.len()
        invariant
            ns == string_views(names@),
            i <= names.len(),
            out@ == device_types_named(ns.subrange(0, i as int)),
        decreases names.len() - i,
    {
        let d = parse_device_type(names[i].as_str());
        proof {
            assert(ns.subrange(0, i + 1).drop_last() =~= ns.subrange(0, i as int));
            assert(ns.subrange(0, i + 1).last() == names@[i as int]@);
        }
        match d {
            Some(t) => out.push(t),
            None => {},
        }
        i = i + 1;
    }
    assert(ns.subrange(0, names.len() as int) =~= ns);
    if out.len() == 0 {
        Err(NoDeviceType)
    } else {
        Ok(out)
    }
}

/// Registry of active sessions keyed by identifier; `T` is what a session holds.
pub struct SessionManager<T> {
    sessions: Registry<T>,
}

impl<T> SessionManager<T> {
    /// The active sessions by identifier.
    pub closed spec fn sessions(&self) -> Map<Seq<char>, T> {
        self.sessions.view_map()
    }

    /// Identifiers are distinct.
    pub closed spec fn wf(&self) -> bool {
        self.sessions.wf()
    }

    /// A manager with no sessions.
    pub fn new() -> (r: SessionManager<T>)
        ensures
            r.wf(),
            r.sessions() == Map::<Seq<char>, T>::empty(),
    {
        SessionManager { sessions: Registry::new() }
    }

    /// Register a session under a fresh random identifier, which is returned.
    pub fn create_session(&mut self, session: T) -> (id: String)
        requires
            old(self).wf(),
        ensures
            final(self).wf(),
            final(self).sessions() == old(self).sessions().insert(id@, session),
            crate::ids::is_uuid_v4_text(id@),
    {
        self.sessions.insert_fresh(session)
    }

    /// The session registered under an identifier, as a `with_session` call
    /// hands it to its closure.
    pub fn with_session(&self, session_id: &str) -> (r: Result<&T, NotRegistered>)
        requires
            self.wf(),
        ensures
            match r {
                Ok(s) => self.sessions().dom().contains(session_id@) && *s
                    == self.sessions()[session_id@],
                Err(e) => !self.sessions().dom().contains(session_id@) && e.id@ == session_id@,
            },
    {
        match self.sessions.get(session_id) {
            Some(s) => Ok(s),
            None => Err(NotRegistered { id: session_id.to_owned() }),
        }
    }

    /// The session registered under an identifier; an error naming the
    /// identifier where none is.
    pub fn get_session(&self, session_id: &str) -> (r: Result<&T, NotRegistered>)
        requires
            self.wf(),
        ensures
            match r {
                Ok(s) => self.sessions().dom().contains(session_id@) && *s
                    == self.sessions()[session_id@],
                Err(e) => !self.sessions().dom().contains(session_id@) && e.id@ == session_id@,
            },
    {
        self.with_session(session_id)
    }

    /// Remove a session.
    pub fn remove_session(&mut self, session_id: &str) -> (r: Result<T, NotRegistered>)
        requires
            old(self).wf(),
        ensures
            final(self).wf(),
            final(self).sessions() == old(self).sessions().remove(session_id@),
            match r {
                Ok(s) => old(self).sessions().dom().contains(session_id@) && s == old(self).sessions()[session_id@],
                Err(e) => !old(self).sessions().dom().contains(session_id@) && e.id@ == session_id@,
            },
    {
        self.sessions.remove(session_id)
    }

    /// All active session identifiers.
    pub fn list_sessions(&self) -> (r: Vec<String>)
        requires
            self.wf(),
        ensures
            forall|i: int| 0 <= i < r@.len() ==> self.sessions().dom().contains(#[trigger] r@[i]@),
            forall|id: Seq<char>|
                #[trigger] self.sessions().dom().contains(id) ==> exists|i: int|
                    0 <= i < r@.len() && r@[i]@ == id,
    {
        let r = self.sessions.ids();
        r
    }
}

/// The message of a missing session.
pub fn session_not_found_message(e: &NotRegistered) -> (r: String)
    ensures
        r@ == "Session not found: "@ + e.id@,
{
    e.message("Session not found: ")
}

/// The message a stopped session reports.
pub fn session_stopped_message(session_id: &str) -> (r: String)
    ensures
        r@ == "Session "@ + session_id@ + " stopped"@,
{
    crate::text::concat3("Session ", session_id, " stopped")
}

/// A session created and then removed is gone, and removing it again fails.
pub proof fn lemma_session_create_remove<T>(m: Map<Seq<char>, T>, id: Seq<char>, s: T)
    ensures
        m.insert(id, s).dom().contains(id),
        m.insert(id, s)[id] == s,
        !m.insert(id, s).remove(id).dom().contains(id),
        !m.insert(id, s).remove(id).remove(id).dom().contains(id),
{
}

} // verus!
