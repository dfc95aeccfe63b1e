//! Document text selections sent to AT-SPI: each selection's start and end
//! elements as (bus name, object path) references.

use vstd::prelude::*;
use crate::atspi::{ElementId, id_separator};
use crate::dbus_value::{DbusValue, DbusView, dbus_view, dbus_views, lemma_dbus_list_view};
use crate::text::last_occurrence;
use crate::to_dbus::{ConversionError, object_path_accepted, valid_object_path};

verus! {

/// The (bus name, object path) an element identifier names: split at its
/// last `:/`, or the whole text with the root path where it has none.
pub open spec fn selection_ref(id: Seq<char>) -> (Seq<char>, Seq<char>) {
    match last_occurrence(id, id_separator()) {
        Some(i) => (id.subrange(0, i), id.subrange(i + 1, id.len() as int)),
        None => (id, "/"@),
    }
}

/// The `(so)` structure of a reference.
pub open spec fn ref_structure(id: Seq<char>) -> DbusView {
    DbusView::Structure(
        seq![DbusView::Str(selection_ref(id).0), DbusView::ObjectPath(selection_ref(id).1)],
    )
}

/// A selection (start id, start offset, end id, end offset, start is active)
/// as the `((so)i(so)ib)` structure AT-SPI takes.
pub open spec fn selection_structure(sel: (Seq<char>, i32, Seq<char>, i32, bool)) -> DbusView {
    DbusView::Structure(
        seq![
            ref_structure(sel.0),
            DbusView::I32(sel.1),
            ref_structure(sel.2),
            DbusView::I32(sel.3),
            DbusView::Bool(sel.4),
        ],
    )
}

/// The selections as character sequences.
pub open spec fn selections_view(v: Seq<(String, i32, String, i32, bool)>) -> Seq<
    (Seq<char>, i32, Seq<char>, i32, bool),
> {
    Seq::new(v.len(), |i: int| (v[i].0@, v[i].1, v[i].2@, v[i].3, v[i].4))
}

/// Both references of a selection have valid object paths.
pub open spec fn selection_paths_valid(sel: (Seq<char>, i32, Seq<char>, i32, bool)) -> bool {
    valid_object_path(selection_ref(sel.0).1) && valid_object_path(selection_ref(sel.2).1)
}

/// The `(so)` structure of a reference, or `None` where its path is invalid.
#[verifier::rlimit(50)]
fn encode_ref(id: &str) -> (r: Option<DbusValue>)
    ensures
        match r {
            Some(v) => valid_object_path(selection_ref(id@).1) && dbus_view(v) == ref_structure(id@),
            None => !valid_object_path(selection_ref(id@).1),
        },
{
    let eid = ElementId(id.to_owned());
    let (bus, path) = match eid.parts() {
        Ok((b, p)) => (b.to_owned(), p.to_owned()),
        Err(_) => {
            proof {
                reveal_strlit("/");
            }
            (id.to_owned(), "/".to_owned())
        },
    };
    if !object_path_accepted(path.as_str()) {
        return None;
    }
    let r = DbusValue::Structure(vec![DbusValue::Str(bus), DbusValue::ObjectPath(path)]);
    proof {
        lemma_dbus_list_view(r);
        assert(dbus_views(seq![DbusValue::Str(bus), DbusValue::ObjectPath(path)]) =~= seq![
            DbusView::Str(selection_ref(id@).0),
            DbusView::ObjectPath(selection_ref(id@).1),
        ]);
    }
    Some(r)
}

/// Encode document text selections for `SetTextSelections`; the error of an
/// invalid object path where some reference holds one.
#[verifier::rlimit(50)]
pub fn encode_text_selections(selections: &Vec<(String, i32, String, i32, bool)>) -> (r: Result<
    Vec<DbusValue>,
    ConversionError,
>)
    ensures
        match r {
            Ok(vs) => (forall|i: int|
                0 <= i < selections@.len() ==> selection_paths_valid(
                    #[trigger] selections_view(selections@)[i],
                )) && dbus_views(vs@) == Seq::new(
                selections@.len(),
                |i: int| selection_structure(selections_view(selections@)[i]),
            ),
            Err(e) => e is InvalidObjectPath && exists|i: int|
                0 <= i < selections@.len() && !selection_paths_valid(
                    #[trigger] selections_view(selections@)[i],
                ),
        },
{
    let ghost sv = selections_view(selections@);
    let mut out: Vec<DbusValue> = Vec::new();
    let mut i: usize = 0;
    while i < selections.len()
        invariant
            i <= selections@.len(),
            sv == selections_view(selections@),
            out@.len() == i,
            forall|k: int| 0 <= k < i ==> selection_paths_valid(#[trigger] sv[k]),
            forall|k: int| 0 <= k < i ==> dbus_view(#[trigger] out@[k]) == selection_structure(sv[k]),
        decreases selections.len() - i,
    {
        let sel = &selections[i];
        assert(sv[i as int] == (sel.0@, sel.1, sel.2@, sel.3, sel.4));
        let start = match encode_ref(sel.0.as_str()) {
            Some(v) => v,
            None => {
                assert(!selection_paths_valid(sv[i as int]));
                return Err(ConversionError::InvalidObjectPath);
            },
        };
        let end = match encode_ref(sel.2.as_str()) {
            Some(v) => v,
            None => {
                assert(!selection_paths_valid(sv[i as int]));
                return Err(ConversionError::InvalidObjectPath);
            },
        };
        let fields = vec![start, DbusValue::I32(sel.1), end, DbusValue::I32(sel.3), DbusValue::Bool(sel.4)];
        let s = DbusValue::Structure(fields);
        proof {
            lemma_dbus_list_view(s);
            assert(dbus_views(fields@) =~= seq![
                ref_structure(sel.0@),
                DbusView::I32(sel.1),
                ref_structure(sel.2@),
                DbusView::I32(sel.3),
                DbusView::Bool(sel.4),
            ]);
        }
        out.push(s);
        i = i + 1;
    }
    assert(dbus_views(out@) =~= Seq::new(
        selections@.len(),
        |k: int| selection_structure(selections_view(selections@)[k]),
    ));
    Ok(out)
}

} // verus!
