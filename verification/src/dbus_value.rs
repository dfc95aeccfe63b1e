//! D-Bus values and their conversion to and from JSON.
//!
//! | D-Bus type | JSON type         |
//! |------------|-------------------|
//! | y u8       | number            |
//! | b bool     | boolean           |
//! | n i16      | number            |
//! | q u16      | number            |
//! | i i32      | number            |
//! | u u32      | number            |
//! | x i64      | number            |
//! | t u64      | number            |
//! | d f64      | number            |
//! | s string   | string            |
//! | o path     | string            |
//! | g sig      | string            |
//! | v variant  | `{"v": <inner>}`  |
//! | a array    | array             |
//! | {kv} dict  | object            |
//! | (…) struct | array             |
//! | h fd       | `{"fd": N}`       |

use vstd::prelude::*;
use crate::json::{
    Float64, FloatView, JsonNumber, JsonValue, JsonView, NumberView, copy_float, entry_views,
    json_view, json_views, lemma_array_view, lemma_object_view,
};
use crate::text::{concat3, decimal, i64_to_string, int_decimal, str_eq, u64_to_string};

verus! {

/// A D-Bus value.
pub enum DbusValue {
    U8(u8),
    Bool(bool),
    I16(i16),
    U16(u16),
    I32(i32),
    U32(u32),
    I64(i64),
    U64(u64),
    Double(Float64),
    Str(String),
    Signature(String),
    ObjectPath(String),
    Variant(Box<DbusValue>),
    /// An array, with its full signature (e.g. `as`).
    Array { signature: String, items: Vec<DbusValue> },
    /// A dictionary, with its full signature (e.g. `a{sv}`).
    Dict { signature: String, entries: Vec<(DbusValue, DbusValue)> },
    Structure(Vec<DbusValue>),
    Fd(i32),
}

/// The mathematical content of a D-Bus value.
pub enum DbusView {
    U8(u8),
    Bool(bool),
    I16(i16),
    U16(u16),
    I32(i32),
    U32(u32),
    I64(i64),
    U64(u64),
    Double(FloatView),
    Str(Seq<char>),
    Signature(Seq<char>),
    ObjectPath(Seq<char>),
    Variant(Box<DbusView>),
    Array { signature: Seq<char>, items: Seq<DbusView> },
    Dict { signature: Seq<char>, entries: Seq<(DbusView, DbusView)> },
    Structure(Seq<DbusView>),
    Fd(i32),
}

/// The mathematical content of a D-Bus value.
pub open spec fn dbus_view(v: DbusValue) -> DbusView
    decreases v,
{
    match v {
        DbusValue::U8(n) => DbusView::U8(n),
        DbusValue::Bool(b) => DbusView::Bool(b),
        DbusValue::I16(n) => DbusView::I16(n),
        DbusValue::U16(n) => DbusView::U16(n),
        DbusValue::I32(n) => DbusView::I32(n),
        DbusValue::U32(n) => DbusView::U32(n),
        DbusValue::I64(n) => DbusView::I64(n),
        DbusValue::U64(n) => DbusView::U64(n),
        DbusValue::Double(f) => DbusView::Double(f@),
        DbusValue::Str(s) => DbusView::Str(s@),
        DbusValue::Signature(s) => DbusView::Signature(s@),
        DbusValue::ObjectPath(s) => DbusView::ObjectPath(s@),
        DbusValue::Variant(inner) => DbusView::Variant(Box::new(dbus_view(*inner))),
        DbusValue::Array { signature, items } => DbusView::Array {
            signature: signature@,
            items: Seq::new(
                items@.len(),
                |i: int|
                    if 0 <= i < items@.len() {
                        dbus_view(items@[i])
                    } else {
                        DbusView::Bool(false)
                    },
            ),
        },
        DbusValue::Dict { signature, entries } => DbusView::Dict {
            signature: signature@,
            entries: Seq::new(
                entries@.len(),
                |i: int|
                    if 0 <= i < entries@.len() {
                        (dbus_view(entries@[i].0), dbus_view(entries@[i].1))
                    } else {
                        (DbusView::Bool(false), DbusView::Bool(false))
                    },
            ),
        },
        DbusValue::Structure(fields) => DbusView::Structure(
            Seq::new(
                fields@.len(),
                |i: int|
                    if 0 <= i < fields@.len() {
                        dbus_view(fields@[i])
                    } else {
                        DbusView::Bool(false)
                    },
            ),
        ),
        DbusValue::Fd(n) => DbusView::Fd(n),
    }
}

/// The views of a list of D-Bus values.
pub open spec fn dbus_views(vs: Seq<DbusValue>) -> Seq<DbusView> {
    Seq::new(vs.len(), |i: int| dbus_view(vs[i]))
}

/// The view of an array or a structure lists its elements' views.
pub proof fn lemma_dbus_list_view(v: DbusValue)
    ensures
        v matches DbusValue::Array { signature, items } ==> dbus_view(v) == (DbusView::Array {
            signature: signature@,
            items: dbus_views(items@),
        }),
        v matches DbusValue::Structure(fields) ==> dbus_view(v) == DbusView::Structure(
            dbus_views(fields@),
        ),
{
    match v {
        DbusValue::Array { items, .. } => {
            assert(dbus_view(v)->Array_items =~= dbus_views(items@));
        },
        DbusValue::Structure(fields) => {
            assert(dbus_view(v)->Structure_0 =~= dbus_views(fields@));
        },
        _ => {},
    }
}

/// Basic (non-container) D-Bus values, the only ones allowed as dictionary keys.
pub open spec fn is_basic(v: DbusValue) -> bool {
    match v {
        DbusValue::Variant(_) => false,
        DbusValue::Array { .. } => false,
        DbusValue::Dict { .. } => false,
        DbusValue::Structure(_) => false,
        _ => true,
    }
}

/// A value as it arrives over D-Bus: every dictionary key basic.
pub open spec fn is_wire_value(v: DbusValue) -> bool
    decreases v,
{
    match v {
        DbusValue::Variant(inner) => is_wire_value(*inner),
        DbusValue::Array { items, .. } => forall|i: int|
            0 <= i < items@.len() ==> is_wire_value(#[trigger] items@[i]),
        DbusValue::Dict { entries, .. } => forall|i: int|
            0 <= i < entries@.len() ==> is_basic(#[trigger] entries@[i].0) && is_wire_value(
                entries@[i].1,
            ),
        DbusValue::Structure(fields) => forall|i: int|
            0 <= i < fields@.len() ==> is_wire_value(#[trigger] fields@[i]),
        _ => true,
    }
}

// ─── D-Bus to JSON ───────────────────────────────────────────────────────────

/// The JSON number of an integer, as `serde_json` represents it.
pub open spec fn int_json(n: int) -> JsonView {
    if n < 0 {
        JsonView::Number(NumberView::NegInt(n as i64))
    } else {
        JsonView::Number(NumberView::PosInt(n as u64))
    }
}

/// Whether a float is finite (its exponent bits are not all ones).
pub open spec fn float_finite(f: FloatView) -> bool {
    match f {
        FloatView::Bits(bits, _) => (bits >> 52u64) & 0x7ffu64 != 0x7ffu64,
        FloatView::FromInteger(_) => true,
    }
}

/// The JSON of a float: a number when finite, else null.
pub open spec fn float_json(f: FloatView) -> JsonView {
    if float_finite(f) {
        JsonView::Number(NumberView::Float(f))
    } else {
        JsonView::Null
    }
}

/// The object-key text of a basic value: strings, paths and signatures as
/// they are, any other value as the JSON text of its JSON form.
pub open spec fn key_text(k: DbusValue) -> Seq<char> {
    match k {
        DbusValue::Str(s) => s@,
        DbusValue::ObjectPath(s) => s@,
        DbusValue::Signature(s) => s@,
        DbusValue::U8(n) => decimal(n as nat),
        DbusValue::U16(n) => decimal(n as nat),
        DbusValue::U32(n) => decimal(n as nat),
        DbusValue::U64(n) => decimal(n as nat),
        DbusValue::I16(n) => int_decimal(n as int),
        DbusValue::I32(n) => int_decimal(n as int),
        DbusValue::I64(n) => int_decimal(n as int),
        DbusValue::Bool(b) => if b { "true"@ } else { "false"@ },
        DbusValue::Double(f) => match f@ {
            FloatView::Bits(bits, text) => if float_finite(f@) { text } else { "null"@ },
            FloatView::FromInteger(n) => int_decimal(n) + ".0"@,
        },
        DbusValue::Fd(n) => "{\"fd\":"@ + int_decimal(n as int) + "}"@,
        _ => Seq::empty(),
    }
}

/// Set `key` to `value` in an object: the entry with that key is replaced in
/// place, or a new entry is appended.
pub open spec fn object_insert(
    obj: Seq<(Seq<char>, JsonView)>,
    key: Seq<char>,
    value: JsonView,
) -> Seq<(Seq<char>, JsonView)> {
    if exists|i: int| 0 <= i < obj.len() && obj[i].0 == key {
        let i = choose|i: int| 0 <= i < obj.len() && obj[i].0 == key;
        obj.update(i, (key, value))
    } else {
        obj.push((key, value))
    }
}

/// The object made from dictionary entries in order: each key becomes its
/// key text, and a later entry overrides an earlier one with the same text.
pub open spec fn dict_json(entries: Seq<(DbusValue, DbusValue)>) -> Seq<(Seq<char>, JsonView)>
    decreases entries,
{
    if entries.len() == 0 {
        seq![]
    } else {
        let last = entries[entries.len() - 1];
        object_insert(
            dict_json(entries.subrange(0, entries.len() - 1)),
            key_text(last.0),
            json_of(last.1),
        )
    }
}

/// The keys of an object are distinct.
pub open spec fn distinct_keys(obj: Seq<(Seq<char>, JsonView)>) -> bool {
    forall|i: int, j: int| 0 <= i < obj.len() && 0 <= j < obj.len() && i != j ==> obj[i].0 != obj[j].0
}

/// The JSON form of a D-Bus value.
pub open spec fn json_of(v: DbusValue) -> JsonView
    decreases v,
{
    match v {
        DbusValue::U8(n) => JsonView::Number(NumberView::PosInt(n as u64)),
        DbusValue::Bool(b) => JsonView::Bool(b),
        DbusValue::I16(n) => int_json(n as int),
        DbusValue::U16(n) => JsonView::Number(NumberView::PosInt(n as u64)),
        DbusValue::I32(n) => int_json(n as int),
        DbusValue::U32(n) => JsonView::Number(NumberView::PosInt(n as u64)),
        DbusValue::I64(n) => int_json(n as int),
        DbusValue::U64(n) => JsonView::Number(NumberView::PosInt(n)),
        DbusValue::Double(f) => float_json(f@),
        DbusValue::Str(s) => JsonView::Str(s@),
        DbusValue::Signature(s) => JsonView::Str(s@),
        DbusValue::ObjectPath(s) => JsonView::Str(s@),
        DbusValue::Variant(inner) => JsonView::Object(seq![("v"@, json_of(*inner))]),
        DbusValue::Array { items, .. } => JsonView::Array(
            Seq::new(
                items@.len(),
                |i: int|
                    if 0 <= i < items@.len() {
                        json_of(items@[i])
                    } else {
                        JsonView::Null
                    },
            ),
        ),
        DbusValue::Dict { entries, .. } => JsonView::Object(dict_json(entries@)),
        DbusValue::Structure(fields) => JsonView::Array(
            Seq::new(
                fields@.len(),
                |i: int|
                    if 0 <= i < fields@.len() {
                        json_of(fields@[i])
                    } else {
                        JsonView::Null
                    },
            ),
        ),
        DbusValue::Fd(n) => JsonView::Object(seq![("fd"@, int_json(n as int))]),
    }
}

/// The JSON of a list of values, element by element.
pub open spec fn jsons_of(vs: Seq<DbusValue>) -> Seq<JsonView> {
    Seq::new(vs.len(), |i: int| json_of(vs[i]))
}

/// The JSON of an array or a structure is the list of its elements' JSON.
pub proof fn lemma_list_json(v: DbusValue)
    ensures
        v matches DbusValue::Array { items, .. } ==> json_of(v) == JsonView::Array(jsons_of(items@)),
        v matches DbusValue::Structure(fields) ==> json_of(v) == JsonView::Array(jsons_of(fields@)),
{
    match v {
        DbusValue::Array { items, .. } => {
            assert(json_of(v)->Array_0 =~= jsons_of(items@));
        },
        DbusValue::Structure(fields) => {
            assert(json_of(v)->Array_0 =~= jsons_of(fields@));
        },
        _ => {},
    }
}

/// Whether a float is finite.
pub fn is_finite(f: &Float64) -> (r: bool)
    ensures
        r == float_finite(f@),
{
    match f {
        Float64::Bits { bits, .. } => (*bits >> 52u64) & 0x7ffu64 != 0x7ffu64,
        Float64::FromInteger(_) => true,
    }
}

/// The JSON number of a signed integer.
fn signed_json(n: i64) -> (r: JsonValue)
    ensures
        json_view(r) == int_json(n as int),
{
    if n < 0 {
        JsonValue::Number(JsonNumber::NegInt(n))
    } else {
        JsonValue::Number(JsonNumber::PosInt(n as u64))
    }
}

/// Set `key` to `value` in an object, replacing the entry with that key in
/// place or appending a new entry.
pub fn object_set(obj: &mut Vec<(String, JsonValue)>, key: String, value: JsonValue)
    requires
        distinct_keys(entry_views(old(obj)@)),
    ensures
        entry_views(final(obj)@) == object_insert(entry_views(old(obj)@), key@, json_view(value)),
        distinct_keys(entry_views(final(obj)@)),
{
    let ghost before = entry_views(obj@);
    let ghost kv = key@;
    let ghost jv = json_view(value);
    let mut i: usize = 0;
    while i < obj.len()
        invariant
            before == entry_views(obj@),
            before == entry_views(old(obj)@),
            before.len() == obj@.len(),
            distinct_keys(before),
            kv == key@,
            jv == json_view(value),
            i <= obj.len(),
            forall|j: int| 0 <= j < i ==> before[j].0 != kv,
        decreases obj.len() - i,
    {
        assert(before[i as int] == (obj@[i as int].0@, json_view(obj@[i as int].1)));
        if str_eq(obj[i].0.as_str(), key.as_str()) {
            obj.set(i, (key, value));
            proof {
                assert(0 <= i < before.len() && before[i as int].0 == kv);
                let c = choose|c: int| 0 <= c < before.len() && before[c].0 == kv;
                assert(c == i) by {
                    if c != i {
                        assert(before[c].0 != before[i as int].0);
                    }
                }
                assert(entry_views(obj@) =~= before.update(i as int, (kv, jv)));
                let after = entry_views(obj@);
                assert forall|a: int, b: int|
                    0 <= a < after.len() && 0 <= b < after.len() && a != b implies after[a].0
                    != after[b].0 by {
                    if a != i && b != i {
                        assert(after[a] == before[a] && after[b] == before[b]);
                    } else if a == i {
                        assert(after[b] == before[b]);
                        assert(before[b].0 != before[i as int].0);
                    } else {
                        assert(after[a] == before[a]);
                        assert(before[a].0 != before[i as int].0);
                    }
                }
            }
            return;
        }
        i = i + 1;
    }
    obj.push((key, value));
    proof {
        assert(forall|j: int| 0 <= j < before.len() ==> before[j].0 != kv);
        assert(entry_views(obj@) =~= before.push((kv, jv)));
    }
}

/// The object-key text of a basic value.
pub fn dict_key_text(k: &DbusValue) -> (r: String)
    requires
        is_basic(*k),
    ensures
        r@ == key_text(*k),
{
    match k {
        DbusValue::Str(s) => s.clone(),
        DbusValue::ObjectPath(s) => s.clone(),
        DbusValue::Signature(s) => s.clone(),
        DbusValue::U8(n) => u64_to_string(*n as u64),
        DbusValue::U16(n) => u64_to_string(*n as u64),
        DbusValue::U32(n) => u64_to_string(*n as u64),
        DbusValue::U64(n) => u64_to_string(*n),
        DbusValue::I16(n) => i64_to_string(*n as i64),
        DbusValue::I32(n) => i64_to_string(*n as i64),
        DbusValue::I64(n) => i64_to_string(*n),
        DbusValue::Bool(b) => if *b { "true".to_owned() } else { "false".to_owned() },
        DbusValue::Double(f) => match f {
            Float64::Bits { text, .. } => if is_finite(f) { text.clone() } else { "null".to_owned() },
            Float64::FromInteger(n) => {
                let mut s = crate::text::i128_to_string(*n);
                crate::text::push_str(&mut s, ".0");
                s
            },
        },
        DbusValue::Fd(n) => {
            let digits = i64_to_string(*n as i64);
            concat3("{\"fd\":", digits.as_str(), "}")
        },
        _ => String::new(),
    }
}

/// Convert a D-Bus value to a JSON value.
pub fn value_to_json(v: &DbusValue) -> (r: JsonValue)
    requires
        is_wire_value(*v),
    ensures
        json_view(r) == json_of(*v),
    decreases v,
{
    match v {
        DbusValue::U8(n) => JsonValue::Number(JsonNumber::PosInt(*n as u64)),
        DbusValue::Bool(b) => JsonValue::Bool(*b),
        DbusValue::I16(n) => signed_json(*n as i64),
        DbusValue::U16(n) => JsonValue::Number(JsonNumber::PosInt(*n as u64)),
        DbusValue::I32(n) => signed_json(*n as i64),
        DbusValue::U32(n) => JsonValue::Number(JsonNumber::PosInt(*n as u64)),
        DbusValue::I64(n) => signed_json(*n),
        DbusValue::U64(n) => JsonValue::Number(JsonNumber::PosInt(*n)),
        DbusValue::Double(f) => {
            if is_finite(f) {
                JsonValue::Number(JsonNumber::Float(copy_float(f)))
            } else {
                JsonValue::Null
            }
        },
        DbusValue::Str(s) => JsonValue::String(s.clone()),
        DbusValue::Signature(s) => JsonValue::String(s.clone()),
        DbusValue::ObjectPath(s) => JsonValue::String(s.clone()),
        DbusValue::Variant(inner) => {
            let j = value_to_json(inner);
            let es = vec![("v".to_owned(), j)];
            proof {
                lemma_object_view(es);
                assert(entry_views(es@) =~= seq![("v"@, json_of(**inner))]);
            }
            JsonValue::Object(es)
        },
        DbusValue::Array { items, .. } => {
            let out = values_to_json(items);
            proof {
                lemma_array_view(out);
                lemma_list_json(*v);
            }
            JsonValue::Array(out)
        },
        DbusValue::Structure(fields) => {
            let out = values_to_json(fields);
            proof {
                lemma_array_view(out);
                lemma_list_json(*v);
            }
            JsonValue::Array(out)
        },
        DbusValue::Dict { entries, .. } => {
            let mut obj: Vec<(String, JsonValue)> = Vec::new();
            let mut i: usize = 0;
            assert(entries@.subrange(0, 0) =~= Seq::<(DbusValue, DbusValue)>::empty());
            assert(entry_views(obj@) =~= dict_json(entries@.subrange(0, 0)));
            while i < entries.len()
                invariant
                    i <= entries@.len(),
                    forall|j: int|
                        0 <= j < entries@.len() ==> is_basic(#[trigger] entries@[j].0)
                            && is_wire_value(entries@[j].1),
                    entry_views(obj@) == dict_json(entries@.subrange(0, i as int)),
                    distinct_keys(entry_views(obj@)),
                    *v matches DbusValue::Dict { entries: es, .. } && es == *entries,
                decreases entries.len() - i,
            {
                let entry = &entries[i];
                let k = dict_key_text(&entry.0);
                proof {
                    assert(decreases_to!(*v => v->entries));
                    assert(decreases_to!(v->entries => v->entries@));
                    assert(decreases_to!(v->entries@ => v->entries@[i as int]));
                    assert(decreases_to!(v->entries@[i as int] => v->entries@[i as int].1));
                }
                let jv = value_to_json(&entry.1);
                object_set(&mut obj, k, jv);
                proof {
                    let next = entries@.subrange(0, i + 1);
                    assert(next.subrange(0, next.len() - 1) =~= entries@.subrange(0, i as int));
                    assert(next[next.len() - 1] == entries@[i as int]);
                }
                i = i + 1;
            }
            assert(entries@.subrange(0, entries@.len() as int) =~= entries@);
            proof {
                lemma_object_view(obj);
            }
            JsonValue::Object(obj)
        },
        DbusValue::Fd(n) => {
            let es = vec![("fd".to_owned(), signed_json(*n as i64))];
            proof {
                lemma_object_view(es);
                assert(entry_views(es@) =~= seq![("fd"@, int_json(*n as int))]);
            }
            JsonValue::Object(es)
        },
    }
}

/// Convert each value of a list to JSON.
pub fn values_to_json(items: &Vec<DbusValue>) -> (r: Vec<JsonValue>)
    requires
        forall|i: int| 0 <= i < items@.len() ==> is_wire_value(#[trigger] items@[i]),
    ensures
        r@.len() == items@.len(),
        forall|i: int| 0 <= i < items@.len() ==> json_view(#[trigger] r@[i]) == json_of(items@[i]),
        json_views(r@) == jsons_of(items@),
    decreases items,
{
    let mut out: Vec<JsonValue> = Vec::new();
    let mut i: usize = 0;
    while i < items.len()
        invariant
            i <= items@.len(),
            forall|j: int| 0 <= j < items@.len() ==> is_wire_value(#[trigger] items@[j]),
            out@.len() == i,
            forall|j: int| 0 <= j < i ==> json_view(#[trigger] out@[j]) == json_of(items@[j]),
        decreases items.len() - i,
    {
        let j = value_to_json(&items[i]);
        out.push(j);
        i = i + 1;
    }
    assert(json_views(out@) =~= jsons_of(items@));
    out
}

// ─── Message bodies ──────────────────────────────────────────────────────────

/// A message body as it could be decoded.
pub enum DecodedBody {
    /// The body decoded as one value.
    Single(DbusValue),
    /// The body decoded as a list of values.
    Many(Vec<DbusValue>),
    /// The body could be decoded neither way.
    Undecodable,
}

/// Every value a decoded body holds arrived over D-Bus.
pub open spec fn body_is_wire(b: DecodedBody) -> bool {
    match b {
        DecodedBody::Single(v) => is_wire_value(v),
        DecodedBody::Many(vs) => forall|i: int| 0 <= i < vs@.len() ==> is_wire_value(#[trigger] vs@[i]),
        DecodedBody::Undecodable => true,
    }
}

/// The JSON of a method reply: its one value; for a list, null when empty,
/// the value alone when there is one, else an array; null when undecodable.
pub open spec fn reply_json(b: DecodedBody) -> JsonView {
    match b {
        DecodedBody::Single(v) => json_of(v),
        DecodedBody::Many(vs) => if vs@.len() == 0 {
            JsonView::Null
        } else if vs@.len() == 1 {
            json_of(vs@[0])
        } else {
            JsonView::Array(jsons_of(vs@))
        },
        DecodedBody::Undecodable => JsonView::Null,
    }
}

/// The JSON arguments of a signal: one per value of the body.
pub open spec fn signal_args(b: DecodedBody) -> Seq<JsonView> {
    match b {
        DecodedBody::Single(v) => seq![json_of(v)],
        DecodedBody::Many(vs) => jsons_of(vs@),
        DecodedBody::Undecodable => seq![],
    }
}

/// The JSON of a method reply.
pub fn reply_to_json(b: &DecodedBody) -> (r: JsonValue)
    requires
        body_is_wire(*b),
    ensures
        json_view(r) == reply_json(*b),
{
    match b {
        DecodedBody::Single(v) => value_to_json(v),
        DecodedBody::Many(vs) => {
            if vs.len() == 0 {
                JsonValue::Null
            } else if vs.len() == 1 {
                value_to_json(&vs[0])
            } else {
                let out = values_to_json(vs);
                proof {
                    lemma_array_view(out);
                }
                JsonValue::Array(out)
            }
        },
        DecodedBody::Undecodable => JsonValue::Null,
    }
}

/// The JSON arguments of a signal.
pub fn signal_args_json(b: &DecodedBody) -> (r: Vec<JsonValue>)
    requires
        body_is_wire(*b),
    ensures
        json_views(r@) == signal_args(*b),
{
    match b {
        DecodedBody::Single(v) => {
            let r = vec![value_to_json(v)];
            assert(json_views(r@) =~= seq![json_of(*v)]);
            r
        },
        DecodedBody::Many(vs) => values_to_json(vs),
        DecodedBody::Undecodable => {
            let r: Vec<JsonValue> = Vec::new();
            assert(json_views(r@) =~= Seq::<JsonView>::empty());
            r
        },
    }
}

/// The object made by inserting the pairs in order: a later pair overrides an
/// earlier one with the same key.
pub open spec fn object_from(pairs: Seq<(Seq<char>, JsonView)>) -> Seq<(Seq<char>, JsonView)>
    decreases pairs.len(),
{
    if pairs.len() == 0 {
        seq![]
    } else {
        object_insert(
            object_from(pairs.subrange(0, pairs.len() - 1)),
            pairs[pairs.len() - 1].0,
            pairs[pairs.len() - 1].1,
        )
    }
}

/// The (name, JSON value) pairs of a property list.
pub open spec fn property_pairs(props: Seq<(String, DbusValue)>) -> Seq<(Seq<char>, JsonView)> {
    Seq::new(props.len(), |i: int| (props[i].0@, json_of(props[i].1)))
}

/// The JSON object of a property list: each property under its name.
pub fn properties_to_json(props: &Vec<(String, DbusValue)>) -> (r: JsonValue)
    requires
        forall|i: int| 0 <= i < props@.len() ==> is_wire_value(#[trigger] props@[i].1),
    ensures
        json_view(r) == JsonView::Object(object_from(property_pairs(props@))),
{
    let ghost pairs = property_pairs(props@);
    let mut obj: Vec<(String, JsonValue)> = Vec::new();
    let mut i: usize = 0;
    assert(entry_views(obj@) =~= object_from(pairs.subrange(0, 0)));
    while i < props.len()
        invariant
            i <= props@.len(),
            pairs == property_pairs(props@),
            forall|j: int| 0 <= j < props@.len() ==> is_wire_value(#[trigger] props@[j].1),
            entry_views(obj@) == object_from(pairs.subrange(0, i as int)),
            distinct_keys(entry_views(obj@)),
        decreases props.len() - i,
    {
        let jv = value_to_json(&props[i].1);
        object_set(&mut obj, props[i].0.clone(), jv);
        proof {
            let next = pairs.subrange(0, i + 1);
            assert(next.subrange(0, next.len() - 1) =~= pairs.subrange(0, i as int));
        }
        i = i + 1;
    }
    assert(pairs.subrange(0, props@.len() as int) =~= pairs);
    proof {
        lemma_object_view(obj);
    }
    JsonValue::Object(obj)
}

} // verus!
