//! A model of JSON values as the server exchanges them with its clients:
//! numbers keep the three representations `serde_json` distinguishes.

use vstd::prelude::*;

verus! {

/// A 64-bit IEEE float as it travels through the library: either its bit
/// pattern together with the text `serde_json` renders for it, or the double
/// nearest to an integer (as `as f64` rounds), whose bits are computed where
/// the value leaves the library.
pub enum Float64 {
    Bits { bits: u64, text: String },
    FromInteger(i128),
}

/// A JSON number: non-negative integer, negative integer, or float.
pub enum JsonNumber {
    PosInt(u64),
    NegInt(i64),
    Float(Float64),
}

/// A JSON value. Objects are lists of (key, value) entries with distinct keys.
pub enum JsonValue {
    Null,
    Bool(bool),
    Number(JsonNumber),
    String(String),
    Array(Vec<JsonValue>),
    Object(Vec<(String, JsonValue)>),
}

/// The mathematical content of a `Float64`.
pub enum FloatView {
    Bits(u64, Seq<char>),
    FromInteger(int),
}

/// The mathematical content of a `JsonNumber`.
pub enum NumberView {
    PosInt(u64),
    NegInt(i64),
    Float(FloatView),
}

/// The mathematical content of a `JsonValue`.
pub enum JsonView {
    Null,
    Bool(bool),
    Number(NumberView),
    Str(Seq<char>),
    Array(Seq<JsonView>),
    Object(Seq<(Seq<char>, JsonView)>),
}

impl View for Float64 {
    type V = FloatView;

    open spec fn view(&self) -> FloatView {
        match self {
            Float64::Bits { bits, text } => FloatView::Bits(*bits, text@),
            Float64::FromInteger(n) => FloatView::FromInteger(*n as int),
        }
    }
}

impl View for JsonNumber {
    type V = NumberView;

    open spec fn view(&self) -> NumberView {
        match self {
            JsonNumber::PosInt(n) => NumberView::PosInt(*n),
            JsonNumber::NegInt(n) => NumberView::NegInt(*n),
            JsonNumber::Float(f) => NumberView::Float(f@),
        }
    }
}

/// The mathematical content of a JSON value.
pub open spec fn json_view(v: JsonValue) -> JsonView
    decreases v,
{
    match v {
        JsonValue::Null => JsonView::Null,
        JsonValue::Bool(b) => JsonView::Bool(b),
        JsonValue::Number(n) => JsonView::Number(n@),
        JsonValue::String(s) => JsonView::Str(s@),
        JsonValue::Array(items) => JsonView::Array(
            Seq::new(
                items@.len(),
                |i: int|
                    if 0 <= i < items@.len() {
                        json_view(items@[i])
                    } else {
                        JsonView::Null
                    },
            ),
        ),
        JsonValue::Object(entries) => JsonView::Object(
            Seq::new(
                entries@.len(),
                |i: int|
                    if 0 <= i < entries@.len() {
                        (entries@[i].0@, json_view(entries@[i].1))
                    } else {
                        (Seq::empty(), JsonView::Null)
                    },
            ),
        ),
    }
}

/// The views of a list of JSON values.
pub open spec fn json_views(vs: Seq<JsonValue>) -> Seq<JsonView> {
    Seq::new(vs.len(), |i: int| json_view(vs[i]))
}

/// The views of a list of JSON object entries.
pub open spec fn entry_views(es: Seq<(String, JsonValue)>) -> Seq<(Seq<char>, JsonView)> {
    Seq::new(es.len(), |i: int| (es[i].0@, json_view(es[i].1)))
}

/// The view of a JSON object is the list of its entries' views.
pub proof fn lemma_object_view(v: Vec<(String, JsonValue)>)
    ensures
        json_view(JsonValue::Object(v)) == JsonView::Object(entry_views(v@)),
{
    let j = json_view(JsonValue::Object(v));
    assert(j->Object_0 =~= entry_views(v@));
}

/// The view of a JSON array is the list of its items' views.
pub proof fn lemma_array_view(v: Vec<JsonValue>)
    ensures
        json_view(JsonValue::Array(v)) == JsonView::Array(json_views(v@)),
{
    let j = json_view(JsonValue::Array(v));
    assert(j->Array_0 =~= json_views(v@));
}

/// The compact text `serde_json` renders for a JSON value
/// (`serde_json::Value`'s `to_string`): object keys in its map's order,
/// strings escaped, floats as it prints them.
pub uninterp spec fn json_text(j: JsonView) -> Seq<char>;

#[verifier::external_type_specification]
#[verifier::external_body]
pub struct ExSerdeJsonValue(serde_json::Value);

/// The `serde_json` number with the same content. A float is read back from
/// the text `serde_json` printed for it; the double nearest an integer is
/// read from that integer's decimal with `.0`.
#[verifier::external_body]
fn serde_json_number(n: &JsonNumber) -> serde_json::Value {
    match n {
        JsonNumber::PosInt(v) => serde_json::Value::from(*v),
        JsonNumber::NegInt(v) => serde_json::Value::from(*v),
        JsonNumber::Float(Float64::Bits { text, .. }) => serde_json::from_str(text).unwrap_or_default(),
        JsonNumber::Float(Float64::FromInteger(v)) => serde_json::from_str(&format!("{v}.0")).unwrap_or_default(),
    }
}

/// The `serde_json::Value` with the same content, variant for variant.
#[verifier::external_body]
fn serde_json_value(j: &JsonValue) -> serde_json::Value {
    match j {
        JsonValue::Null => serde_json::Value::Null,
        JsonValue::Bool(b) => serde_json::Value::Bool(*b),
        JsonValue::Number(n) => serde_json_number(n),
        JsonValue::String(t) => serde_json::Value::String(t.clone()),
        JsonValue::Array(a) => serde_json::Value::Array(a.iter().map(serde_json_value).collect()),
        JsonValue::Object(o) => serde_json::Value::Object(o.iter().map(|(k, v)| (k.clone(), serde_json_value(v))).collect()),
    }
}

/// `serde_json::Value`'s `to_string`: the compact JSON text of a value,
/// named `json_text`. Of the text nothing more is stated here.
#[verifier::external_body]
pub(crate) fn render_json(j: &JsonValue) -> (r: String)
    ensures
        r@ == json_text(json_view(*j)),
{
    serde_json_value(j).to_string()
}

/// A copy of a float.
pub fn copy_float(f: &Float64) -> (r: Float64)
    ensures
        r@ == f@,
{
    match f {
        Float64::Bits { bits, text } => Float64::Bits { bits: *bits, text: text.clone() },
        Float64::FromInteger(n) => Float64::FromInteger(*n),
    }
}

/// A copy of a JSON number.
pub fn copy_number(n: &JsonNumber) -> (r: JsonNumber)
    ensures
        r@ == n@,
{
    match n {
        JsonNumber::PosInt(v) => JsonNumber::PosInt(*v),
        JsonNumber::NegInt(v) => JsonNumber::NegInt(*v),
        JsonNumber::Float(f) => JsonNumber::Float(copy_float(f)),
    }
}

/// A deep copy of a JSON value.
pub fn copy_json(j: &JsonValue) -> (r: JsonValue)
    ensures
        json_view(r) == json_view(*j),
    decreases j,
{
    match j {
        JsonValue::Null => JsonValue::Null,
        JsonValue::Bool(b) => JsonValue::Bool(*b),
        JsonValue::Number(n) => JsonValue::Number(copy_number(n)),
        JsonValue::String(s) => JsonValue::String(s.clone()),
        JsonValue::Array(items) => {
            let mut out: Vec<JsonValue> = Vec::new();
            let mut i: usize = 0;
            while i < items.len()
                invariant
                    i <= items@.len(),
                    out@.len() == i,
                    forall|k: int| 0 <= k < i ==> json_view(#[trigger] out@[k]) == json_view(items@[k]),
                    *j matches JsonValue::Array(v) && v == *items,
                decreases items.len() - i,
            {
                proof {
                    assert(decreases_to!(*j => j->Array_0));
                    assert(decreases_to!(j->Array_0 => j->Array_0@));
                    assert(decreases_to!(j->Array_0@ => j->Array_0@[i as int]));
                }
                let c = copy_json(&items[i]);
                out.push(c);
                i = i + 1;
            }
            proof {
                lemma_array_view(out);
                lemma_array_view(*items);
                assert(json_views(out@) =~= json_views(items@));
            }
            JsonValue::Array(out)
        },
        JsonValue::Object(entries) => {
            let mut out: Vec<(String, JsonValue)> = Vec::new();
            let mut i: usize = 0;
            while i < entries.len()
                invariant
                    i <= entries@.len(),
                    out@.len() == i,
                    forall|k: int|
                        0 <= k < i ==> (#[trigger] out@[k]).0@ == entries@[k].0@ && json_view(out@[k].1)
                            == json_view(entries@[k].1),
                    *j matches JsonValue::Object(v) && v == *entries,
                decreases entries.len() - i,
            {
                proof {
                    assert(decreases_to!(*j => j->Object_0));
                    assert(decreases_to!(j->Object_0 => j->Object_0@));
                    assert(decreases_to!(j->Object_0@ => j->Object_0@[i as int]));
                    assert(decreases_to!(j->Object_0@[i as int] => j->Object_0@[i as int].1));
                }
                let c = copy_json(&entries[i].1);
                out.push((entries[i].0.clone(), c));
                i = i + 1;
            }
            proof {
                lemma_object_view(out);
                lemma_object_view(*entries);
                assert(entry_views(out@) =~= entry_views(entries@));
            }
            JsonValue::Object(out)
        },
    }
}

} // verus!
