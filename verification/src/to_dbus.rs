//! JSON call arguments to D-Bus values, guided by optional signature hints.
//!
//! A hint names the D-Bus type wanted (`y`, `b`, `n`, `q`, `i`, `u`, `x`, `t`,
//! `d`, `o`, `g`, `v` or an array `a…`); without a usable hint the type is
//! inferred from the JSON value.

use std::str::FromStr;
use vstd::prelude::*;
use crate::dbus_value::{
    DbusValue, DbusView, dbus_view, dbus_views, float_finite, int_json, is_basic, json_of,
    lemma_dbus_list_view,
};
use crate::json::{
    Float64, FloatView, JsonNumber, JsonValue, JsonView, NumberView, copy_float, copy_json,
    json_text, json_view, json_views, lemma_array_view, render_json,
};
use crate::text::{chars_of, concat2, push_str, str_eq, string_from_range};

verus! {

// ─── Outside calls ───────────────────────────────────────────────────────────

/// A character allowed in an object-path element.
pub open spec fn path_char(c: char) -> bool {
    ('a' <= c && c <= 'z') || ('A' <= c && c <= 'Z') || ('0' <= c && c <= '9') || c == '_'
}

/// A D-Bus object path: `/`, or `/` followed by non-empty elements of ASCII
/// letters, digits and `_`, separated by single `/`, with no trailing `/`.
pub open spec fn valid_object_path(s: Seq<char>) -> bool {
    &&& s.len() >= 1
    &&& s[0] == '/'
    &&& (s.len() == 1 || s[s.len() - 1] != '/')
    &&& forall|i: int| 1 <= i < s.len() ==> path_char(#[trigger] s[i]) || s[i] == '/'
    &&& forall|i: int| 0 <= i < s.len() - 1 ==> !(#[trigger] s[i] == '/' && s[i + 1] == '/')
}

/// The text of the signature that `zvariant::Signature::from_str` parses from
/// a string, as its `to_string` renders it; `None` where parsing fails.
pub uninterp spec fn parsed_signature(s: Seq<char>) -> Option<Seq<char>>;

/// `zvariant::ObjectPath::try_from`: accepts exactly the strings its
/// validation rules describe (at least one character, a leading `/`, no
/// trailing `/`, no `//`, only ASCII alphanumerics, `_` and `/`).
#[verifier::external_body]
pub(crate) fn object_path_accepted(s: &str) -> (r: bool)
    ensures
        r == valid_object_path(s@),
{
    zvariant::ObjectPath::try_from(s).is_ok()
}

/// `zvariant::Signature::from_str`, with the parsed signature rendered by its
/// `to_string`. The result is named `parsed_signature`; the grammar (with its
/// nesting limits, and the grouping of several top-level types into one
/// structure) is left to the outside crate and not restated here.
#[verifier::external_body]
fn parse_signature(s: &str) -> (r: Option<String>)
    ensures
        match r {
            Some(t) => parsed_signature(s@) == Some(t@),
            None => parsed_signature(s@) is None,
        },
{
    match zvariant::Signature::from_str(s) {
        Ok(sig) => Some(sig.to_string()),
        Err(_) => None,
    }
}

// ─── Errors ──────────────────────────────────────────────────────────────────

/// What a JSON value was expected to be for a signature hint.
#[derive(PartialEq, Eq, Structural, Clone, Copy, Debug)]
pub enum Expected {
    U8,
    Bool,
    I16,
    U16,
    I32,
    U32,
    I64,
    U64,
    F64,
    ObjectPathString,
    SignatureString,
}

/// Why a JSON value could not be converted.
pub enum ConversionError {
    /// The value does not have the JSON type the hint asks for.
    Expected(Expected),
    /// An array hint was given for a value that is not an array.
    ExpectedArray(String),
    /// The string is not a valid object path.
    InvalidObjectPath,
    /// The string given for a `g` hint is not a valid signature.
    InvalidSignature(String),
    /// The array hint itself is not a valid signature.
    InvalidArraySignature(String),
    /// An element's signature differs from the one the array was made for.
    SignatureMismatch { provided: String, expected: String },
}

/// The mathematical content of a conversion error.
pub enum ConversionErrorView {
    Expected(Expected),
    ExpectedArray(Seq<char>),
    InvalidObjectPath,
    InvalidSignature(Seq<char>),
    InvalidArraySignature(Seq<char>),
    SignatureMismatch(Seq<char>, Seq<char>),
}

impl View for ConversionError {
    type V = ConversionErrorView;

    open spec fn view(&self) -> ConversionErrorView {
        match self {
            ConversionError::Expected(e) => ConversionErrorView::Expected(*e),
            ConversionError::ExpectedArray(s) => ConversionErrorView::ExpectedArray(s@),
            ConversionError::InvalidObjectPath => ConversionErrorView::InvalidObjectPath,
            ConversionError::InvalidSignature(s) => ConversionErrorView::InvalidSignature(s@),
            ConversionError::InvalidArraySignature(s) => ConversionErrorView::InvalidArraySignature(s@),
            ConversionError::SignatureMismatch { provided, expected } =>
                ConversionErrorView::SignatureMismatch(provided@, expected@),
        }
    }
}

/// The name of what was expected, as it appears in error messages.
pub open spec fn expected_name(e: Expected) -> Seq<char> {
    match e {
        Expected::U8 => "u8"@,
        Expected::Bool => "bool"@,
        Expected::I16 => "i16"@,
        Expected::U16 => "u16"@,
        Expected::I32 => "i32"@,
        Expected::U32 => "u32"@,
        Expected::I64 => "i64"@,
        Expected::U64 => "u64"@,
        Expected::F64 => "f64"@,
        Expected::ObjectPathString => "object path string"@,
        Expected::SignatureString => "signature string"@,
    }
}

/// The message of a conversion error.
pub open spec fn error_message(e: ConversionErrorView) -> Seq<char> {
    match e {
        ConversionErrorView::Expected(x) => "expected "@ + expected_name(x),
        ConversionErrorView::ExpectedArray(s) => "expected array for sig '"@ + s + "'"@,
        ConversionErrorView::InvalidObjectPath => "Invalid object path"@,
        ConversionErrorView::InvalidSignature(s) => "invalid signature '"@ + s
            + "': InvalidSignature"@,
        ConversionErrorView::InvalidArraySignature(s) => "invalid array sig '"@ + s
            + "': InvalidSignature"@,
        ConversionErrorView::SignatureMismatch(p, x) => "Signature mismatch: got `"@ + p
            + "`, expected "@ + x,
    }
}

impl Expected {
    /// The name of what was expected.
    pub fn name(&self) -> (r: &'static str)
        ensures
            r@ == expected_name(*self),
    {
        match self {
            Expected::U8 => "u8",
            Expected::Bool => "bool",
            Expected::I16 => "i16",
            Expected::U16 => "u16",
            Expected::I32 => "i32",
            Expected::U32 => "u32",
            Expected::I64 => "i64",
            Expected::U64 => "u64",
            Expected::F64 => "f64",
            Expected::ObjectPathString => "object path string",
            Expected::SignatureString => "signature string",
        }
    }
}

impl ConversionError {
    /// The error's message.
    pub fn message(&self) -> (r: String)
        ensures
            r@ == error_message(self@),
    {
        match self {
            ConversionError::Expected(x) => concat2("expected ", x.name()),
            ConversionError::ExpectedArray(s) => {
                let mut m = concat2("expected array for sig '", s.as_str());
                push_str(&mut m, "'");
                m
            },
            ConversionError::InvalidObjectPath => "Invalid object path".to_owned(),
            ConversionError::InvalidSignature(s) => {
                let mut m = concat2("invalid signature '", s.as_str());
                push_str(&mut m, "': InvalidSignature");
                m
            },
            ConversionError::InvalidArraySignature(s) => {
                let mut m = concat2("invalid array sig '", s.as_str());
                push_str(&mut m, "': InvalidSignature");
                m
            },
            ConversionError::SignatureMismatch { provided, expected } => {
                let mut m = concat2("Signature mismatch: got `", provided.as_str());
                push_str(&mut m, "`, expected ");
                push_str(&mut m, expected.as_str());
                m
            },
        }
    }
}

// ─── JSON accessors ──────────────────────────────────────────────────────────

/// The value as a `u64`, where it is a non-negative integer.
pub open spec fn json_as_u64(j: JsonView) -> Option<u64> {
    match j {
        JsonView::Number(NumberView::PosInt(n)) => Some(n),
        _ => None,
    }
}

/// The value as an `i64`, where it is an integer in range.
pub open spec fn json_as_i64(j: JsonView) -> Option<i64> {
    match j {
        JsonView::Number(NumberView::PosInt(n)) => if n <= i64::MAX {
            Some(n as i64)
        } else {
            None
        },
        JsonView::Number(NumberView::NegInt(n)) => Some(n),
        _ => None,
    }
}

/// The value as a float, where it is a number.
pub open spec fn json_as_f64(j: JsonView) -> Option<FloatView> {
    match j {
        JsonView::Number(NumberView::PosInt(n)) => Some(FloatView::FromInteger(n as int)),
        JsonView::Number(NumberView::NegInt(n)) => Some(FloatView::FromInteger(n as int)),
        JsonView::Number(NumberView::Float(f)) => Some(f),
        _ => None,
    }
}

/// The value as a `u64`, where it is a non-negative integer.
pub fn as_u64(j: &JsonValue) -> (r: Option<u64>)
    ensures
        r == json_as_u64(json_view(*j)),
{
    match j {
        JsonValue::Number(JsonNumber::PosInt(n)) => Some(*n),
        _ => None,
    }
}

/// The value as an `i64`, where it is an integer in range.
pub fn as_i64(j: &JsonValue) -> (r: Option<i64>)
    ensures
        r == json_as_i64(json_view(*j)),
{
    match j {
        JsonValue::Number(JsonNumber::PosInt(n)) => if *n <= 0x7fff_ffff_ffff_ffffu64 {
            Some(*n as i64)
        } else {
            None
        },
        JsonValue::Number(JsonNumber::NegInt(n)) => Some(*n),
        _ => None,
    }
}

/// The value as a float, where it is a number.
pub fn as_f64(j: &JsonValue) -> (r: Option<Float64>)
    ensures
        match r {
            Some(f) => json_as_f64(json_view(*j)) == Some(f@),
            None => json_as_f64(json_view(*j)) is None,
        },
{
    match j {
        JsonValue::Number(JsonNumber::PosInt(n)) => Some(Float64::FromInteger(*n as i128)),
        JsonValue::Number(JsonNumber::NegInt(n)) => Some(Float64::FromInteger(*n as i128)),
        JsonValue::Number(JsonNumber::Float(f)) => Some(copy_float(f)),
        _ => None,
    }
}

// ─── The conversion ──────────────────────────────────────────────────────────

/// The signature text of a D-Bus value.
pub open spec fn signature_of(v: DbusView) -> Seq<char>
    decreases v,
{
    match v {
        DbusView::U8(_) => "y"@,
        DbusView::Bool(_) => "b"@,
        DbusView::I16(_) => "n"@,
        DbusView::U16(_) => "q"@,
        DbusView::I32(_) => "i"@,
        DbusView::U32(_) => "u"@,
        DbusView::I64(_) => "x"@,
        DbusView::U64(_) => "t"@,
        DbusView::Double(_) => "d"@,
        DbusView::Str(_) => "s"@,
        DbusView::Signature(_) => "g"@,
        DbusView::ObjectPath(_) => "o"@,
        DbusView::Variant(_) => "v"@,
        DbusView::Array { signature, .. } => signature,
        DbusView::Dict { signature, .. } => signature,
        DbusView::Structure(fields) => seq!['('] + fields_signature(fields) + seq![')'],
        DbusView::Fd(_) => "h"@,
    }
}

/// The signatures of structure fields, one after the other.
pub open spec fn fields_signature(fields: Seq<DbusView>) -> Seq<char>
    decreases fields,
{
    if fields.len() == 0 {
        seq![]
    } else {
        fields_signature(fields.subrange(0, fields.len() - 1)) + signature_of(
            fields[fields.len() - 1],
        )
    }
}

/// The value inferred from JSON alone: a string, a boolean, an `i32` where the
/// integer fits and an `i64` where it does not, a `u64` above `i64`'s range, a
/// double, or else a string holding the JSON text of the value.
pub open spec fn inferred_value(j: JsonView) -> DbusView {
    match j {
        JsonView::Str(s) => DbusView::Str(s),
        JsonView::Bool(b) => DbusView::Bool(b),
        _ => match json_as_i64(j) {
            Some(n) => if i32::MIN <= n <= i32::MAX {
                DbusView::I32(n as i32)
            } else {
                DbusView::I64(n)
            },
            None => match json_as_u64(j) {
                Some(n) => DbusView::U64(n),
                None => match json_as_f64(j) {
                    Some(f) => DbusView::Double(f),
                    None => DbusView::Str(json_text(j)),
                },
            },
        },
    }
}

/// The result of converting a JSON value under an optional signature hint.
pub open spec fn value_of_json(j: JsonView, sig: Option<Seq<char>>) -> Result<
    DbusView,
    ConversionErrorView,
>
    decreases j, if sig is Some {
        1int
    } else {
        0int
    },
{
    match sig {
        None => Ok(inferred_value(j)),
        Some(s) => if s == "y"@ {
            match json_as_u64(j) {
                Some(n) => Ok(DbusView::U8(n as u8)),
                None => Err(ConversionErrorView::Expected(Expected::U8)),
            }
        } else if s == "b"@ {
            match j {
                JsonView::Bool(b) => Ok(DbusView::Bool(b)),
                _ => Err(ConversionErrorView::Expected(Expected::Bool)),
            }
        } else if s == "n"@ {
            match json_as_i64(j) {
                Some(n) => Ok(DbusView::I16(n as i16)),
                None => Err(ConversionErrorView::Expected(Expected::I16)),
            }
        } else if s == "q"@ {
            match json_as_u64(j) {
                Some(n) => Ok(DbusView::U16(n as u16)),
                None => Err(ConversionErrorView::Expected(Expected::U16)),
            }
        } else if s == "i"@ {
            match json_as_i64(j) {
                Some(n) => Ok(DbusView::I32(n as i32)),
                None => Err(ConversionErrorView::Expected(Expected::I32)),
            }
        } else if s == "u"@ {
            match json_as_u64(j) {
                Some(n) => Ok(DbusView::U32(n as u32)),
                None => Err(ConversionErrorView::Expected(Expected::U32)),
            }
        } else if s == "x"@ {
            match json_as_i64(j) {
                Some(n) => Ok(DbusView::I64(n)),
                None => Err(ConversionErrorView::Expected(Expected::I64)),
            }
        } else if s == "t"@ {
            match json_as_u64(j) {
                Some(n) => Ok(DbusView::U64(n)),
                None => Err(ConversionErrorView::Expected(Expected::U64)),
            }
        } else if s == "d"@ {
            match json_as_f64(j) {
                Some(f) => Ok(DbusView::Double(f)),
                None => Err(ConversionErrorView::Expected(Expected::F64)),
            }
        } else if s == "o"@ {
            match j {
                JsonView::Str(t) => if valid_object_path(t) {
                    Ok(DbusView::ObjectPath(t))
                } else {
                    Err(ConversionErrorView::InvalidObjectPath)
                },
                _ => Err(ConversionErrorView::Expected(Expected::ObjectPathString)),
            }
        } else if s == "g"@ {
            match j {
                JsonView::Str(t) => match parsed_signature(t) {
                    Some(p) => Ok(DbusView::Signature(p)),
                    None => Err(ConversionErrorView::InvalidSignature(t)),
                },
                _ => Err(ConversionErrorView::Expected(Expected::SignatureString)),
            }
        } else if s == "v"@ {
            match value_of_json(j, None) {
                Ok(inner) => Ok(DbusView::Variant(Box::new(inner))),
                Err(e) => Err(e),
            }
        } else if s.len() > 1 && s[0] == 'a' {
            array_value(j, s)
        } else {
            Ok(inferred_value(j))
        },
    }
}

/// The result of converting a JSON value under an array hint `s` (`a` and at
/// least one more character): the value must be a JSON array and the element
/// hint `s[1..]` a valid signature; each item is converted under `s[1..]`
/// and must come out with the parsed element signature, and the array's
/// signature is `a` followed by it.
pub open spec fn array_value(j: JsonView, s: Seq<char>) -> Result<DbusView, ConversionErrorView>
    decreases j, 0int,
{
    match j {
        JsonView::Array(items) => match parsed_signature(s.subrange(1, s.len() as int)) {
            None => Err(ConversionErrorView::InvalidArraySignature(s)),
            Some(child) => match array_values(items, s.subrange(1, s.len() as int), child) {
                Ok(vs) => Ok(DbusView::Array { signature: seq!['a'] + child, items: vs }),
                Err(e) => Err(e),
            },
        },
        _ => Err(ConversionErrorView::ExpectedArray(s)),
    }
}

/// The elements converted in order under the hint `elem_sig`, each appended
/// only where its signature is `child`; the first failure is the result.
pub open spec fn array_values(items: Seq<JsonView>, elem_sig: Seq<char>, child: Seq<char>) -> Result<
    Seq<DbusView>,
    ConversionErrorView,
>
    decreases items, 0int,
{
    if items.len() == 0 {
        Ok(seq![])
    } else {
        match array_values(items.subrange(0, items.len() - 1), elem_sig, child) {
            Err(e) => Err(e),
            Ok(prev) => match value_of_json(items[items.len() - 1], Some(elem_sig)) {
                Err(e) => Err(e),
                Ok(v) => if signature_of(v) == child {
                    Ok(prev.push(v))
                } else {
                    Err(ConversionErrorView::SignatureMismatch(signature_of(v), child))
                },
            },
        }
    }
}

/// An optional string as an optional character sequence.
pub open spec fn opt_chars(s: Option<&str>) -> Option<Seq<char>> {
    match s {
        Some(t) => Some(t@),
        None => None,
    }
}

/// The mathematical content of a conversion's result.
pub open spec fn conversion_view(r: Result<DbusValue, ConversionError>) -> Result<
    DbusView,
    ConversionErrorView,
> {
    match r {
        Ok(v) => Ok(dbus_view(v)),
        Err(e) => Err(e@),
    }
}

/// A failure among the first `k` elements is the failure of the whole array.
pub proof fn lemma_array_values_prefix_err(
    items: Seq<JsonView>,
    elem_sig: Seq<char>,
    child: Seq<char>,
    k: int,
)
    requires
        0 <= k <= items.len(),
        array_values(items.subrange(0, k), elem_sig, child) is Err,
    ensures
        array_values(items, elem_sig, child) == array_values(items.subrange(0, k), elem_sig, child),
    decreases items.len() - k,
{
    if k < items.len() {
        let next = items.subrange(0, k + 1);
        assert(next.subrange(0, next.len() - 1) =~= items.subrange(0, k));
        lemma_array_values_prefix_err(items, elem_sig, child, k + 1);
    } else {
        assert(items.subrange(0, k) =~= items);
    }
}

/// No conversion produces a structure.
pub proof fn lemma_converted_not_structure(j: JsonView, sig: Option<Seq<char>>)
    ensures
        value_of_json(j, sig) matches Ok(v) ==> !(v is Structure),
{
    if let Some(s) = sig {
        if s.len() > 1 && s[0] == 'a' {
            assert(array_value(j, s) matches Ok(v) ==> v is Array);
        }
    }
}

/// The signature text of a value that is not a structure.
pub fn value_signature(v: &DbusValue) -> (r: String)
    requires
        !(dbus_view(*v) is Structure),
    ensures
        r@ == signature_of(dbus_view(*v)),
{
    match v {
        DbusValue::U8(_) => "y".to_owned(),
        DbusValue::Bool(_) => "b".to_owned(),
        DbusValue::I16(_) => "n".to_owned(),
        DbusValue::U16(_) => "q".to_owned(),
        DbusValue::I32(_) => "i".to_owned(),
        DbusValue::U32(_) => "u".to_owned(),
        DbusValue::I64(_) => "x".to_owned(),
        DbusValue::U64(_) => "t".to_owned(),
        DbusValue::Double(_) => "d".to_owned(),
        DbusValue::Str(_) => "s".to_owned(),
        DbusValue::Signature(_) => "g".to_owned(),
        DbusValue::ObjectPath(_) => "o".to_owned(),
        DbusValue::Variant(_) => "v".to_owned(),
        DbusValue::Array { signature, .. } => signature.clone(),
        DbusValue::Dict { signature, .. } => signature.clone(),
        DbusValue::Structure(_) => String::new(),
        DbusValue::Fd(_) => "h".to_owned(),
    }
}

/// The value inferred from a JSON value alone.
pub fn infer_value(j: &JsonValue) -> (r: DbusValue)
    ensures
        dbus_view(r) == inferred_value(json_view(*j)),
{
    match j {
        JsonValue::String(s) => DbusValue::Str(s.clone()),
        JsonValue::Bool(b) => DbusValue::Bool(*b),
        _ => match as_i64(j) {
            Some(n) => if -0x8000_0000i64 <= n && n <= 0x7fff_ffffi64 {
                DbusValue::I32(n as i32)
            } else {
                DbusValue::I64(n)
            },
            None => match as_u64(j) {
                Some(n) => DbusValue::U64(n),
                None => match as_f64(j) {
                    Some(f) => DbusValue::Double(f),
                    None => DbusValue::Str(render_json(j)),
                },
            },
        },
    }
}

/// Convert a JSON value to a D-Bus value under an optional signature hint.
pub fn json_to_value(json: &JsonValue, sig: Option<&str>) -> (r: Result<DbusValue, ConversionError>)
    ensures
        conversion_view(r) == value_of_json(json_view(*json), opt_chars(sig)),
    decreases json, if sig is Some {
        1int
    } else {
        0int
    },
{
    match sig {
        None => Ok(infer_value(json)),
        Some(s) => {
            if str_eq(s, "y") {
                match as_u64(json) {
                    Some(n) => Ok(DbusValue::U8(n as u8)),
                    None => Err(ConversionError::Expected(Expected::U8)),
                }
            } else if str_eq(s, "b") {
                match json {
                    JsonValue::Bool(b) => Ok(DbusValue::Bool(*b)),
                    _ => Err(ConversionError::Expected(Expected::Bool)),
                }
            } else if str_eq(s, "n") {
                match as_i64(json) {
                    Some(n) => Ok(DbusValue::I16(n as i16)),
                    None => Err(ConversionError::Expected(Expected::I16)),
                }
            } else if str_eq(s, "q") {
                match as_u64(json) {
                    Some(n) => Ok(DbusValue::U16(n as u16)),
                    None => Err(ConversionError::Expected(Expected::U16)),
                }
            } else if str_eq(s, "i") {
                match as_i64(json) {
                    Some(n) => Ok(DbusValue::I32(n as i32)),
                    None => Err(ConversionError::Expected(Expected::I32)),
                }
            } else if str_eq(s, "u") {
                match as_u64(json) {
                    Some(n) => Ok(DbusValue::U32(n as u32)),
                    None => Err(ConversionError::Expected(Expected::U32)),
                }
            } else if str_eq(s, "x") {
                match as_i64(json) {
                    Some(n) => Ok(DbusValue::I64(n)),
                    None => Err(ConversionError::Expected(Expected::I64)),
                }
            } else if str_eq(s, "t") {
                match as_u64(json) {
                    Some(n) => Ok(DbusValue::U64(n)),
                    None => Err(ConversionError::Expected(Expected::U64)),
                }
            } else if str_eq(s, "d") {
                match as_f64(json) {
                    Some(f) => Ok(DbusValue::Double(f)),
                    None => Err(ConversionError::Expected(Expected::F64)),
                }
            } else if str_eq(s, "o") {
                match json {
                    JsonValue::String(t) => if object_path_accepted(t.as_str()) {
                        Ok(DbusValue::ObjectPath(t.clone()))
                    } else {
                        Err(ConversionError::InvalidObjectPath)
                    },
                    _ => Err(ConversionError::Expected(Expected::ObjectPathString)),
                }
            } else if str_eq(s, "g") {
                match json {
                    JsonValue::String(t) => match parse_signature(t.as_str()) {
                        Some(p) => Ok(DbusValue::Signature(p)),
                        None => Err(ConversionError::InvalidSignature(t.clone())),
                    },
                    _ => Err(ConversionError::Expected(Expected::SignatureString)),
                }
            } else if str_eq(s, "v") {
                match json_to_value(json, None) {
                    Ok(inner) => Ok(DbusValue::Variant(Box::new(inner))),
                    Err(e) => Err(e),
                }
            } else {
                let cs = chars_of(s);
                if cs.len() > 1 && cs[0] == 'a' {
                    array_from_json(json, s)
                } else {
                    Ok(infer_value(json))
                }
            }
        },
    }
}

/// Convert a JSON array under an array hint `s`.
pub fn array_from_json(json: &JsonValue, s: &str) -> (r: Result<DbusValue, ConversionError>)
    requires
        s@.len() > 1,
        s@[0] == 'a',
    ensures
        conversion_view(r) == array_value(json_view(*json), s@),
    decreases json, 0int,
{
    match json {
        JsonValue::Array(items) => {
            let cs = chars_of(s);
            let elem_sig = string_from_range(&cs, 1, cs.len());
            match parse_signature(elem_sig.as_str()) {
                None => Err(ConversionError::InvalidArraySignature(s.to_owned())),
                Some(child) => {
                    let ghost jitems = json_views(items@);
                    proof {
                        lemma_array_view(*items);
                    }
                    assert(jitems.subrange(0, 0) =~= Seq::<JsonView>::empty());
                    let mut out: Vec<DbusValue> = Vec::new();
                    assert(dbus_views(out@) =~= Seq::<DbusView>::empty());
                    let mut i: usize = 0;
                    while i < items.len()
                        invariant
                            i <= items@.len(),
                            s@.len() > 1,
                            jitems == json_views(items@),
                            json_view(*json) == JsonView::Array(jitems),
                            elem_sig@ == s@.subrange(1, s@.len() as int),
                            parsed_signature(elem_sig@) == Some(child@),
                            array_values(jitems.subrange(0, i as int), elem_sig@, child@) == Ok::<
                                Seq<DbusView>,
                                ConversionErrorView,
                            >(dbus_views(out@)),
                            *json matches JsonValue::Array(v) && v == *items,
                        decreases items.len() - i,
                    {
                        proof {
                            assert(decreases_to!(*json => json->Array_0));
                            assert(decreases_to!(json->Array_0 => json->Array_0@));
                            assert(decreases_to!(json->Array_0@ => json->Array_0@[i as int]));
                        }
                        let elem = json_to_value(&items[i], Some(elem_sig.as_str()));
                        let ghost next = jitems.subrange(0, i + 1);
                        proof {
                            assert(next.subrange(0, next.len() - 1) =~= jitems.subrange(0, i as int));
                            assert(next[next.len() - 1] == json_view(items@[i as int]));
                        }
                        match elem {
                            Err(e) => {
                                proof {
                                    lemma_array_values_prefix_err(jitems, elem_sig@, child@, i + 1);
                                    assert(jitems.subrange(0, items@.len() as int) =~= jitems);
                                }
                                return Err(e);
                            },
                            Ok(v) => {
                                proof {
                                    lemma_converted_not_structure(
                                        json_view(items@[i as int]),
                                        Some(elem_sig@),
                                    );
                                }
                                let vs = value_signature(&v);
                                if str_eq(vs.as_str(), child.as_str()) {
                                    let ghost before = out@;
                                    out.push(v);
                                    proof {
                                        assert(dbus_views(out@) =~= dbus_views(before).push(
                                            dbus_view(v),
                                        ));
                                    }
                                } else {
                                    proof {
                                        lemma_array_values_prefix_err(
                                            jitems,
                                            elem_sig@,
                                            child@,
                                            i + 1,
                                        );
                                        assert(jitems.subrange(0, items@.len() as int) =~= jitems);
                                    }
                                    return Err(
                                        ConversionError::SignatureMismatch {
                                            provided: vs,
                                            expected: child,
                                        },
                                    );
                                }
                            },
                        }
                        i = i + 1;
                    }
                    proof {
                        assert(jitems.subrange(0, items@.len() as int) =~= jitems);
                    }
                    let signature = concat2("a", child.as_str());
                    let r = DbusValue::Array { signature, items: out };
                    proof {
                        lemma_dbus_list_view(r);
                        reveal_strlit("a");
                        assert("a"@ + child@ =~= seq!['a'] + child@);
                    }
                    Ok(r)
                },
            }
        },
        _ => Err(ConversionError::ExpectedArray(s.to_owned())),
    }
}

// ─── Round trips ─────────────────────────────────────────────────────────────

/// A JSON string, boolean, integer or finite float converted without a hint
/// comes back as the same JSON.
pub proof fn lemma_inferred_round_trip(j: JsonView, v: DbusValue)
    requires
        dbus_view(v) == inferred_value(j),
        match j {
            JsonView::Str(_) => true,
            JsonView::Bool(_) => true,
            JsonView::Number(NumberView::PosInt(_)) => true,
            JsonView::Number(NumberView::NegInt(n)) => n < 0,
            JsonView::Number(NumberView::Float(f)) => float_finite(f),
            _ => false,
        },
    ensures
        json_of(v) == j,
{
}

/// The one-letter signature texts.
proof fn lemma_signature_letters()
    ensures
        "y"@.len() == 1 && "y"@[0] == 'y',
        "b"@.len() == 1 && "b"@[0] == 'b',
        "n"@.len() == 1 && "n"@[0] == 'n',
        "q"@.len() == 1 && "q"@[0] == 'q',
        "i"@.len() == 1 && "i"@[0] == 'i',
        "u"@.len() == 1 && "u"@[0] == 'u',
        "x"@.len() == 1 && "x"@[0] == 'x',
        "t"@.len() == 1 && "t"@[0] == 't',
        "d"@.len() == 1 && "d"@[0] == 'd',
        "o"@.len() == 1 && "o"@[0] == 'o',
        "g"@.len() == 1 && "g"@[0] == 'g',
        "v"@.len() == 1 && "v"@[0] == 'v',
        "s"@.len() == 1 && "s"@[0] == 's',
{
    reveal_strlit("y");
    reveal_strlit("b");
    reveal_strlit("n");
    reveal_strlit("q");
    reveal_strlit("i");
    reveal_strlit("u");
    reveal_strlit("x");
    reveal_strlit("t");
    reveal_strlit("d");
    reveal_strlit("o");
    reveal_strlit("g");
    reveal_strlit("v");
    reveal_strlit("s");
}

/// A basic D-Bus value (other than a signature or a file descriptor; an
/// object path valid, a double finite) turned into JSON and converted back
/// under its own signature is the same value.
pub proof fn lemma_basic_round_trip(v: DbusValue)
    requires
        is_basic(v),
        !(v is Signature),
        !(v is Fd),
        v matches DbusValue::ObjectPath(p) ==> valid_object_path(p@),
        v matches DbusValue::Double(f) ==> float_finite(f@),
    ensures
        value_of_json(json_of(v), Some(signature_of(dbus_view(v)))) == Ok::<
            DbusView,
            ConversionErrorView,
        >(dbus_view(v)),
{
    lemma_signature_letters();
    let goal = value_of_json(json_of(v), Some(signature_of(dbus_view(v))));
    match v {
        DbusValue::U8(n) => {
            assert((n as u64) as u8 == n) by (bit_vector);
            assert(json_of(v) == JsonView::Number(NumberView::PosInt(n as u64)));
            assert(signature_of(dbus_view(v)) == "y"@);
            assert(json_as_u64(json_of(v)) == Some(n as u64));
            assert(goal == Ok::<DbusView, ConversionErrorView>(DbusView::U8(n)));
        },
        DbusValue::I16(n) => {
            assert(json_as_i64(int_json(n as int)) == Some(n as i64));
            assert((n as i64) as i16 == n) by (bit_vector);
            assert(goal == Ok::<DbusView, ConversionErrorView>(dbus_view(v)));
        },
        DbusValue::U16(n) => {
            assert((n as u64) as u16 == n) by (bit_vector);
            assert(goal == Ok::<DbusView, ConversionErrorView>(dbus_view(v)));
        },
        DbusValue::I32(n) => {
            assert(json_as_i64(int_json(n as int)) == Some(n as i64));
            assert((n as i64) as i32 == n) by (bit_vector);
            assert(goal == Ok::<DbusView, ConversionErrorView>(dbus_view(v)));
        },
        DbusValue::U32(n) => {
            assert((n as u64) as u32 == n) by (bit_vector);
            assert(goal == Ok::<DbusView, ConversionErrorView>(dbus_view(v)));
        },
        DbusValue::I64(n) => {
            assert(json_as_i64(int_json(n as int)) == Some(n));
            assert(goal == Ok::<DbusView, ConversionErrorView>(dbus_view(v)));
        },
        DbusValue::U64(n) => {
            assert(goal == Ok::<DbusView, ConversionErrorView>(dbus_view(v)));
        },
        DbusValue::Bool(n) => {
            assert(goal == Ok::<DbusView, ConversionErrorView>(dbus_view(v)));
        },
        DbusValue::Double(n) => {
            assert(goal == Ok::<DbusView, ConversionErrorView>(dbus_view(v)));
        },
        DbusValue::Str(n) => {
            assert(goal == Ok::<DbusView, ConversionErrorView>(dbus_view(v)));
        },
        DbusValue::ObjectPath(n) => {
            assert(goal == Ok::<DbusView, ConversionErrorView>(dbus_view(v)));
        },
        _ => {},
    }
}

/// Whether a JSON value is an integer in `lo..=hi`, in the form `serde_json`
/// gives such an integer (a negative one only as `NegInt`).
pub open spec fn json_int_within(j: JsonView, lo: int, hi: int) -> bool {
    match j {
        JsonView::Number(NumberView::PosInt(n)) => lo <= n && n <= hi,
        JsonView::Number(NumberView::NegInt(n)) => n < 0 && lo <= n && n <= hi,
        _ => false,
    }
}

/// Whether a JSON value is one of the D-Bus type that the one-letter hint `s`
/// names, within its range: an integer that fits for `y n q i u x t`, a
/// boolean for `b`, a valid object path for `o`, and for `g` a string that
/// parses as the signature it spells.
pub open spec fn json_fits_hint(j: JsonView, s: Seq<char>) -> bool {
    if s == "y"@ {
        json_int_within(j, 0, u8::MAX as int)
    } else if s == "b"@ {
        j is Bool
    } else if s == "n"@ {
        json_int_within(j, i16::MIN as int, i16::MAX as int)
    } else if s == "q"@ {
        json_int_within(j, 0, u16::MAX as int)
    } else if s == "i"@ {
        json_int_within(j, i32::MIN as int, i32::MAX as int)
    } else if s == "u"@ {
        json_int_within(j, 0, u32::MAX as int)
    } else if s == "x"@ {
        json_int_within(j, i64::MIN as int, i64::MAX as int)
    } else if s == "t"@ {
        json_int_within(j, 0, u64::MAX as int)
    } else if s == "o"@ {
        j matches JsonView::Str(t) && valid_object_path(t)
    } else if s == "g"@ {
        j matches JsonView::Str(t) && parsed_signature(t) == Some(t)
    } else {
        false
    }
}

/// A JSON value of the D-Bus type that a one-letter hint names, within its
/// range, converts under that hint, and the value it converts to turns back
/// into the same JSON.
pub proof fn lemma_hinted_round_trip(j: JsonView, s: Seq<char>, v: DbusValue)
    requires
        json_fits_hint(j, s),
    ensures
        value_of_json(j, Some(s)) is Ok,
        value_of_json(j, Some(s)) == Ok::<DbusView, ConversionErrorView>(dbus_view(v))
            ==> json_of(v) == j,
{
    lemma_signature_letters();
    let r = value_of_json(j, Some(s));
    if s == "y"@ {
        if let JsonView::Number(NumberView::PosInt(n)) = j {
            assert(n <= 255 ==> (n as u8) as u64 == n) by (bit_vector);
        }
    } else if s == "b"@ {
    } else if s == "n"@ {
        if let JsonView::Number(NumberView::PosInt(n)) = j {
            assert(n <= 32767 ==> ((n as i64) as i16) as int == n as int) by (bit_vector);
        }
        if let JsonView::Number(NumberView::NegInt(n)) = j {
            assert(-32768 <= n && n < 0 ==> (n as i16) as i64 == n) by (bit_vector);
        }
    } else if s == "q"@ {
        if let JsonView::Number(NumberView::PosInt(n)) = j {
            assert(n <= 65535 ==> (n as u16) as u64 == n) by (bit_vector);
        }
    } else if s == "i"@ {
        if let JsonView::Number(NumberView::PosInt(n)) = j {
            assert(n <= 0x7fff_ffff ==> ((n as i64) as i32) as int == n as int) by (bit_vector);
        }
        if let JsonView::Number(NumberView::NegInt(n)) = j {
            assert(-0x8000_0000 <= n && n < 0 ==> (n as i32) as i64 == n) by (bit_vector);
        }
    } else if s == "u"@ {
        if let JsonView::Number(NumberView::PosInt(n)) = j {
            assert(n <= 0xffff_ffff ==> (n as u32) as u64 == n) by (bit_vector);
        }
    } else if s == "x"@ {
        if let JsonView::Number(NumberView::PosInt(n)) = j {
            assert(n <= 0x7fff_ffff_ffff_ffff ==> ((n as i64) as int) == n as int) by (bit_vector);
        }
    } else if s == "t"@ {
    } else if s == "o"@ {
    } else {
    }
}

// ─── Method-call bodies ──────────────────────────────────────────────────────

/// Why a method-call body could not be built.
pub enum BodyError {
    /// An argument could not be converted.
    Conversion(ConversionError),
}

/// The mathematical content of a body error.
pub enum BodyErrorView {
    Conversion(ConversionErrorView),
}

impl View for BodyError {
    type V = BodyErrorView;

    open spec fn view(&self) -> BodyErrorView {
        match self {
            BodyError::Conversion(e) => BodyErrorView::Conversion(e@),
        }
    }
}

impl BodyError {
    /// The error's message.
    pub fn message(&self) -> (r: String)
        ensures
            r@ == match self@ {
                BodyErrorView::Conversion(e) => error_message(e),
            },
    {
        match self {
            BodyError::Conversion(e) => e.message(),
        }
    }
}

/// The signature hints as character sequences.
pub open spec fn hints_view(sigs: Option<&[&str]>) -> Option<Seq<Seq<char>>> {
    match sigs {
        Some(ss) => Some(Seq::new(ss@.len(), |i: int| ss@[i]@)),
        None => None,
    }
}

/// The hint for argument `i`, where there is one.
pub open spec fn hint_at(sigs: Option<Seq<Seq<char>>>, i: int) -> Option<Seq<char>> {
    match sigs {
        Some(ss) => if 0 <= i < ss.len() {
            Some(ss[i])
        } else {
            None
        },
        None => None,
    }
}

/// The arguments converted in order, each under its own hint; the first
/// failure is the result.
pub open spec fn converted_fields(args: Seq<JsonView>, sigs: Option<Seq<Seq<char>>>) -> Result<
    Seq<DbusView>,
    ConversionErrorView,
>
    decreases args.len(),
{
    if args.len() == 0 {
        Ok(seq![])
    } else {
        match converted_fields(args.subrange(0, args.len() - 1), sigs) {
            Err(e) => Err(e),
            Ok(prev) => match value_of_json(args[args.len() - 1], hint_at(sigs, args.len() - 1)) {
                Err(e) => Err(e),
                Ok(v) => Ok(prev.push(v)),
            },
        }
    }
}

/// The body of a method call with the given arguments: no arguments make the
/// empty body `()`, a structure without fields; one argument is sent as it
/// is; several are sent as a structure of their values.
pub open spec fn body_of_args(args: Seq<JsonView>, sigs: Option<Seq<Seq<char>>>) -> Result<
    DbusView,
    BodyErrorView,
> {
    if args.len() == 0 {
        Ok(DbusView::Structure(seq![]))
    } else if args.len() == 1 {
        match value_of_json(args[0], hint_at(sigs, 0)) {
            Ok(v) => Ok(v),
            Err(e) => Err(BodyErrorView::Conversion(e)),
        }
    } else {
        match converted_fields(args, sigs) {
            Ok(fs) => Ok(DbusView::Structure(fs)),
            Err(e) => Err(BodyErrorView::Conversion(e)),
        }
    }
}

/// The mathematical content of a body's result.
pub open spec fn body_view(r: Result<DbusValue, BodyError>) -> Result<DbusView, BodyErrorView> {
    match r {
        Ok(v) => Ok(dbus_view(v)),
        Err(e) => Err(e@),
    }
}

/// A failure among the first `k` arguments is the failure of the whole list.
pub proof fn lemma_converted_fields_prefix_err(
    args: Seq<JsonView>,
    sigs: Option<Seq<Seq<char>>>,
    k: int,
)
    requires
        0 <= k <= args.len(),
        converted_fields(args.subrange(0, k), sigs) is Err,
    ensures
        converted_fields(args, sigs) == converted_fields(args.subrange(0, k), sigs),
    decreases args.len() - k,
{
    if k < args.len() {
        let next = args.subrange(0, k + 1);
        assert(next.subrange(0, next.len() - 1) =~= args.subrange(0, k));
        lemma_converted_fields_prefix_err(args, sigs, k + 1);
    } else {
        assert(args.subrange(0, k) =~= args);
    }
}

/// The hint for argument `i`.
fn hint<'a>(sigs: Option<&'a [&'a str]>, i: usize) -> (r: Option<&'a str>)
    ensures
        opt_chars(r) == hint_at(hints_view(sigs), i as int),
{
    match sigs {
        Some(ss) => if i < ss.len() {
            Some(ss[i])
        } else {
            None
        },
        None => None,
    }
}

/// Convert JSON call arguments to a method-call body.
pub fn json_args_to_body(args: &[JsonValue], sigs: Option<&[&str]>) -> (r: Result<
    DbusValue,
    BodyError,
>)
    ensures
        body_view(r) == body_of_args(json_views(args@), hints_view(sigs)),
{
    let ghost jargs = json_views(args@);
    if args.len() == 0 {
        let r = DbusValue::Structure(Vec::new());
        proof {
            lemma_dbus_list_view(r);
            assert(dbus_views(Seq::<DbusValue>::empty()) =~= Seq::<DbusView>::empty());
        }
        return Ok(r);
    }
    if args.len() == 1 {
        return match json_to_value(&args[0], hint(sigs, 0)) {
            Ok(v) => Ok(v),
            Err(e) => Err(BodyError::Conversion(e)),
        };
    }
    let mut fields: Vec<DbusValue> = Vec::new();
    let mut i: usize = 0;
    assert(jargs.subrange(0, 0) =~= Seq::<JsonView>::empty());
    assert(dbus_views(fields@) =~= Seq::<DbusView>::empty());
    while i < args.len()
        invariant
            i <= args@.len(),
            jargs == json_views(args@),
            converted_fields(jargs.subrange(0, i as int), hints_view(sigs)) == Ok::<
                Seq<DbusView>,
                ConversionErrorView,
            >(dbus_views(fields@)),
        decreases args.len() - i,
    {
        let converted = json_to_value(&args[i], hint(sigs, i));
        let ghost next = jargs.subrange(0, i + 1);
        proof {
            assert(next.subrange(0, next.len() - 1) =~= jargs.subrange(0, i as int));
            assert(next[next.len() - 1] == json_view(args@[i as int]));
        }
        match converted {
            Err(e) => {
                proof {
                    lemma_converted_fields_prefix_err(jargs, hints_view(sigs), i + 1);
                }
                return Err(BodyError::Conversion(e));
            },
            Ok(v) => {
                let ghost before = fields@;
                fields.push(v);
                proof {
                    assert(dbus_views(fields@) =~= dbus_views(before).push(dbus_view(v)));
                }
            },
        }
        i = i + 1;
    }
    proof {
        assert(jargs.subrange(0, args@.len() as int) =~= jargs);
    }
    let r = DbusValue::Structure(fields);
    proof {
        lemma_dbus_list_view(r);
    }
    Ok(r)
}

/// The body to send with a method call: none without arguments, else the
/// body the arguments make.
pub fn method_call_body(args: &[JsonValue], sigs: Option<&[&str]>) -> (r: Result<
    Option<DbusValue>,
    BodyError,
>)
    ensures
        args@.len() == 0 ==> r matches Ok(None),
        args@.len() > 0 ==> match r {
            Ok(Some(v)) => body_of_args(json_views(args@), hints_view(sigs)) == Ok::<
                DbusView,
                BodyErrorView,
            >(dbus_view(v)),
            Ok(None) => false,
            Err(e) => body_of_args(json_views(args@), hints_view(sigs)) == Err::<
                DbusView,
                BodyErrorView,
            >(e@),
        },
{
    if args.len() == 0 {
        Ok(None)
    } else {
        match json_args_to_body(args, sigs) {
            Ok(v) => Ok(Some(v)),
            Err(e) => Err(e),
        }
    }
}

} // verus!
