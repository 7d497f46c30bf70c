//! Between lines of text and JSON values: trimming as `str::trim` does,
//! parsing with `serde_json`, and writing a value as `serde_json` writes it.
use vstd::prelude::*;
use vstd::string::*;
use serde_json::Value;
use crate::json::{Json, JsonNumber};

verus! {

/// A character with the Unicode property `White_Space`, which is what
/// `str::trim` removes.
pub open spec fn is_white_space(c: char) -> bool {
    ('\u{9}' <= c && c <= '\u{d}') || c == ' ' || c == '\u{85}' || c == '\u{a0}' || c == '\u{1680}'
        || ('\u{2000}' <= c && c <= '\u{200a}') || c == '\u{2028}' || c == '\u{2029}' || c == '\u{202f}'
        || c == '\u{205f}' || c == '\u{3000}'
}

/// `s` without its leading white space.
pub open spec fn trim_start_spec(s: Seq<char>) -> Seq<char>
    decreases s.len(),
{
    if s.len() > 0 && is_white_space(s[0]) {
        trim_start_spec(s.subrange(1, s.len() as int))
    } else {
        s
    }
}

/// `s` without its trailing white space.
pub open spec fn trim_end_spec(s: Seq<char>) -> Seq<char>
    decreases s.len(),
{
    if s.len() > 0 && is_white_space(s.last()) {
        trim_end_spec(s.drop_last())
    } else {
        s
    }
}

/// `s` without its leading and trailing white space.
pub open spec fn trim_spec(s: Seq<char>) -> Seq<char> {
    trim_end_spec(trim_start_spec(s))
}

/// `str::trim`: the text without leading and trailing white space, as the
/// standard library documents it (white space is the Unicode `White_Space`
/// property).
#[verifier::external_body]
pub fn trim_text(s: &str) -> (r: &str)
    ensures
        r@ == trim_spec(s@),
{
    s.trim()
}

/// The JSON value that `serde_json` parses from `text`, if it parses.
pub uninterp spec fn json_text_value(text: Seq<char>) -> Option<crate::json::JsonV>;

/// How `serde_json`'s error for `text` displays and debug-prints.
pub uninterp spec fn json_text_error(text: Seq<char>) -> (Seq<char>, Seq<char>);

#[verifier::external_type_specification]
#[verifier::external_body]
pub struct ExValue(serde_json::Value);

/// The library's value for a value that `serde_json` parsed: each variant to
/// its like, a number to a non-negative or negative integer when it is one,
/// else to its text.
#[verifier::external_body]
fn json_of_value(v: Value) -> Json {
    match v {
        Value::Null => Json::Null,
        Value::Bool(b) => Json::Bool(b),
        Value::Number(n) => Json::Number(match (n.as_u64(), n.as_i64()) {
            (Some(u), _) => JsonNumber::PosInt(u),
            (None, Some(i)) => JsonNumber::NegInt(i),
            (None, None) => JsonNumber::Float(n.to_string()),
        }),
        Value::String(s) => Json::Str(s),
        Value::Array(a) => Json::Array(a.into_iter().map(json_of_value).collect()),
        Value::Object(m) => Json::Object(m.into_iter().map(|(k, x)| (k, json_of_value(x))).collect()),
    }
}

/// `serde_json::from_str::<Value>(text)`, as a library value; on
/// failure, the error as displayed and as debug-printed.  The result is a
/// function of the text alone.
#[verifier::external_body]
pub fn parse_json_text(text: &str) -> (r: Result<Json, (String, String)>)
    ensures
        match r {
            Ok(j) => json_text_value(text@) == Some(j@),
            Err((m, d)) => json_text_value(text@) is None && (m@, d@) == json_text_error(text@),
        },
{
    serde_json::from_str::<Value>(text).map(json_of_value).map_err(|e| (e.to_string(), format!("{e:?}")))
}

/// The text `serde_json` writes for a value: compact, on one line, with the
/// members of each object in the order of `serde_json`'s map.
pub uninterp spec fn json_text_of(v: crate::json::JsonV) -> Seq<char>;

/// The `serde_json` value for a library value: each variant to its like, an
/// integer to the number of that integer, number text to the number
/// `serde_json` reads from it (`null` when it reads none), and an object's
/// members into `serde_json`'s map.
#[verifier::external_body]
fn value_of_json(j: &Json) -> Value {
    match j {
        Json::Null => Value::Null,
        Json::Bool(b) => Value::Bool(*b),
        Json::Number(JsonNumber::PosInt(u)) => Value::from(*u),
        Json::Number(JsonNumber::NegInt(i)) => Value::from(*i),
        Json::Number(JsonNumber::Float(t)) => serde_json::from_str::<serde_json::Number>(t).map(Value::Number).unwrap_or(Value::Null),
        Json::Str(s) => Value::String(s.clone()),
        Json::Array(a) => Value::Array(a.iter().map(value_of_json).collect()),
        Json::Object(m) => Value::Object(m.iter().map(|(k, x)| (k.clone(), value_of_json(x))).collect()),
    }
}

/// `serde_json::to_string` of the value: the text `serde_json` writes for it.
/// Writing a `serde_json::Value` does not fail (its map keys are strings), and
/// the text is a function of the value alone.
#[verifier::external_body]
pub fn json_text(j: &Json) -> (s: String)
    ensures
        s@ == json_text_of(j@),
{
    serde_json::to_string(&value_of_json(j)).unwrap_or_default()
}

/// A line of the protocol: the text of a value, then a newline.
pub open spec fn json_line_of(v: crate::json::JsonV) -> Seq<char> {
    json_text_of(v).push('\n')
}

/// The line that carries `j`: its text and a newline.
pub fn json_line(j: &Json) -> (s: String)
    ensures
        s@ == json_line_of(j@),
{
    let mut s = json_text(j);
    let ghost t = s@;
    s.append("\n");
    proof {
        reveal_strlit("\n");
        assert(s@ =~= t.push('\n'));
    }
    s
}

/// The JSON value a raw line carries: none when the line is blank once
/// trimmed, else what the trimmed text parses to, if it parses.
pub open spec fn line_value(raw: Seq<char>) -> Option<crate::json::JsonV> {
    if trim_spec(raw).len() == 0 {
        None
    } else {
        json_text_value(trim_spec(raw))
    }
}

/// What a raw line holds.
pub enum LineText {
    /// Nothing but white space.
    Blank,
    /// Text that is not JSON: the parser's error, displayed and debug-printed.
    Malformed(String, String),
    /// A JSON value.
    Value(Json),
}

/// Trims a raw line and parses what is left.
pub fn read_line_text(raw: &str) -> (r: LineText)
    ensures
        trim_spec(raw@).len() == 0 ==> r is Blank,
        trim_spec(raw@).len() != 0 ==> match json_text_value(trim_spec(raw@)) {
            None => r matches LineText::Malformed(m, d) && (m@, d@) == json_text_error(trim_spec(raw@)),
            Some(v) => r matches LineText::Value(j) && j@ == v,
        },
{
    let t = trim_text(raw);
    if t.is_empty() {
        return LineText::Blank;
    }
    match parse_json_text(t) {
        Ok(j) => LineText::Value(j),
        Err((m, d)) => LineText::Malformed(m, d),
    }
}

} // verus!
