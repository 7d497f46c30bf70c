//! Error and response records carried between the bridge and its sidecar.
use vstd::prelude::*;
use vstd::string::*;
use crate::json::{Json, JsonNumber, JsonV, NumberV, member_lookup, opt_i64, opt_str, lemma_items_view};

verus! {

/// JSON-RPC error object carried in an error response from the sidecar.
#[derive(Debug, PartialEq, Eq)]
pub struct RpcError {
    pub code: Option<i64>,
    pub message: String,
    pub traceback: Option<String>,
    pub backtrace: Option<String>,
}

/// A JSON-RPC error as the asynchronous client reports it.
#[derive(Debug, PartialEq, Eq)]
pub struct AsyncRpcError {
    pub code: Option<i64>,
    pub message: String,
    pub traceback: Option<String>,
    pub backtrace: Option<String>,
}

/// The content of an error record.
pub struct ErrorV {
    pub code: Option<i64>,
    pub message: Seq<char>,
    pub traceback: Option<Seq<char>>,
    pub backtrace: Option<Seq<char>>,
}

pub open spec fn opt_string_view(s: Option<String>) -> Option<Seq<char>> {
    match s {
        Some(t) => Some(t@),
        None => None,
    }
}

pub open spec fn opt_json_view(j: Option<Json>) -> Option<JsonV> {
    match j {
        Some(v) => Some(v@),
        None => None,
    }
}

impl View for RpcError {
    type V = ErrorV;

    open spec fn view(&self) -> ErrorV {
        ErrorV {
            code: self.code,
            message: self.message@,
            traceback: opt_string_view(self.traceback),
            backtrace: opt_string_view(self.backtrace),
        }
    }
}

impl View for AsyncRpcError {
    type V = ErrorV;

    open spec fn view(&self) -> ErrorV {
        ErrorV {
            code: self.code,
            message: self.message@,
            traceback: opt_string_view(self.traceback),
            backtrace: opt_string_view(self.backtrace),
        }
    }
}

pub open spec fn opt_error_view(e: Option<RpcError>) -> Option<ErrorV> {
    match e {
        Some(x) => Some(x@),
        None => None,
    }
}

/// A parsed response line from the sidecar (success or error, identified by id).
#[derive(Debug, PartialEq, Eq)]
pub struct RpcResponse {
    pub id: String,
    pub result: Option<Json>,
    pub error: Option<RpcError>,
}

pub struct ResponseV {
    pub id: Seq<char>,
    pub result: Option<JsonV>,
    pub error: Option<ErrorV>,
}

impl View for RpcResponse {
    type V = ResponseV;

    open spec fn view(&self) -> ResponseV {
        ResponseV { id: self.id@, result: opt_json_view(self.result), error: opt_error_view(self.error) }
    }
}

/// A single frame from a streaming sidecar response.
#[derive(Debug, PartialEq, Eq)]
pub struct StreamFrame {
    /// The chunk data, present for intermediate frames.
    pub chunk: Option<Json>,
    /// Set on the terminal frame.
    pub result: Option<Json>,
    /// Set if the stream ended with an error.
    pub error: Option<RpcError>,
}

pub struct FrameV {
    pub chunk: Option<JsonV>,
    pub result: Option<JsonV>,
    pub error: Option<ErrorV>,
}

impl View for StreamFrame {
    type V = FrameV;

    open spec fn view(&self) -> FrameV {
        FrameV { chunk: opt_json_view(self.chunk), result: opt_json_view(self.result), error: opt_error_view(self.error) }
    }
}

// ── Field decoding: how a record with these four fields is read from a JSON value ──

/// An `Option<i64>` field read from a present value: `null` is `None`, an
/// integer that fits is `Some`, anything else fails.
pub open spec fn present_opt_i64(v: JsonV) -> Option<Option<i64>> {
    match v {
        JsonV::Null => Some(None),
        JsonV::Number(NumberV::PosInt(n)) => if n <= i64::MAX { Some(Some(n as i64)) } else { None },
        JsonV::Number(NumberV::NegInt(n)) => Some(Some(n)),
        _ => None,
    }
}

/// An `Option<String>` field read from a present value.
pub open spec fn present_opt_str(v: JsonV) -> Option<Option<Seq<char>>> {
    match v {
        JsonV::Null => Some(None),
        JsonV::Str(s) => Some(Some(s)),
        _ => None,
    }
}

/// A `String` field read from a present value.
pub open spec fn present_str(v: JsonV) -> Option<Seq<char>> {
    match v {
        JsonV::Str(s) => Some(s),
        _ => None,
    }
}

/// An optional member: absent reads as `None`.
pub open spec fn member_opt_i64(v: Option<JsonV>) -> Option<Option<i64>> {
    match v {
        None => Some(None),
        Some(x) => present_opt_i64(x),
    }
}

pub open spec fn member_opt_str(v: Option<JsonV>) -> Option<Option<Seq<char>>> {
    match v {
        None => Some(None),
        Some(x) => present_opt_str(x),
    }
}

/// A required member: absent fails.
pub open spec fn member_str(v: Option<JsonV>) -> Option<Seq<char>> {
    match v {
        None => None,
        Some(x) => present_str(x),
    }
}

pub open spec fn assemble_error(
    code: Option<Option<i64>>,
    message: Option<Seq<char>>,
    traceback: Option<Option<Seq<char>>>,
    backtrace: Option<Option<Seq<char>>>,
) -> Option<ErrorV> {
    if code is Some && message is Some && traceback is Some && backtrace is Some {
        Some(ErrorV { code: code->0, message: message->0, traceback: traceback->0, backtrace: backtrace->0 })
    } else {
        None
    }
}

/// The error record that the strict decoder reads from `v`: an object whose
/// `message` is a string and whose `code`, `traceback` and `backtrace` are
/// absent, `null` or of the right type; or an array of exactly these four
/// values in order.  Anything else is not an error record.
pub open spec fn decode_error_spec(v: JsonV) -> Option<ErrorV> {
    match v {
        JsonV::Object(m) => assemble_error(
            member_opt_i64(member_lookup(m, "code"@)),
            member_str(member_lookup(m, "message"@)),
            member_opt_str(member_lookup(m, "traceback"@)),
            member_opt_str(member_lookup(m, "backtrace"@)),
        ),
        JsonV::Array(items) => if items.len() == 4 {
            assemble_error(
                present_opt_i64(items[0]),
                present_str(items[1]),
                present_opt_str(items[2]),
                present_opt_str(items[3]),
            )
        } else {
            None
        },
        _ => None,
    }
}

/// The error record that the lenient decoder reads from `v`: every field is
/// taken when it has the right type, and a missing message reads as
/// `"unknown error"`.
pub open spec fn lenient_error_spec(v: JsonV) -> ErrorV {
    ErrorV {
        code: opt_i64(v.get("code"@)),
        message: match opt_str(v.get("message"@)) {
            Some(s) => s,
            None => "unknown error"@,
        },
        traceback: opt_str(v.get("traceback"@)),
        backtrace: opt_str(v.get("backtrace"@)),
    }
}

// ── Executable field readers ──

/// `as_i64` of an optional value.
pub fn as_i64(v: Option<&Json>) -> (r: Option<i64>)
    ensures
        r == opt_i64(match v { Some(x) => Some(x@), None => None }),
{
    match v {
        Some(Json::Number(JsonNumber::PosInt(n))) => if *n <= i64::MAX as u64 { Some(*n as i64) } else { None },
        Some(Json::Number(JsonNumber::NegInt(n))) => Some(*n),
        _ => None,
    }
}

/// `as_str` of an optional value, copied out.
pub fn as_string(v: Option<&Json>) -> (r: Option<String>)
    ensures
        opt_string_view(r) == opt_str(match v { Some(x) => Some(x@), None => None }),
{
    match v {
        Some(Json::Str(s)) => Some(s.clone()),
        _ => None,
    }
}

/// `get(key).cloned()`.
pub fn member_copy(v: &Json, key: &str) -> (r: Option<Json>)
    ensures
        opt_json_view(r) == v@.get(key@),
{
    match v.get(key) {
        Some(x) => Some(x.copy()),
        None => None,
    }
}

fn present_opt_i64_exec(v: &Json) -> (r: Option<Option<i64>>)
    ensures
        r == present_opt_i64(v@),
{
    match v {
        Json::Null => Some(None),
        Json::Number(JsonNumber::PosInt(n)) => if *n <= i64::MAX as u64 { Some(Some(*n as i64)) } else { None },
        Json::Number(JsonNumber::NegInt(n)) => Some(Some(*n)),
        _ => None,
    }
}

fn present_opt_str_exec(v: &Json) -> (r: Option<Option<String>>)
    ensures
        match r {
            Some(x) => present_opt_str(v@) == Some(opt_string_view(x)),
            None => present_opt_str(v@) is None,
        },
{
    match v {
        Json::Null => Some(None),
        Json::Str(s) => Some(Some(s.clone())),
        _ => None,
    }
}

fn present_str_exec(v: &Json) -> (r: Option<String>)
    ensures
        opt_string_view(r) == present_str(v@),
{
    match v {
        Json::Str(s) => Some(s.clone()),
        _ => None,
    }
}

fn member_opt_i64_exec(v: Option<&Json>) -> (r: Option<Option<i64>>)
    ensures
        r == member_opt_i64(match v { Some(x) => Some(x@), None => None }),
{
    match v {
        None => Some(None),
        Some(x) => present_opt_i64_exec(x),
    }
}

fn member_opt_str_exec(v: Option<&Json>) -> (r: Option<Option<String>>)
    ensures
        match r {
            Some(x) => member_opt_str(match v { Some(y) => Some(y@), None => None }) == Some(opt_string_view(x)),
            None => member_opt_str(match v { Some(y) => Some(y@), None => None }) is None,
        },
{
    match v {
        None => Some(None),
        Some(x) => present_opt_str_exec(x),
    }
}

fn member_str_exec(v: Option<&Json>) -> (r: Option<String>)
    ensures
        opt_string_view(r) == member_str(match v { Some(x) => Some(x@), None => None }),
{
    match v {
        None => None,
        Some(x) => present_str_exec(x),
    }
}

fn assemble_error_exec(
    code: Option<Option<i64>>,
    message: Option<String>,
    traceback: Option<Option<String>>,
    backtrace: Option<Option<String>>,
) -> (r: Option<RpcError>)
    ensures
        opt_error_view(r) == assemble_error(
            code,
            opt_string_view(message),
            match traceback { Some(t) => Some(opt_string_view(t)), None => None },
            match backtrace { Some(t) => Some(opt_string_view(t)), None => None },
        ),
{
    match (code, message, traceback, backtrace) {
        (Some(c), Some(m), Some(t), Some(b)) => Some(RpcError { code: c, message: m, traceback: t, backtrace: b }),
        _ => None,
    }
}

impl RpcError {
    /// Reads an error record from the `error` member of a response, field by
    /// field, the way `serde` reads a record with these four fields from a
    /// JSON value (an object, or an array of the four values in order).
    pub fn from_json(v: &Json) -> (r: Option<RpcError>)
        ensures
            opt_error_view(r) == decode_error_spec(v@),
    {
        match v {
            Json::Object(_) => {
                let code = member_opt_i64_exec(v.get("code"));
                let message = member_str_exec(v.get("message"));
                let traceback = member_opt_str_exec(v.get("traceback"));
                let backtrace = member_opt_str_exec(v.get("backtrace"));
                assemble_error_exec(code, message, traceback, backtrace)
            },
            Json::Array(items) => {
                if items.len() == 4 {
                    proof {
                        lemma_items_view(items@);
                    }
                    let code = present_opt_i64_exec(&items[0]);
                    let message = present_str_exec(&items[1]);
                    let traceback = present_opt_str_exec(&items[2]);
                    let backtrace = present_opt_str_exec(&items[3]);
                    assemble_error_exec(code, message, traceback, backtrace)
                } else {
                    proof {
                        lemma_items_view(items@);
                    }
                    None
                }
            },
            _ => None,
        }
    }

    /// The text the error displays as: its message.
    pub fn to_text(&self) -> (s: String)
        ensures
            s@ == self.message@,
    {
        self.message.clone()
    }

    /// A copy of the record.
    pub fn copy(&self) -> (r: RpcError)
        ensures
            r@ == self@,
    {
        RpcError {
            code: self.code,
            message: self.message.clone(),
            traceback: match &self.traceback { Some(t) => Some(t.clone()), None => None },
            backtrace: match &self.backtrace { Some(t) => Some(t.clone()), None => None },
        }
    }
}

/// Reads an error record leniently: each field is taken when present with
/// the right type, and a missing message reads as `"unknown error"`.
pub fn parse_rpc_error(v: &Json) -> (e: AsyncRpcError)
    ensures
        e@ == lenient_error_spec(v@),
{
    let message = match as_string(v.get("message")) {
        Some(m) => m,
        None => "unknown error".to_owned(),
    };
    AsyncRpcError {
        code: as_i64(v.get("code")),
        message,
        traceback: as_string(v.get("traceback")),
        backtrace: as_string(v.get("backtrace")),
    }
}

impl AsyncRpcError {
    /// The text the error displays as: its message.
    pub fn to_text(&self) -> (s: String)
        ensures
            s@ == self.message@,
    {
        self.message.clone()
    }

    /// The error with the given message and no other field.
    pub fn with_message(message: String) -> (e: AsyncRpcError)
        ensures
            e@ == (ErrorV { code: None, message: message@, traceback: None, backtrace: None }),
    {
        AsyncRpcError { code: None, message, traceback: None, backtrace: None }
    }
}

impl From<AsyncRpcError> for String {
    fn from(e: AsyncRpcError) -> (s: String) {
        e.message
    }
}

impl vstd::std_specs::convert::FromSpecImpl<AsyncRpcError> for String {
    open spec fn obeys_from_spec() -> bool {
        true
    }

    open spec fn from_spec(e: AsyncRpcError) -> String {
        e.message
    }
}

} // verus!
