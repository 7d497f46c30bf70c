//! The lines of the protocol: requests the bridge writes, and the ready
//! signal, responses, chunks and errors the sidecar writes.
use vstd::prelude::*;
use vstd::string::*;
use crate::json::{Json, JsonNumber, JsonV, NumberV, object1, object2, object, array, string, empty_object, opt_str};
use crate::lines::{LineText, read_line_text, trim_spec, json_text_value, json_text_error, json_line, json_line_of};

verus! {

// ── The shapes of the lines ──

/// A request: `{"id","method","params"}`, with `"stream":true` for a streaming call.
pub open spec fn request_spec(id: Seq<char>, method: Seq<char>, params: JsonV, stream: bool) -> JsonV {
    if stream {
        JsonV::Object(seq![("id"@, JsonV::Str(id)), ("method"@, JsonV::Str(method)), ("params"@, params), ("stream"@, JsonV::Bool(true))])
    } else {
        JsonV::Object(seq![("id"@, JsonV::Str(id)), ("method"@, JsonV::Str(method)), ("params"@, params)])
    }
}

/// A success response `{"id","result"}`.
pub open spec fn response_spec(id: Seq<char>, result: JsonV) -> JsonV {
    JsonV::Object(seq![("id"@, JsonV::Str(id)), ("result"@, result)])
}

/// The body of an error response.
pub open spec fn error_body_spec(message: Seq<char>, traceback: Seq<char>) -> JsonV {
    JsonV::Object(seq![("message"@, JsonV::Str(message)), ("traceback"@, JsonV::Str(traceback))])
}

/// An error response `{"id","error":{"message","traceback"}}`.
pub open spec fn error_response_spec(id: Seq<char>, message: Seq<char>, traceback: Seq<char>) -> JsonV {
    JsonV::Object(seq![("id"@, JsonV::Str(id)), ("error"@, error_body_spec(message, traceback))])
}

/// The answer to a line that is not JSON: an error response with a `null` id.
pub open spec fn parse_error_spec(display: Seq<char>, debug: Seq<char>) -> JsonV {
    JsonV::Object(seq![("id"@, JsonV::Null), ("error"@, error_body_spec("JSON parse error: "@ + display, debug))])
}

/// A chunk frame `{"id","chunk"}`.
pub open spec fn chunk_spec(id: Seq<char>, chunk: JsonV) -> JsonV {
    JsonV::Object(seq![("id"@, JsonV::Str(id)), ("chunk"@, chunk)])
}

/// The frame that ends a stream: a response whose result is `{}`.
pub open spec fn stream_end_spec(id: Seq<char>) -> JsonV {
    response_spec(id, JsonV::Object(Seq::empty()))
}

/// The ready signal `{"ready":true}`.
pub open spec fn ready_spec() -> JsonV {
    JsonV::Object(seq![("ready"@, JsonV::Bool(true))])
}

/// The ready signal that lists method names.
pub open spec fn ready_methods_spec(methods: Seq<Seq<char>>) -> JsonV {
    JsonV::Object(seq![
        ("ready"@, JsonV::Bool(true)),
        ("methods"@, JsonV::Array(Seq::new(methods.len(), |i: int| JsonV::Str(methods[i])))),
    ])
}

/// The answer to the built-in `__ping__`.
pub open spec fn pong_spec(pid: u32) -> JsonV {
    JsonV::Object(seq![("pong"@, JsonV::Bool(true)), ("pid"@, JsonV::Number(NumberV::PosInt(pid as u64)))])
}

/// The name of the built-in health check.
pub open spec fn ping_method() -> Seq<char> {
    "__ping__"@
}

// ── Building them ──

/// The request line for a call.
pub fn request_message(id: &str, method: &str, params: Json, stream: bool) -> (j: Json)
    ensures
        j@ == request_spec(id@, method@, params@, stream),
{
    let ghost p = params@;
    let mut m: Vec<(String, Json)> = Vec::new();
    m.push(("id".to_owned(), string(id)));
    m.push(("method".to_owned(), string(method)));
    m.push(("params".to_owned(), params));
    if stream {
        m.push(("stream".to_owned(), Json::Bool(true)));
    }
    let j = object(m);
    proof {
        if stream {
            assert(Seq::new(m@.len(), |i: int| (m@[i].0@, m@[i].1@)) =~= request_spec(id@, method@, p, stream)->Object_0);
        } else {
            assert(Seq::new(m@.len(), |i: int| (m@[i].0@, m@[i].1@)) =~= request_spec(id@, method@, p, stream)->Object_0);
        }
    }
    j
}

/// A success response line.
pub fn response_frame(id: &str, result: Json) -> (j: Json)
    ensures
        j@ == response_spec(id@, result@),
{
    object2("id", string(id), "result", result)
}

/// An error response line.
pub fn error_frame(id: &str, message: &str, traceback: &str) -> (j: Json)
    ensures
        j@ == error_response_spec(id@, message@, traceback@),
{
    object2("id", string(id), "error", object2("message", string(message), "traceback", string(traceback)))
}

/// The answer to a line that does not parse, given the parser's error as
/// displayed and as debug-printed.
pub fn parse_error_frame(display: &str, debug: &str) -> (j: Json)
    ensures
        j@ == parse_error_spec(display@, debug@),
{
    let mut message = "JSON parse error: ".to_owned();
    message.append(display);
    let body = object2("message", Json::Str(message), "traceback", string(debug));
    object2("id", Json::Null, "error", body)
}

/// A chunk frame.
pub fn chunk_frame(id: &str, chunk: Json) -> (j: Json)
    ensures
        j@ == chunk_spec(id@, chunk@),
{
    object2("id", string(id), "chunk", chunk)
}

/// The frame that ends a stream.
pub fn stream_end_frame(id: &str) -> (j: Json)
    ensures
        j@ == stream_end_spec(id@),
{
    response_frame(id, empty_object())
}

/// The ready signal.
pub fn ready_frame() -> (j: Json)
    ensures
        j@ == ready_spec(),
{
    object1("ready", Json::Bool(true))
}

/// The ready signal listing `methods`.
pub fn ready_frame_with_methods(methods: &Vec<String>) -> (j: Json)
    ensures
        j@ == ready_methods_spec(methods@.map_values(|m: String| m@)),
{
    let mut items: Vec<Json> = Vec::new();
    let mut i: usize = 0;
    while i < methods.len()
        invariant
            0 <= i <= methods@.len(),
            items@.len() == i,
            forall|j: int| 0 <= j < i ==> (#[trigger] items@[j])@ == JsonV::Str(methods@[j]@),
        decreases methods@.len() - i,
    {
        items.push(Json::Str(methods[i].clone()));
        i = i + 1;
    }
    let list = array(items);
    proof {
        let names = methods@.map_values(|m: String| m@);
        assert(Seq::new(items@.len(), |k: int| items@[k]@) =~= Seq::new(names.len(), |k: int| JsonV::Str(names[k])));
    }
    object2("ready", Json::Bool(true), "methods", list)
}

// ── Their lines ──

/// The line of a request.
pub fn request_line(id: &str, method: &str, params: Json, stream: bool) -> (s: String)
    ensures
        s@ == json_line_of(request_spec(id@, method@, params@, stream)),
{
    json_line(&request_message(id, method, params, stream))
}

/// The line of a success response.
pub fn response_line(id: &str, result: Json) -> (s: String)
    ensures
        s@ == json_line_of(response_spec(id@, result@)),
{
    json_line(&response_frame(id, result))
}

/// The line of an error response.
pub fn error_line(id: &str, message: &str, traceback: &str) -> (s: String)
    ensures
        s@ == json_line_of(error_response_spec(id@, message@, traceback@)),
{
    json_line(&error_frame(id, message, traceback))
}

/// The line that answers a line that does not parse.
pub fn parse_error_line(display: &str, debug: &str) -> (s: String)
    ensures
        s@ == json_line_of(parse_error_spec(display@, debug@)),
{
    json_line(&parse_error_frame(display, debug))
}

/// The line of a chunk.
pub fn chunk_line(id: &str, chunk: Json) -> (s: String)
    ensures
        s@ == json_line_of(chunk_spec(id@, chunk@)),
{
    json_line(&chunk_frame(id, chunk))
}

/// The line that ends a stream.
pub fn stream_end_line(id: &str) -> (s: String)
    ensures
        s@ == json_line_of(stream_end_spec(id@)),
{
    json_line(&stream_end_frame(id))
}

/// The ready line.
pub fn ready_line() -> (s: String)
    ensures
        s@ == json_line_of(ready_spec()),
{
    json_line(&ready_frame())
}

/// The ready line listing `methods`.
pub fn ready_line_with_methods(methods: &Vec<String>) -> (s: String)
    ensures
        s@ == json_line_of(ready_methods_spec(methods@.map_values(|m: String| m@))),
{
    json_line(&ready_frame_with_methods(methods))
}

/// The method names a sidecar advertises: the built-in `__ping__`, then the
/// given ones.
pub fn advertised_methods(user_methods: &Vec<String>) -> (names: Vec<String>)
    ensures
        names@.map_values(|m: String| m@) == seq![ping_method()] + user_methods@.map_values(|m: String| m@),
{
    let mut names: Vec<String> = Vec::new();
    names.push("__ping__".to_owned());
    let mut i: usize = 0;
    while i < user_methods.len()
        invariant
            0 <= i <= user_methods@.len(),
            names@.len() == i + 1,
            names@[0]@ == ping_method(),
            forall|j: int| 0 <= j < i ==> (#[trigger] names@[j + 1])@ == user_methods@[j]@,
        decreases user_methods@.len() - i,
    {
        names.push(user_methods[i].clone());
        i = i + 1;
    }
    proof {
        let a = names@.map_values(|m: String| m@);
        let b = seq![ping_method()] + user_methods@.map_values(|m: String| m@);
        assert forall|j: int| 0 <= j < a.len() implies a[j] == b[j] by {
            if j > 0 {
                assert(names@[(j - 1) + 1]@ == user_methods@[j - 1]@);
            }
        }
        assert(a =~= b);
    }
    names
}

/// The answer to the built-in `__ping__`, for the process with id `pid`.
pub fn pong(pid: u32) -> (j: Json)
    ensures
        j@ == pong_spec(pid),
{
    object2("pong", Json::Bool(true), "pid", Json::Number(JsonNumber::PosInt(pid as u64)))
}

// ── The sidecar's side ──

/// A request as the sidecar reads it.
pub struct SidecarRequest {
    /// The id as text; `"null"` when the request has no string id.
    pub id: String,
    /// The method name; empty when absent.
    pub method: String,
    /// The parameters; `{}` when absent.
    pub params: Json,
    /// The trace context; empty when absent.
    pub traceparent: String,
}

pub struct SidecarRequestV {
    pub id: Seq<char>,
    pub method: Seq<char>,
    pub params: JsonV,
    pub traceparent: Seq<char>,
}

impl View for SidecarRequest {
    type V = SidecarRequestV;

    open spec fn view(&self) -> SidecarRequestV {
        SidecarRequestV { id: self.id@, method: self.method@, params: self.params@, traceparent: self.traceparent@ }
    }
}

pub open spec fn str_or(v: Option<Seq<char>>, default: Seq<char>) -> Seq<char> {
    match v {
        Some(s) => s,
        None => default,
    }
}

/// How the sidecar reads a parsed request line.
pub open spec fn sidecar_request_spec(v: JsonV) -> SidecarRequestV {
    SidecarRequestV {
        id: str_or(opt_str(v.get("id"@)), "null"@),
        method: str_or(opt_str(v.get("method"@)), ""@),
        params: match v.get("params"@) {
            Some(p) => p,
            None => JsonV::Object(Seq::empty()),
        },
        traceparent: str_or(opt_str(v.get("traceparent"@)), ""@),
    }
}

fn str_member_or(v: &Json, key: &str, default: &str) -> (s: String)
    ensures
        s@ == str_or(opt_str(v@.get(key@)), default@),
{
    match v.get(key) {
        Some(Json::Str(s)) => s.clone(),
        _ => default.to_owned(),
    }
}

/// Reads a parsed request line.
pub fn decode_request(v: &Json) -> (r: SidecarRequest)
    ensures
        r@ == sidecar_request_spec(v@),
{
    let params = match v.get("params") {
        Some(p) => p.copy(),
        None => empty_object(),
    };
    SidecarRequest {
        id: str_member_or(v, "id", "null"),
        method: str_member_or(v, "method", ""),
        params,
        traceparent: str_member_or(v, "traceparent", ""),
    }
}

/// What the sidecar does with a request.
pub enum Plan {
    /// Answer the request at once with this line.
    Reply(SidecarRequest, Json),
    /// Hand the request to the user's dispatch function.
    Dispatch(SidecarRequest),
}

/// What the sidecar does with the request `v`: a health check is answered
/// at once with the pong of process `pid`; anything else goes to the user's
/// dispatch, decoded.
pub open spec fn plans(v: JsonV, pid: u32, p: Plan) -> bool {
    &&& sidecar_request_spec(v).method == ping_method() ==> (p matches Plan::Reply(req, line)
        && req@ == sidecar_request_spec(v)
        && line@ == response_spec(sidecar_request_spec(v).id, pong_spec(pid)))
    &&& sidecar_request_spec(v).method != ping_method() ==> (p matches Plan::Dispatch(req)
        && req@ == sidecar_request_spec(v))
}

/// Plans the answer to a parsed request line: the built-in `__ping__` is
/// answered at once with the pong of process `pid`; every other method goes
/// to the user's dispatch function.
pub fn plan_request(v: &Json, pid: u32) -> (p: Plan)
    ensures
        plans(v@, pid, p),
{
    let req = decode_request(v);
    let ping = "__ping__".to_owned();
    if req.method == ping {
        let line = response_frame(req.id.as_str(), pong(pid));
        Plan::Reply(req, line)
    } else {
        Plan::Dispatch(req)
    }
}

/// What the sidecar does with one raw line of its input.
pub enum SidecarTurn {
    /// A blank line: nothing.
    Skip,
    /// A line that is not JSON: write this line, the error answer, which
    /// has no id.
    Reply(String),
    /// A request: act on it as planned.
    Planned(Plan),
}

/// Reads one raw line of the sidecar's input: a line that is blank once
/// trimmed is passed over, one that does not parse is answered with the
/// parse error, and a request is planned as `plan_request` plans it.
pub fn sidecar_line(raw: &str, pid: u32) -> (r: SidecarTurn)
    ensures
        trim_spec(raw@).len() == 0 ==> r is Skip,
        trim_spec(raw@).len() != 0 ==> match json_text_value(trim_spec(raw@)) {
            None => r matches SidecarTurn::Reply(line)
                && line@ == json_line_of(parse_error_spec(json_text_error(trim_spec(raw@)).0, json_text_error(trim_spec(raw@)).1)),
            Some(v) => r matches SidecarTurn::Planned(p) && plans(v, pid, p),
        },
{
    match read_line_text(raw) {
        LineText::Blank => SidecarTurn::Skip,
        LineText::Malformed(display, debug) => SidecarTurn::Reply(parse_error_line(display.as_str(), debug.as_str())),
        LineText::Value(request) => SidecarTurn::Planned(plan_request(&request, pid)),
    }
}

/// The line that answers request `id` whose handler returned `outcome`: its
/// result, or its error message with an empty traceback.
pub open spec fn reply_spec(id: Seq<char>, outcome: Result<JsonV, Seq<char>>) -> JsonV {
    match outcome {
        Ok(v) => response_spec(id, v),
        Err(m) => error_response_spec(id, m, ""@),
    }
}

/// The line that answers a request with id `id` whose handler returned `outcome`.
pub fn reply_frame(id: &str, outcome: Result<Json, String>) -> (j: Json)
    ensures
        j@ == reply_spec(id@, match outcome { Ok(v) => Ok(v@), Err(m) => Err(m@) }),
        outcome matches Ok(v) ==> j@ == response_spec(id@, v@),
        outcome matches Err(m) ==> j@ == error_response_spec(id@, m@, ""@),
{
    match outcome {
        Ok(v) => response_frame(id, v),
        Err(m) => error_frame(id, m.as_str(), ""),
    }
}

// ── A whole turn of the sidecar ──

/// What a streaming handler returns: one result, or chunks to stream.
pub enum StreamReplyV {
    Single(JsonV),
    Stream(Seq<JsonV>),
}

/// The lines the plain sidecar writes for a parsed request line `v`, when
/// its handler would return `outcome`: the pong for `__ping__` (the handler
/// is not called), else the reply to the handler's outcome.
pub open spec fn plain_turn(v: JsonV, pid: u32, outcome: Result<JsonV, Seq<char>>) -> Seq<JsonV> {
    let req = sidecar_request_spec(v);
    if req.method == ping_method() {
        seq![response_spec(req.id, pong_spec(pid))]
    } else {
        seq![reply_spec(req.id, outcome)]
    }
}

/// The lines the streaming sidecar writes for a parsed request line `v`,
/// when its handler would return `outcome`: as the plain sidecar for
/// `__ping__`, a single result or an error; for a stream, one chunk line per
/// chunk in order and then the line that ends the stream.
pub open spec fn streaming_turn(v: JsonV, pid: u32, outcome: Result<StreamReplyV, Seq<char>>) -> Seq<JsonV> {
    let req = sidecar_request_spec(v);
    if req.method == ping_method() {
        seq![response_spec(req.id, pong_spec(pid))]
    } else {
        match outcome {
            Ok(StreamReplyV::Single(x)) => seq![reply_spec(req.id, Ok(x))],
            Ok(StreamReplyV::Stream(chunks)) => Seq::new(chunks.len(), |i: int| chunk_spec(req.id, chunks[i]))
                .push(stream_end_spec(req.id)),
            Err(m) => seq![reply_spec(req.id, Err(m))],
        }
    }
}

/// A plain handler's outcome as a streaming handler's single result.
pub open spec fn as_single(outcome: Result<JsonV, Seq<char>>) -> Result<StreamReplyV, Seq<char>> {
    match outcome {
        Ok(x) => Ok(StreamReplyV::Single(x)),
        Err(m) => Err(m),
    }
}

/// What a handler returned, as the turn models read it: `None`, for a
/// request the handler is not asked about, reads as an error that no turn
/// uses.
pub open spec fn handler_outcome(o: Option<Result<Json, String>>) -> Result<JsonV, Seq<char>> {
    match o {
        Some(Ok(v)) => Ok(v@),
        Some(Err(m)) => Err(m@),
        None => Err(Seq::empty()),
    }
}

/// The line a sidecar writes for a planned request: the built-in answer, or
/// the reply to `outcome`, what the handler returned; the handler is asked
/// only when the plan is to dispatch.  For every request line that plans as
/// `plan`, this is the plain sidecar's turn, and the streaming sidecar's turn
/// when the handler returns a single result or an error.
pub fn turn_line(plan: &Plan, outcome: Option<Result<Json, String>>) -> (s: String)
    requires
        plan is Dispatch ==> outcome is Some,
    ensures
        forall|v: JsonV, pid: u32| #[trigger] plans(v, pid, *plan)
            ==> seq![s@] == plain_turn(v, pid, handler_outcome(outcome)).map_values(|j: JsonV| json_line_of(j)),
        forall|v: JsonV, pid: u32| #[trigger] plans(v, pid, *plan)
            ==> seq![s@] == streaming_turn(v, pid, as_single(handler_outcome(outcome))).map_values(|j: JsonV| json_line_of(j)),
{
    let ghost o = handler_outcome(outcome);
    let s = match plan {
        Plan::Reply(_, line) => json_line(line),
        Plan::Dispatch(req) => match outcome {
            Some(answer) => json_line(&answer_request(req, answer)),
            None => json_line(&Json::Null),
        },
    };
    proof {
        assert forall|v: JsonV, pid: u32| #[trigger] plans(v, pid, *plan) implies
            seq![s@] == plain_turn(v, pid, o).map_values(|j: JsonV| json_line_of(j))
            && seq![s@] == streaming_turn(v, pid, as_single(o)).map_values(|j: JsonV| json_line_of(j)) by {
            assert(seq![s@] =~= plain_turn(v, pid, o).map_values(|j: JsonV| json_line_of(j)));
            assert(seq![s@] =~= streaming_turn(v, pid, as_single(o)).map_values(|j: JsonV| json_line_of(j)));
        }
    }
    s
}

/// The reply to `req` after its handler returned `outcome`, a single
/// result or an error.
pub fn answer_request(req: &SidecarRequest, outcome: Result<Json, String>) -> (j: Json)
    ensures
        j@ == reply_spec(req@.id, match outcome { Ok(v) => Ok(v@), Err(m) => Err(m@) }),
{
    reply_frame(req.id.as_str(), outcome)
}

// ── Debug log lines ──

/// The log line for an incoming request.
pub open spec fn request_log_spec(id: Seq<char>, method: Seq<char>, traceparent: Seq<char>) -> JsonV {
    let base = seq![("dir"@, JsonV::Str("\u{2192}"@)), ("id"@, JsonV::Str(id)), ("method"@, JsonV::Str(method))];
    if traceparent.len() == 0 {
        JsonV::Object(base)
    } else {
        JsonV::Object(base.push(("traceparent"@, JsonV::Str(traceparent))))
    }
}

/// The log line for an answered request.
pub open spec fn reply_log_spec(id: Seq<char>, ok: bool, streamed: bool, traceparent: Seq<char>) -> JsonV {
    let base = seq![("dir"@, JsonV::Str("\u{2190}"@)), ("id"@, JsonV::Str(id)), ("ok"@, JsonV::Bool(ok))];
    let with_stream = if streamed { base.push(("streamed"@, JsonV::Bool(true))) } else { base };
    if traceparent.len() == 0 {
        JsonV::Object(with_stream)
    } else {
        JsonV::Object(with_stream.push(("traceparent"@, JsonV::Str(traceparent))))
    }
}

/// The debug log line for an incoming request; the trace context is listed
/// when there is one.
pub fn request_log(id: &str, method: &str, traceparent: &str) -> (j: Json)
    ensures
        j@ == request_log_spec(id@, method@, traceparent@),
{
    let mut m: Vec<(String, Json)> = Vec::new();
    m.push(("dir".to_owned(), string("\u{2192}")));
    m.push(("id".to_owned(), string(id)));
    m.push(("method".to_owned(), string(method)));
    if !traceparent.is_empty() {
        m.push(("traceparent".to_owned(), string(traceparent)));
    }
    let j = object(m);
    proof {
        assert(Seq::new(m@.len(), |i: int| (m@[i].0@, m@[i].1@)) =~= request_log_spec(id@, method@, traceparent@)->Object_0);
    }
    j
}

/// The debug log line for an answered request.
pub fn reply_log(id: &str, ok: bool, streamed: bool, traceparent: &str) -> (j: Json)
    ensures
        j@ == reply_log_spec(id@, ok, streamed, traceparent@),
{
    let mut m: Vec<(String, Json)> = Vec::new();
    m.push(("dir".to_owned(), string("\u{2190}")));
    m.push(("id".to_owned(), string(id)));
    m.push(("ok".to_owned(), Json::Bool(ok)));
    if streamed {
        m.push(("streamed".to_owned(), Json::Bool(true)));
    }
    if !traceparent.is_empty() {
        m.push(("traceparent".to_owned(), string(traceparent)));
    }
    let j = object(m);
    proof {
        assert(Seq::new(m@.len(), |i: int| (m@[i].0@, m@[i].1@)) =~= reply_log_spec(id@, ok, streamed, traceparent@)->Object_0);
    }
    j
}

/// The member names of the protocol are pairwise different.
#[verifier::spinoff_prover]
pub proof fn lemma_keys_distinct()
    ensures
        "id"@ != "method"@, "id"@ != "params"@, "id"@ != "stream"@, "id"@ != "result"@,
        "id"@ != "error"@, "id"@ != "chunk"@, "id"@ != "ready"@, "id"@ != "methods"@,
        "id"@ != "traceparent"@, "id"@ != "pong"@, "id"@ != "pid"@,
        "method"@ != "params"@, "method"@ != "stream"@, "method"@ != "traceparent"@,
        "params"@ != "stream"@, "params"@ != "traceparent"@, "stream"@ != "traceparent"@,
        "result"@ != "error"@, "result"@ != "chunk"@, "result"@ != "ready"@,
        "error"@ != "chunk"@, "error"@ != "ready"@, "chunk"@ != "ready"@,
        "ready"@ != "methods"@, "ready"@ != "pong"@, "ready"@ != "pid"@, "ready"@ != "params"@,
        "ready"@ != "method"@, "ready"@ != "stream"@,
        "result"@ != "method"@, "result"@ != "params"@, "result"@ != "stream"@,
        "error"@ != "method"@, "error"@ != "params"@, "error"@ != "stream"@,
        "message"@ != "traceback"@, "message"@ != "code"@, "message"@ != "backtrace"@,
        "traceback"@ != "code"@, "traceback"@ != "backtrace"@, "code"@ != "backtrace"@,
        ping_method() == seq!['_', '_', 'p', 'i', 'n', 'g', '_', '_'],
{
    reveal_strlit("id");
    reveal_strlit("method");
    reveal_strlit("params");
    reveal_strlit("stream");
    reveal_strlit("result");
    reveal_strlit("error");
    reveal_strlit("chunk");
    reveal_strlit("ready");
    reveal_strlit("methods");
    reveal_strlit("message");
    reveal_strlit("traceback");
    reveal_strlit("code");
    reveal_strlit("backtrace");
    reveal_strlit("traceparent");
    reveal_strlit("pong");
    reveal_strlit("pid");
    reveal_strlit("__ping__");
    assert("id"@.len() != "method"@.len());
    assert("id"@.len() != "params"@.len());
    assert("id"@.len() != "stream"@.len());
    assert("id"@.len() != "result"@.len());
    assert("id"@.len() != "error"@.len());
    assert("id"@.len() != "chunk"@.len());
    assert("id"@.len() != "ready"@.len());
    assert("id"@.len() != "methods"@.len());
    assert("id"@.len() != "traceparent"@.len());
    assert("id"@.len() != "pong"@.len());
    assert("id"@.len() != "pid"@.len());
    assert("method"@[0] != "params"@[0]);
    assert("method"@[0] != "stream"@[0]);
    assert("method"@.len() != "traceparent"@.len());
    assert("params"@[0] != "stream"@[0]);
    assert("params"@.len() != "traceparent"@.len());
    assert("stream"@.len() != "traceparent"@.len());
    assert("result"@.len() != "error"@.len());
    assert("result"@.len() != "chunk"@.len());
    assert("result"@.len() != "ready"@.len());
    assert("error"@[0] != "chunk"@[0]);
    assert("error"@[0] != "ready"@[0]);
    assert("chunk"@[0] != "ready"@[0]);
    assert("ready"@.len() != "methods"@.len());
    assert("ready"@.len() != "pong"@.len());
    assert("ready"@.len() != "pid"@.len());
    assert("ready"@.len() != "params"@.len());
    assert("ready"@.len() != "method"@.len());
    assert("ready"@.len() != "stream"@.len());
    assert("result"@[0] != "method"@[0]);
    assert("result"@[0] != "params"@[0]);
    assert("result"@[0] != "stream"@[0]);
    assert("error"@.len() != "method"@.len());
    assert("error"@.len() != "params"@.len());
    assert("error"@.len() != "stream"@.len());
    assert("message"@.len() != "traceback"@.len());
    assert("message"@.len() != "code"@.len());
    assert("message"@.len() != "backtrace"@.len());
    assert("traceback"@.len() != "code"@.len());
    assert("traceback"@[0] != "backtrace"@[0]);
    assert("code"@.len() != "backtrace"@.len());
}

} // verus!
