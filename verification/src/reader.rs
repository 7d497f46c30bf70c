//! The decisions of the reader that watches the sidecar's output: which lines
//! signal readiness, which are responses, and to whom each response goes.
//! The reader itself (reading lines, sending on channels) stands outside;
//! it hands each parsed line to these functions and performs what they return.
use vstd::prelude::*;
use vstd::string::*;
use crate::json::{Json, JsonV, opt_str};
use crate::lines::{LineText, line_value, read_line_text};
use crate::pending::{PendingTable, map_of, ids_distinct, lemma_map_of};
use crate::wire::{
    RpcError, AsyncRpcError, ErrorV, RpcResponse, ResponseV, StreamFrame, FrameV,
    decode_error_spec, lenient_error_spec, opt_json_view, opt_error_view, member_copy, parse_rpc_error,
};

verus! {

/// What the reader remembers between lines.
pub struct ReaderState {
    /// The readiness signal has been passed on.
    pub ready_sent: bool,
}

impl ReaderState {
    /// The state before the first line.
    pub fn new() -> (s: ReaderState)
        ensures
            !s.ready_sent,
    {
        ReaderState { ready_sent: false }
    }
}

// ── What a line means ──

/// A line that signals readiness: the first line whose `ready` member is `true`.
pub open spec fn is_ready_line(ready_sent: bool, v: JsonV) -> bool {
    !ready_sent && v.get("ready"@) == Some(JsonV::Bool(true))
}

/// The id a line answers, when its `id` member is a string.
pub open spec fn line_id(v: JsonV) -> Option<Seq<char>> {
    opt_str(v.get("id"@))
}

/// The error a line carries, read strictly.
pub open spec fn strict_error(v: JsonV) -> Option<ErrorV> {
    match v.get("error"@) {
        Some(e) => decode_error_spec(e),
        None => None,
    }
}

/// The error a line carries, read leniently; present whenever `error` is.
pub open spec fn lenient_error(v: JsonV) -> Option<ErrorV> {
    match v.get("error"@) {
        Some(e) => Some(lenient_error_spec(e)),
        None => None,
    }
}

/// A chunk frame carries `chunk` and neither `result` nor `error`.
pub open spec fn is_chunk_line(v: JsonV) -> bool {
    v.get("chunk"@) is Some && v.get("result"@) is None && v.get("error"@) is None
}

/// The response that a line with id `id` stands for.
pub open spec fn response_of(v: JsonV, id: Seq<char>) -> ResponseV {
    ResponseV { id, result: v.get("result"@), error: strict_error(v) }
}

/// The error every waiting call receives when the sidecar's output ends.
pub open spec fn exit_error(message: Seq<char>) -> ErrorV {
    ErrorV { code: Some(-32000i64), message, traceback: None, backtrace: None }
}

/// What a line from the sidecar is to the reader.
pub enum Incoming {
    /// Nothing to do.
    Skip,
    /// Pass the readiness signal on.
    Ready,
    /// A response to route by its id.
    Response(RpcResponse),
}

/// What a line is to the reader that also serves streaming calls.
pub enum StreamIncoming {
    Skip,
    Ready,
    /// An intermediate frame of the stream with this id.
    Chunk(String, StreamFrame),
    /// A final frame: the id, its `result` and its error.
    Terminal(String, Option<Json>, Option<RpcError>),
}

/// What a line is to the asynchronous reader.
pub enum AsyncIncoming {
    Skip,
    Ready,
    /// An intermediate frame of the stream with this id, and its chunk.
    Chunk(String, Json),
    /// A final frame: the id, its `result`, and its error read leniently.
    Terminal(String, Option<Json>, Option<AsyncRpcError>),
}

/// One step of the reader of plain calls on the value `v`, taking the
/// readiness flag from `ready_sent` to `ready_after` and answering `r`.
pub open spec fn plain_step(ready_sent: bool, v: JsonV, ready_after: bool, r: Incoming) -> bool {
    &&& ready_after == (ready_sent || is_ready_line(ready_sent, v))
    &&& is_ready_line(ready_sent, v) ==> r is Ready
    &&& !is_ready_line(ready_sent, v) ==> match line_id(v) {
        None => r is Skip,
        Some(id) => r matches Incoming::Response(resp) && resp@ == response_of(v, id),
    }
}

/// One step of the streaming reader on the value `v`.
pub open spec fn stream_step(ready_sent: bool, v: JsonV, ready_after: bool, r: StreamIncoming) -> bool {
    &&& ready_after == (ready_sent || is_ready_line(ready_sent, v))
    &&& is_ready_line(ready_sent, v) ==> r is Ready
    &&& !is_ready_line(ready_sent, v) ==> match line_id(v) {
        None => r is Skip,
        Some(id) => if is_chunk_line(v) {
            r matches StreamIncoming::Chunk(i, f) && i@ == id
                && f@ == (FrameV { chunk: v.get("chunk"@), result: None, error: None })
        } else {
            r matches StreamIncoming::Terminal(i, res, e) && i@ == id
                && opt_json_view(res) == v.get("result"@) && opt_error_view(e) == strict_error(v)
        },
    }
}

/// One step of the asynchronous reader on the value `v`.
pub open spec fn async_step(ready_sent: bool, v: JsonV, ready_after: bool, r: AsyncIncoming) -> bool {
    &&& ready_after == (ready_sent || is_ready_line(ready_sent, v))
    &&& is_ready_line(ready_sent, v) ==> r is Ready
    &&& !is_ready_line(ready_sent, v) ==> match line_id(v) {
        None => r is Skip,
        Some(id) => if is_chunk_line(v) {
            r matches AsyncIncoming::Chunk(i, c) && i@ == id && Some(c@) == v.get("chunk"@)
        } else {
            r matches AsyncIncoming::Terminal(i, res, e) && i@ == id
                && opt_json_view(res) == v.get("result"@)
                && match e { Some(x) => lenient_error(v) == Some(x@), None => lenient_error(v) is None }
        },
    }
}

fn readiness(state: &mut ReaderState, msg: &Json) -> (ready: bool)
    ensures
        ready == is_ready_line(old(state).ready_sent, msg@),
        final(state).ready_sent == (old(state).ready_sent || ready),
{
    if !state.ready_sent {
        match msg.get("ready") {
            Some(Json::Bool(true)) => {
                state.ready_sent = true;
                return true;
            },
            _ => {},
        }
    }
    false
}

fn id_of(msg: &Json) -> (id: Option<String>)
    ensures
        match id {
            Some(s) => line_id(msg@) == Some(s@),
            None => line_id(msg@) is None,
        },
{
    match msg.get("id") {
        Some(Json::Str(s)) => Some(s.clone()),
        _ => None,
    }
}

fn strict_error_of(msg: &Json) -> (e: Option<RpcError>)
    ensures
        opt_error_view(e) == strict_error(msg@),
{
    match msg.get("error") {
        Some(e) => RpcError::from_json(e),
        None => None,
    }
}

fn is_chunk(msg: &Json) -> (b: bool)
    ensures
        b == is_chunk_line(msg@),
{
    msg.get("chunk").is_some() && msg.get("result").is_none() && msg.get("error").is_none()
}

/// Reads one parsed line for the reader of plain calls.
pub fn classify_message(state: &mut ReaderState, msg: &Json) -> (r: Incoming)
    ensures
        plain_step(old(state).ready_sent, msg@, final(state).ready_sent, r),
        r matches Incoming::Response(resp) ==> opt_error_view(resp.error) == match msg@.get("error"@) {
            Some(e) => decode_error_spec(e),
            None => None,
        },
{
    if readiness(state, msg) {
        return Incoming::Ready;
    }
    match id_of(msg) {
        None => Incoming::Skip,
        Some(id) => Incoming::Response(RpcResponse {
            id,
            result: member_copy(msg, "result"),
            error: strict_error_of(msg),
        }),
    }
}

/// Reads one parsed line for the reader that also serves streaming calls.
pub fn classify_stream_message(state: &mut ReaderState, msg: &Json) -> (r: StreamIncoming)
    ensures
        stream_step(old(state).ready_sent, msg@, final(state).ready_sent, r),
{
    if readiness(state, msg) {
        return StreamIncoming::Ready;
    }
    match id_of(msg) {
        None => StreamIncoming::Skip,
        Some(id) => {
            if is_chunk(msg) {
                StreamIncoming::Chunk(id, StreamFrame { chunk: member_copy(msg, "chunk"), result: None, error: None })
            } else {
                StreamIncoming::Terminal(id, member_copy(msg, "result"), strict_error_of(msg))
            }
        },
    }
}

/// Reads one parsed line for the asynchronous reader.
pub fn classify_async_message(state: &mut ReaderState, msg: &Json) -> (r: AsyncIncoming)
    ensures
        async_step(old(state).ready_sent, msg@, final(state).ready_sent, r),
{
    if readiness(state, msg) {
        return AsyncIncoming::Ready;
    }
    match id_of(msg) {
        None => AsyncIncoming::Skip,
        Some(id) => {
            if is_chunk(msg) {
                let chunk = match member_copy(msg, "chunk") {
                    Some(c) => c,
                    None => Json::Null,
                };
                AsyncIncoming::Chunk(id, chunk)
            } else {
                let error = match msg.get("error") {
                    Some(e) => Some(parse_rpc_error(e)),
                    None => None,
                };
                AsyncIncoming::Terminal(id, member_copy(msg, "result"), error)
            }
        },
    }
}

// ── Raw lines ──

/// Reads one raw line of the sidecar's output for the reader of plain
/// calls.  A line that is blank once trimmed, or is not JSON, is passed over
/// (`None`) and leaves the state as it was; any other line is read as
/// `classify_message` reads its value.
pub fn reader_line(state: &mut ReaderState, raw: &str) -> (r: Option<Incoming>)
    ensures
        match line_value(raw@) {
            None => r is None && final(state).ready_sent == old(state).ready_sent,
            Some(v) => r matches Some(x) && plain_step(old(state).ready_sent, v, final(state).ready_sent, x),
        },
{
    match read_line_text(raw) {
        LineText::Value(msg) => Some(classify_message(state, &msg)),
        _ => None,
    }
}

/// Reads one raw line for the reader that also serves streaming calls, as
/// `reader_line` does with `classify_stream_message`.
pub fn streaming_reader_line(state: &mut ReaderState, raw: &str) -> (r: Option<StreamIncoming>)
    ensures
        match line_value(raw@) {
            None => r is None && final(state).ready_sent == old(state).ready_sent,
            Some(v) => r matches Some(x) && stream_step(old(state).ready_sent, v, final(state).ready_sent, x),
        },
{
    match read_line_text(raw) {
        LineText::Value(msg) => Some(classify_stream_message(state, &msg)),
        _ => None,
    }
}

/// Reads one raw line for the asynchronous reader, as `reader_line` does
/// with `classify_async_message`.
pub fn async_reader_line(state: &mut ReaderState, raw: &str) -> (r: Option<AsyncIncoming>)
    ensures
        match line_value(raw@) {
            None => r is None && final(state).ready_sent == old(state).ready_sent,
            Some(v) => r matches Some(x) && async_step(old(state).ready_sent, v, final(state).ready_sent, x),
        },
{
    match read_line_text(raw) {
        LineText::Value(msg) => Some(classify_async_message(state, &msg)),
        _ => None,
    }
}

// ── Where a response goes ──

/// Where the reader of plain calls sends a response.
pub enum CallRoute<S> {
    /// To the waiting call, through its value.
    Deliver(S, RpcResponse),
    /// No call waits under the response's id.
    Unknown(RpcResponse),
}

/// Hands a response to the call that waits under its id, taking that call
/// out of the table.
pub fn route_response<S>(pending: &mut PendingTable<S>, resp: RpcResponse) -> (r: CallRoute<S>)
    ensures
        final(pending).spec_map() == old(pending).spec_map().remove(resp.id@),
        old(pending).spec_map().contains_key(resp.id@) ==> (r matches CallRoute::Deliver(s, out)
            && s == old(pending).spec_map()[resp.id@] && out@ == resp@),
        !old(pending).spec_map().contains_key(resp.id@) ==> (r matches CallRoute::Unknown(out) && out@ == resp@),
{
    match pending.remove(&resp.id) {
        Some(s) => CallRoute::Deliver(s, resp),
        None => CallRoute::Unknown(resp),
    }
}

/// Where the streaming reader sends a final frame.
pub enum TerminalRoute<S, T> {
    /// To the stream that waits under the id; the stream ends.
    ToStream(T, StreamFrame),
    /// To the plain call that waits under the id.
    ToCall(S, RpcResponse),
    /// Nobody waits under the id.
    Unknown(String),
}

/// Hands a final frame to the stream waiting under `id`, or else to the
/// plain call waiting under it; whichever receives it leaves its table.
pub fn route_terminal<S, T>(
    pending: &mut PendingTable<S>,
    streams: &mut PendingTable<T>,
    id: String,
    result: Option<Json>,
    error: Option<RpcError>,
) -> (r: TerminalRoute<S, T>)
    ensures
        old(streams).spec_map().contains_key(id@) ==> {
            &&& final(streams).spec_map() == old(streams).spec_map().remove(id@)
            &&& final(pending).spec_map() == old(pending).spec_map()
            &&& r matches TerminalRoute::ToStream(t, f) && t == old(streams).spec_map()[id@]
                && f@ == (FrameV { chunk: None, result: opt_json_view(result), error: opt_error_view(error) })
        },
        !old(streams).spec_map().contains_key(id@) ==> {
            &&& final(streams).spec_map() == old(streams).spec_map()
            &&& final(pending).spec_map() == old(pending).spec_map().remove(id@)
            &&& old(pending).spec_map().contains_key(id@) ==> (r matches TerminalRoute::ToCall(s, resp)
                && s == old(pending).spec_map()[id@]
                && resp@ == (ResponseV { id: id@, result: opt_json_view(result), error: opt_error_view(error) }))
            &&& !old(pending).spec_map().contains_key(id@) ==> (r matches TerminalRoute::Unknown(i) && i@ == id@)
        },
{
    match streams.remove(&id) {
        Some(t) => TerminalRoute::ToStream(t, StreamFrame { chunk: None, result, error }),
        None => {
            proof {
                assert(old(streams).spec_map().remove(id@) =~= old(streams).spec_map());
            }
            match pending.remove(&id) {
                Some(s) => TerminalRoute::ToCall(s, RpcResponse { id, result, error }),
                None => TerminalRoute::Unknown(id),
            }
        },
    }
}

/// Where the asynchronous reader sends a final frame.
pub enum AsyncRoute<C, T> {
    /// The stream under the id ends, after the error if there is one.
    StreamEnd(T, Option<AsyncRpcError>),
    /// The plain call under the id completes with this outcome.
    CallDone(C, Result<Json, AsyncRpcError>),
    /// Nobody waits under the id.
    Unknown(String),
}

/// The outcome of a plain asynchronous call answered by a final frame: its
/// error when the frame has one, else its result (`null` when absent).
pub open spec fn call_outcome(result: Option<JsonV>, error: Option<ErrorV>) -> Result<JsonV, ErrorV> {
    match error {
        Some(e) => Err(e),
        None => Ok(match result { Some(v) => v, None => JsonV::Null }),
    }
}

pub open spec fn outcome_view(o: Result<Json, AsyncRpcError>) -> Result<JsonV, ErrorV> {
    match o {
        Ok(v) => Ok(v@),
        Err(e) => Err(e@),
    }
}

pub open spec fn opt_async_error_view(e: Option<AsyncRpcError>) -> Option<ErrorV> {
    match e {
        Some(x) => Some(x@),
        None => None,
    }
}

/// Hands a final frame to the stream or the plain call waiting under `id`.
pub fn route_async_terminal<C, T>(
    calls: &mut PendingTable<C>,
    streams: &mut PendingTable<T>,
    id: String,
    result: Option<Json>,
    error: Option<AsyncRpcError>,
) -> (r: AsyncRoute<C, T>)
    ensures
        old(streams).spec_map().contains_key(id@) ==> {
            &&& final(streams).spec_map() == old(streams).spec_map().remove(id@)
            &&& final(calls).spec_map() == old(calls).spec_map()
            &&& r matches AsyncRoute::StreamEnd(t, e) && t == old(streams).spec_map()[id@]
                && opt_async_error_view(e) == opt_async_error_view(error)
        },
        !old(streams).spec_map().contains_key(id@) ==> {
            &&& final(streams).spec_map() == old(streams).spec_map()
            &&& final(calls).spec_map() == old(calls).spec_map().remove(id@)
            &&& old(calls).spec_map().contains_key(id@) ==> (r matches AsyncRoute::CallDone(c, o)
                && c == old(calls).spec_map()[id@]
                && outcome_view(o) == call_outcome(opt_json_view(result), opt_async_error_view(error))
                && (error matches Some(e) ==> outcome_view(o) == Err::<JsonV, ErrorV>(e@))
                && (result matches Some(v) ==> (error is None ==> outcome_view(o) == Ok::<JsonV, ErrorV>(v@))))
            &&& !old(calls).spec_map().contains_key(id@) ==> (r matches AsyncRoute::Unknown(i) && i@ == id@)
        },
{
    match streams.remove(&id) {
        Some(t) => AsyncRoute::StreamEnd(t, error),
        None => {
            proof {
                assert(old(streams).spec_map().remove(id@) =~= old(streams).spec_map());
            }
            match calls.remove(&id) {
                Some(c) => {
                    let outcome = match error {
                        Some(e) => Err(e),
                        None => Ok(match result { Some(v) => v, None => Json::Null }),
                    };
                    AsyncRoute::CallDone(c, outcome)
                },
                None => AsyncRoute::Unknown(id),
            }
        },
    }
}

// ── When the sidecar's output ends ──

/// `out` hands each entry of `table` exactly one value, in any order.
pub open spec fn each_once<S, R>(table: Map<Seq<char>, S>, out: Seq<(String, S, R)>) -> bool {
    &&& out.len() == table.dom().len()
    &&& forall|i: int| 0 <= i < out.len() ==> #[trigger] table.contains_key(out[i].0@) && table[out[i].0@] == out[i].1
    &&& forall|i: int, j: int| 0 <= i < out.len() && 0 <= j < out.len() && i != j ==> #[trigger] out[i].0@ != #[trigger] out[j].0@
    &&& forall|k: Seq<char>| #[trigger] table.contains_key(k) ==> exists|i: int| 0 <= i < out.len() && out[i].0@ == k
}

proof fn lemma_each_once<S, R>(d: Seq<(String, S)>, out: Seq<(String, S, R)>)
    requires
        ids_distinct(d),
        out.len() == d.len(),
        forall|i: int| 0 <= i < d.len() ==> (#[trigger] out[i]).0@ == d[i].0@ && out[i].1 == d[i].1,
    ensures
        each_once(map_of(d), out),
{
    lemma_map_of(d);
    assert forall|k: Seq<char>| #[trigger] map_of(d).contains_key(k) implies exists|i: int| 0 <= i < out.len() && out[i].0@ == k by {
        let i = choose|i: int| 0 <= i < d.len() && d[i].0@ == k;
        assert(out[i].0@ == k);
    }
    assert forall|i: int, j: int| 0 <= i < out.len() && 0 <= j < out.len() && i != j implies #[trigger] out[i].0@ != #[trigger] out[j].0@ by {
        assert(d[i].0@ != d[j].0@);
    }
    assert forall|i: int| 0 <= i < out.len() implies #[trigger] map_of(d).contains_key(out[i].0@) && map_of(d)[out[i].0@] == out[i].1 by {
        assert(map_of(d)[d[i].0@] == d[i].1);
    }
}

fn exit_rpc_error(message: &str) -> (e: RpcError)
    ensures
        e@ == exit_error(message@),
{
    RpcError { code: Some(-32000), message: message.to_owned(), traceback: None, backtrace: None }
}

fn exit_async_error(message: &str) -> (e: AsyncRpcError)
    ensures
        e@ == exit_error(message@),
{
    AsyncRpcError { code: Some(-32000), message: message.to_owned(), traceback: None, backtrace: None }
}

/// Empties `table`, handing each waiting entry, with its id, the value that
/// `make` builds for that id.
fn fail_each<S, R, G: Fn(&String) -> R>(table: &mut PendingTable<S>, make: G) -> (out: Vec<(String, S, R)>)
    requires
        forall|id: &String| #[trigger] make.requires((id,)),
    ensures
        final(table).spec_map() == Map::<Seq<char>, S>::empty(),
        each_once(old(table).spec_map(), out@),
        forall|i: int| 0 <= i < out@.len() ==> make.ensures((&(#[trigger] out@[i]).0,), out@[i].2),
{
    let mut drained = table.drain();
    let ghost d = drained@;
    let mut out: Vec<(String, S, R)> = Vec::new();
    while drained.len() > 0
        invariant
            forall|id: &String| #[trigger] make.requires((id,)),
            ids_distinct(d),
            map_of(d) == old(table).spec_map(),
            drained@.len() + out@.len() == d.len(),
            forall|i: int| 0 <= i < drained@.len() ==> #[trigger] drained@[i] == d[i],
            forall|i: int| 0 <= i < out@.len() ==> (#[trigger] out@[i]).0@ == d[d.len() - 1 - i].0@
                && out@[i].1 == d[d.len() - 1 - i].1
                && make.ensures((&out@[i].0,), out@[i].2),
        decreases drained@.len(),
    {
        let (id, s) = drained.pop().unwrap();
        let r = make(&id);
        out.push((id, s, r));
    }
    proof {
        lemma_each_once_reversed(d, out@);
    }
    out
}

/// Empties `pending`, answering each waiting call with an error response
/// that says `message`.
pub fn fail_calls<S>(pending: &mut PendingTable<S>, message: &str) -> (out: Vec<(String, S, RpcResponse)>)
    ensures
        final(pending).spec_map() == Map::<Seq<char>, S>::empty(),
        each_once(old(pending).spec_map(), out@),
        forall|i: int| 0 <= i < out@.len() ==> (#[trigger] out@[i]).2@
            == (ResponseV { id: out@[i].0@, result: None, error: Some(exit_error(message@)) }),
{
    fail_each(pending, |id: &String| -> (r: RpcResponse)
        ensures
            r@ == (ResponseV { id: id@, result: None, error: Some(exit_error(message@)) }),
        { RpcResponse { id: id.clone(), result: None, error: Some(exit_rpc_error(message)) } })
}

proof fn lemma_each_once_reversed<S, R>(d: Seq<(String, S)>, out: Seq<(String, S, R)>)
    requires
        ids_distinct(d),
        out.len() == d.len(),
        forall|i: int| 0 <= i < out.len() ==> (#[trigger] out[i]).0@ == d[d.len() - 1 - i].0@
            && out[i].1 == d[d.len() - 1 - i].1,
    ensures
        each_once(map_of(d), out),
{
    let rev = Seq::new(d.len(), |i: int| d[d.len() - 1 - i]);
    assert forall|a: int, b: int| 0 <= a < rev.len() && 0 <= b < rev.len() && a != b implies #[trigger] rev[a].0@ != #[trigger] rev[b].0@ by {
        assert(d[d.len() - 1 - a].0@ != d[d.len() - 1 - b].0@);
    }
    lemma_reversed_map(d, rev);
    lemma_each_once(rev, out);
}

proof fn lemma_reversed_map<S>(d: Seq<(String, S)>, rev: Seq<(String, S)>)
    requires
        ids_distinct(d),
        ids_distinct(rev),
        rev.len() == d.len(),
        forall|i: int| 0 <= i < d.len() ==> #[trigger] rev[i] == d[d.len() - 1 - i],
    ensures
        map_of(rev) == map_of(d),
{
    lemma_map_of(d);
    lemma_map_of(rev);
    assert forall|k: Seq<char>| #[trigger] map_of(rev).contains_key(k) <==> map_of(d).contains_key(k) by {
        if map_of(rev).contains_key(k) {
            let i = choose|i: int| 0 <= i < rev.len() && rev[i].0@ == k;
            assert(d[d.len() - 1 - i].0@ == k);
        }
        if map_of(d).contains_key(k) {
            let i = choose|i: int| 0 <= i < d.len() && d[i].0@ == k;
            assert(rev[d.len() - 1 - i] == d[i]);
        }
    }
    assert forall|k: Seq<char>| map_of(rev).contains_key(k) implies #[trigger] map_of(rev)[k] == map_of(d)[k] by {
        let i = choose|i: int| 0 <= i < rev.len() && rev[i].0@ == k;
        assert(rev[i] == d[d.len() - 1 - i]);
    }
    assert(map_of(rev) =~= map_of(d));
}

/// Empties `streams`, ending each waiting stream with an error frame that
/// says `message`.
pub fn fail_streams<T>(streams: &mut PendingTable<T>, message: &str) -> (out: Vec<(String, T, StreamFrame)>)
    ensures
        final(streams).spec_map() == Map::<Seq<char>, T>::empty(),
        each_once(old(streams).spec_map(), out@),
        forall|i: int| 0 <= i < out@.len() ==> (#[trigger] out@[i]).2@
            == (FrameV { chunk: None, result: None, error: Some(exit_error(message@)) }),
{
    fail_each(streams, |id: &String| -> (f: StreamFrame)
        ensures
            f@ == (FrameV { chunk: None, result: None, error: Some(exit_error(message@)) }),
        { StreamFrame { chunk: None, result: None, error: Some(exit_rpc_error(message)) } })
}

/// Empties an asynchronous table, giving each waiting call or stream the
/// error that says `message`.
pub fn fail_async<C>(table: &mut PendingTable<C>, message: &str) -> (out: Vec<(String, C, AsyncRpcError)>)
    ensures
        final(table).spec_map() == Map::<Seq<char>, C>::empty(),
        each_once(old(table).spec_map(), out@),
        forall|i: int| 0 <= i < out@.len() ==> (#[trigger] out@[i]).2@ == exit_error(message@),
{
    fail_each(table, |id: &String| -> (e: AsyncRpcError)
        ensures
            e@ == exit_error(message@),
        { exit_async_error(message) })
}

/// What the reader of plain calls does when the sidecar's output ends: it
/// passes the readiness signal on if it never did, and fails every waiting
/// call with "child process exited unexpectedly".
pub fn reader_eof<S>(state: &ReaderState, pending: &mut PendingTable<S>) -> (r: (bool, Vec<(String, S, RpcResponse)>))
    ensures
        r.0 == !state.ready_sent,
        final(pending).spec_map() == Map::<Seq<char>, S>::empty(),
        each_once(old(pending).spec_map(), r.1@),
        forall|i: int| 0 <= i < r.1@.len() ==> (#[trigger] r.1@[i]).2@
            == (ResponseV { id: r.1@[i].0@, result: None, error: Some(exit_error("child process exited unexpectedly"@)) }),
{
    (!state.ready_sent, fail_calls(pending, "child process exited unexpectedly"))
}

/// What the streaming reader does when the sidecar's output ends: readiness
/// as above, and every waiting call and stream fails with "child exited".
pub fn streaming_reader_eof<S, T>(
    state: &ReaderState,
    pending: &mut PendingTable<S>,
    streams: &mut PendingTable<T>,
) -> (r: (bool, Vec<(String, S, RpcResponse)>, Vec<(String, T, StreamFrame)>))
    ensures
        r.0 == !state.ready_sent,
        final(pending).spec_map() == Map::<Seq<char>, S>::empty(),
        final(streams).spec_map() == Map::<Seq<char>, T>::empty(),
        each_once(old(pending).spec_map(), r.1@),
        each_once(old(streams).spec_map(), r.2@),
        forall|i: int| 0 <= i < r.1@.len() ==> (#[trigger] r.1@[i]).2@
            == (ResponseV { id: r.1@[i].0@, result: None, error: Some(exit_error("child exited"@)) }),
        forall|i: int| 0 <= i < r.2@.len() ==> (#[trigger] r.2@[i]).2@
            == (FrameV { chunk: None, result: None, error: Some(exit_error("child exited"@)) }),
{
    let calls = fail_calls(pending, "child exited");
    let ends = fail_streams(streams, "child exited");
    (!state.ready_sent, calls, ends)
}

/// What the asynchronous reader does when the sidecar's output ends: every
/// waiting call and stream receives the error "child process exited
/// unexpectedly".  It does not pass the readiness signal on: a sidecar that
/// ends before its handshake leaves the spawner with no handshake, which it
/// reports as the sidecar closing before ready.
pub fn async_reader_eof<C, T>(
    calls: &mut PendingTable<C>,
    streams: &mut PendingTable<T>,
) -> (r: (Vec<(String, C, AsyncRpcError)>, Vec<(String, T, AsyncRpcError)>))
    ensures
        final(calls).spec_map() == Map::<Seq<char>, C>::empty(),
        final(streams).spec_map() == Map::<Seq<char>, T>::empty(),
        each_once(old(calls).spec_map(), r.0@),
        each_once(old(streams).spec_map(), r.1@),
        forall|i: int| 0 <= i < r.0@.len() ==> (#[trigger] r.0@[i]).2@ == exit_error("child process exited unexpectedly"@),
        forall|i: int| 0 <= i < r.1@.len() ==> (#[trigger] r.1@[i]).2@ == exit_error("child process exited unexpectedly"@),
{
    let failed_calls = fail_async(calls, "child process exited unexpectedly");
    let failed_streams = fail_async(streams, "child process exited unexpectedly");
    (failed_calls, failed_streams)
}

} // verus!
