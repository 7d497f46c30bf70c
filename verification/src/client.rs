//! The bridge's side of a call: call ids, requests, and what a response
//! means to the caller.
use vstd::prelude::*;
use vstd::string::*;
use crate::json::{Json, JsonV, empty_object};
use crate::text::{decimal, push_decimal};
use crate::wire::{RpcError, AsyncRpcError, ErrorV, RpcResponse, StreamFrame};
use crate::protocol::{request_message, request_spec, ping_method};

verus! {

/// The id of the `n`-th call: `call-<n>`.
pub open spec fn call_id_spec(n: nat) -> Seq<char> {
    "call-"@ + decimal(n)
}

/// The id of a ping sent at a clock reading of `nanos` nanoseconds: `ping-<nanos>`.
pub open spec fn ping_id_spec(nanos: nat) -> Seq<char> {
    "ping-"@ + decimal(nanos)
}

/// The id of the `n`-th call.
pub fn call_id(n: u64) -> (id: String)
    ensures
        id@ == call_id_spec(n as nat),
{
    let mut id = "call-".to_owned();
    push_decimal(&mut id, n);
    id
}

/// The id of a ping sent when the clock's sub-second part read `nanos`.
pub fn ping_id(nanos: u32) -> (id: String)
    ensures
        id@ == ping_id_spec(nanos as nat),
{
    let mut id = "ping-".to_owned();
    push_decimal(&mut id, nanos as u64);
    id
}

/// The request line of a plain call.
pub fn call_request(id: &str, method: &str, params: Json) -> (j: Json)
    ensures
        j@ == request_spec(id@, method@, params@, false),
{
    request_message(id, method, params, false)
}

/// The request line of a streaming call.
pub fn stream_request(id: &str, method: &str, params: Json) -> (j: Json)
    ensures
        j@ == request_spec(id@, method@, params@, true),
{
    request_message(id, method, params, true)
}

/// The request line of a health check.
pub fn ping_request(id: &str) -> (j: Json)
    ensures
        j@ == request_spec(id@, ping_method(), JsonV::Object(Seq::empty()), false),
{
    request_message(id, "__ping__", empty_object(), false)
}

/// What a ping's answer means: `None` is a timeout; an error, or a response
/// without result, is a failure; else the result.
pub open spec fn ping_outcome(resp: Option<crate::wire::ResponseV>) -> Result<JsonV, Seq<char>> {
    match resp {
        None => Err("ping timed out"@),
        Some(r) => match r.error {
            Some(e) => Err("ping error: "@ + e.message),
            None => match r.result {
                Some(v) => Ok(v),
                None => Err("ping: no result"@),
            },
        },
    }
}

pub open spec fn text_outcome_view(o: Result<Json, String>) -> Result<JsonV, Seq<char>> {
    match o {
        Ok(v) => Ok(v@),
        Err(e) => Err(e@),
    }
}

/// Reads the answer to a ping; `None` stands for no answer in time.
pub fn ping_result(resp: Option<RpcResponse>) -> (r: Result<Json, String>)
    ensures
        text_outcome_view(r) == ping_outcome(match resp { Some(x) => Some(x@), None => None }),
        match resp {
            Some(x) => match (x.error, x.result) {
                (Some(e), _) => r matches Err(m) && m@ == "ping error: "@ + e.message@,
                (None, Some(v)) => r matches Ok(w) && w@ == v@,
                (None, None) => r is Err,
            },
            None => r is Err,
        },
{
    match resp {
        None => Err("ping timed out".to_owned()),
        Some(r) => match r.error {
            Some(e) => {
                let mut m = "ping error: ".to_owned();
                m.append(e.message.as_str());
                Err(m)
            },
            None => match r.result {
                Some(v) => Ok(v),
                None => Err("ping: no result".to_owned()),
            },
        },
    }
}

/// What a stream yields for the next frame it receives (`None`: the channel
/// closed): an error frame yields the error, a final frame ends the stream,
/// a chunk frame yields its chunk.
pub open spec fn stream_item_spec(frame: Option<crate::wire::FrameV>) -> Option<Result<JsonV, ErrorV>> {
    match frame {
        None => None,
        Some(f) => match f.error {
            Some(e) => Some(Err(e)),
            None => if f.result is Some {
                None
            } else {
                match f.chunk {
                    Some(c) => Some(Ok(c)),
                    None => None,
                }
            },
        },
    }
}

pub open spec fn item_view(i: Option<Result<Json, RpcError>>) -> Option<Result<JsonV, ErrorV>> {
    match i {
        None => None,
        Some(Ok(v)) => Some(Ok(v@)),
        Some(Err(e)) => Some(Err(e@)),
    }
}

/// The next item of a stream, given the frame received.
pub fn stream_item(frame: Option<StreamFrame>) -> (r: Option<Result<Json, RpcError>>)
    ensures
        item_view(r) == stream_item_spec(match frame { Some(f) => Some(f@), None => None }),
        match frame {
            Some(f) => match f.error {
                Some(e) => r matches Some(Err(x)) && x@ == e@,
                None => true,
            },
            None => r is None,
        },
{
    match frame {
        None => None,
        Some(f) => {
            if let Some(err) = f.error {
                return Some(Err(err));
            }
            if f.result.is_some() {
                return None;
            }
            match f.chunk {
                Some(c) => Some(Ok(c)),
                None => None,
            }
        },
    }
}

/// The error of an asynchronous call whose request could not be written.
pub fn write_failure(message: String) -> (e: AsyncRpcError)
    ensures
        e@ == (ErrorV { code: None, message: message@, traceback: None, backtrace: None }),
{
    AsyncRpcError::with_message(message)
}

/// The error of an asynchronous call whose reader went away before answering.
pub fn reader_gone() -> (e: AsyncRpcError)
    ensures
        e@ == (ErrorV { code: Some(-32000i64), message: "reader task dropped before responding"@, traceback: None, backtrace: None }),
{
    AsyncRpcError { code: Some(-32000), message: "reader task dropped before responding".to_owned(), traceback: None, backtrace: None }
}

} // verus!
