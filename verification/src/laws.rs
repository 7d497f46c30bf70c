//! Properties of the protocol as a whole: what one side writes, the other
//! side reads back.
use vstd::prelude::*;
use crate::json::{JsonV, NumberV, member_lookup};
use crate::text::{decimal, lemma_decimal_injective};
use crate::wire::{ErrorV, ResponseV, FrameV, opt_json_view, opt_error_view, decode_error_spec};
use crate::reader::{
    is_ready_line, line_id, response_of, is_chunk_line, strict_error, lenient_error, call_outcome, exit_error,
    Incoming, StreamIncoming, AsyncIncoming, plain_step, stream_step, async_step,
};
use crate::protocol::{
    request_spec, sidecar_request_spec, SidecarRequestV, response_spec, error_response_spec,
    chunk_spec, stream_end_spec, ready_spec, ready_methods_spec, pong_spec, ping_method, parse_error_spec,
    reply_spec, lemma_keys_distinct, plain_turn, streaming_turn, as_single,
};
use crate::client::{call_id_spec, ping_outcome, stream_item_spec};
use crate::protocol::error_body_spec;
use crate::supervisor::{backoff_ms, pow2};

verus! {

/// A request the bridge writes reads back, on the sidecar's side, as the
/// same id, method and parameters, with no trace context.
pub proof fn law_request_read_back(id: Seq<char>, method: Seq<char>, params: JsonV, stream: bool)
    ensures
        sidecar_request_spec(request_spec(id, method, params, stream))
            == (SidecarRequestV { id, method, params, traceparent: ""@ }),
{
    lemma_keys_distinct();
    reveal_with_fuel(member_lookup, 5);
}

/// A success response the sidecar writes reaches the caller waiting under
/// its id as exactly its result, with no error, for the plain, streaming and
/// asynchronous readers alike.
pub proof fn law_response_read_back(ready_sent: bool, id: Seq<char>, result: JsonV)
    ensures
        !is_ready_line(ready_sent, response_spec(id, result)),
        line_id(response_spec(id, result)) == Some(id),
        !is_chunk_line(response_spec(id, result)),
        response_of(response_spec(id, result), id) == (ResponseV { id, result: Some(result), error: None }),
        lenient_error(response_spec(id, result)) is None,
        call_outcome(response_spec(id, result).get("result"@), lenient_error(response_spec(id, result))) == Ok::<JsonV, ErrorV>(result),
{
    lemma_keys_distinct();
    reveal_with_fuel(member_lookup, 3);
}

/// An error response the sidecar writes reaches the caller waiting under its
/// id as an error with that message and traceback and no code.
pub proof fn law_error_read_back(ready_sent: bool, id: Seq<char>, message: Seq<char>, traceback: Seq<char>)
    ensures
        !is_ready_line(ready_sent, error_response_spec(id, message, traceback)),
        line_id(error_response_spec(id, message, traceback)) == Some(id),
        !is_chunk_line(error_response_spec(id, message, traceback)),
        response_of(error_response_spec(id, message, traceback), id) == (ResponseV {
            id,
            result: None,
            error: Some(ErrorV { code: None, message, traceback: Some(traceback), backtrace: None }),
        }),
        lenient_error(error_response_spec(id, message, traceback))
            == Some(ErrorV { code: None, message, traceback: Some(traceback), backtrace: None }),
        call_outcome(None, lenient_error(error_response_spec(id, message, traceback)))
            == Err::<JsonV, ErrorV>(ErrorV { code: None, message, traceback: Some(traceback), backtrace: None }),
{
    lemma_keys_distinct();
    reveal_with_fuel(member_lookup, 3);
}

/// A chunk the sidecar writes reaches the stream waiting under its id as
/// that chunk; the frame that ends a stream ends it; an error response ends
/// it with the error.
pub proof fn law_stream_read_back(ready_sent: bool, id: Seq<char>, chunk: JsonV, message: Seq<char>, traceback: Seq<char>)
    ensures
        !is_ready_line(ready_sent, chunk_spec(id, chunk)),
        line_id(chunk_spec(id, chunk)) == Some(id),
        is_chunk_line(chunk_spec(id, chunk)),
        chunk_spec(id, chunk).get("chunk"@) == Some(chunk),
        stream_item_spec(Some(FrameV { chunk: Some(chunk), result: None, error: None })) == Some(Ok::<JsonV, ErrorV>(chunk)),
        line_id(stream_end_spec(id)) == Some(id),
        !is_chunk_line(stream_end_spec(id)),
        stream_item_spec(Some(FrameV {
            chunk: None,
            result: stream_end_spec(id).get("result"@),
            error: strict_error(stream_end_spec(id)),
        })) is None,
        stream_item_spec(Some(FrameV {
            chunk: None,
            result: None,
            error: strict_error(error_response_spec(id, message, traceback)),
        })) == Some(Err::<JsonV, ErrorV>(ErrorV { code: None, message, traceback: Some(traceback), backtrace: None })),
{
    lemma_keys_distinct();
    reveal_with_fuel(member_lookup, 3);
    law_response_read_back(ready_sent, id, JsonV::Object(Seq::empty()));
    law_error_read_back(ready_sent, id, message, traceback);
}

/// The ready signal is read as such by a reader that has not yet seen one,
/// and a reader that has seen one reads no further line as a ready signal.
pub proof fn law_ready_signal(methods: Seq<Seq<char>>, v: JsonV)
    ensures
        is_ready_line(false, ready_spec()),
        is_ready_line(false, ready_methods_spec(methods)),
        !is_ready_line(true, v),
{
    lemma_keys_distinct();
    reveal_with_fuel(member_lookup, 3);
}

/// A health check that the bridge sends is answered by the sidecar itself,
/// and the bridge reads back the pong of the sidecar's process.
pub proof fn law_ping_round_trip(id: Seq<char>, pid: u32)
    ensures
        sidecar_request_spec(request_spec(id, ping_method(), JsonV::Object(Seq::empty()), false)).method == ping_method(),
        sidecar_request_spec(request_spec(id, ping_method(), JsonV::Object(Seq::empty()), false)).id == id,
        ping_outcome(Some(response_of(response_spec(id, pong_spec(pid)), id))) == Ok::<JsonV, Seq<char>>(pong_spec(pid)),
{
    law_request_read_back(id, ping_method(), JsonV::Object(Seq::empty()), false);
    law_response_read_back(true, id, pong_spec(pid));
}

/// The sidecar answers every request line under the id the request carried.
pub proof fn law_reply_answers_request(id: Seq<char>, method: Seq<char>, params: JsonV, stream: bool, outcome: Result<JsonV, Seq<char>>)
    ensures
        line_id(reply_spec(sidecar_request_spec(request_spec(id, method, params, stream)).id, outcome)) == Some(id),
{
    law_request_read_back(id, method, params, stream);
    match outcome {
        Ok(v) => law_response_read_back(true, id, v),
        Err(m) => law_error_read_back(true, id, m, ""@),
    }
}

/// The answer to a line that is not JSON has no id, so the bridge hands it
/// to no caller.
pub proof fn law_parse_error_unrouted(ready_sent: bool, display: Seq<char>, debug: Seq<char>)
    ensures
        !is_ready_line(ready_sent, parse_error_spec(display, debug)),
        line_id(parse_error_spec(display, debug)) is None,
{
    lemma_keys_distinct();
    reveal_with_fuel(member_lookup, 3);
}

// ── What each answer carries ──

/// The response a line with id `id` stands for carries that id, the line's
/// `result` member as it is, and as its error exactly the record read
/// strictly from the line's `error` member, all four fields (the code
/// included); a line without `error` gives a response without error.
pub proof fn law_response_keeps_error_record(v: JsonV, id: Seq<char>)
    ensures
        response_of(v, id).id == id,
        response_of(v, id).result == v.get("result"@),
        response_of(v, id).error == match v.get("error"@) {
            Some(e) => decode_error_spec(e),
            None => None,
        },
        v.get("error"@) is None ==> response_of(v, id).error is None,
{
}

/// An error object whose `code` is an integer that fits `i64`, whose
/// `message` is a string, and which has no `traceback` or `backtrace`, is read
/// by every reader with that code and that message: as the plain or the
/// streaming reader's response error, and as the asynchronous reader's error.
pub proof fn law_error_code_is_kept(v: JsonV, id: Seq<char>, members: Seq<(Seq<char>, JsonV)>, number: NumberV, code: i64, message: Seq<char>)
    requires
        v.get("error"@) == Some(JsonV::Object(members)),
        number == NumberV::NegInt(code) || (code >= 0 && number == NumberV::PosInt(code as u64)),
        member_lookup(members, "code"@) == Some(JsonV::Number(number)),
        member_lookup(members, "message"@) == Some(JsonV::Str(message)),
        member_lookup(members, "traceback"@) is None,
        member_lookup(members, "backtrace"@) is None,
    ensures
        response_of(v, id).error == Some(ErrorV { code: Some(code), message, traceback: None, backtrace: None }),
        strict_error(v) == Some(ErrorV { code: Some(code), message, traceback: None, backtrace: None }),
        lenient_error(v) == Some(ErrorV { code: Some(code), message, traceback: None, backtrace: None }),
{
}

/// A plain asynchronous call answered by a frame with an error completes
/// with exactly that error, whatever its fields; a frame without an error
/// completes it with its result, or with `null` when it has none.
pub proof fn law_async_call_outcome(result: Option<JsonV>, e: ErrorV, v: JsonV)
    ensures
        call_outcome(result, Some(e)) == Err::<JsonV, ErrorV>(e),
        call_outcome(Some(v), None) == Ok::<JsonV, ErrorV>(v),
        call_outcome(None, None) == Ok::<JsonV, ErrorV>(JsonV::Null),
{
}

/// A stream yields the error of every frame that carries one, whatever the
/// error's fields and whatever else the frame holds; it yields the chunk of
/// a chunk frame; a final frame without error ends it, and so does no frame.
/// In particular the frame that fails a stream when the sidecar dies yields
/// that failure.
pub proof fn law_stream_item_of_frame(chunk: Option<JsonV>, result: Option<JsonV>, e: ErrorV, c: JsonV, r: JsonV)
    ensures
        stream_item_spec(Some(FrameV { chunk, result, error: Some(e) })) == Some(Err::<JsonV, ErrorV>(e)),
        stream_item_spec(Some(FrameV { chunk: Some(c), result: None, error: None })) == Some(Ok::<JsonV, ErrorV>(c)),
        stream_item_spec(Some(FrameV { chunk, result: Some(r), error: None })) is None,
        stream_item_spec(None) is None,
        stream_item_spec(Some(exit_frame())) == Some(Err::<JsonV, ErrorV>(exit_error("child exited"@))),
{
}

/// A ping whose answer carries an error fails with "ping error: " and the
/// error's message, whatever else the answer holds; an answer with a result
/// and no error succeeds with that result; no answer, or one with neither,
/// fails.
pub proof fn law_ping_outcome(id: Seq<char>, result: Option<JsonV>, e: ErrorV, v: JsonV)
    ensures
        ping_outcome(Some(ResponseV { id, result, error: Some(e) })) == Err::<JsonV, Seq<char>>("ping error: "@ + e.message),
        ping_outcome(Some(ResponseV { id, result: Some(v), error: None })) == Ok::<JsonV, Seq<char>>(v),
        ping_outcome(Some(ResponseV { id, result: None, error: None })) is Err,
        ping_outcome(None) == Err::<JsonV, Seq<char>>("ping timed out"@),
{
}

/// The reply to a handler's result `x`, whatever `x` is (`null` included),
/// is the success response carrying `x` under the request's id and no error;
/// the reply to an error `m` is the error response with message `m`, an
/// empty traceback and no result.
pub proof fn law_reply_is_response_or_error(id: Seq<char>, x: JsonV, m: Seq<char>)
    ensures
        reply_spec(id, Ok(x)) == response_spec(id, x),
        reply_spec(id, Ok(x)).get("id"@) == Some(JsonV::Str(id)),
        reply_spec(id, Ok(x)).get("result"@) == Some(x),
        reply_spec(id, Ok(x)).get("error"@) is None,
        reply_spec(id, Err(m)) == error_response_spec(id, m, ""@),
        reply_spec(id, Err(m)).get("id"@) == Some(JsonV::Str(id)),
        reply_spec(id, Err(m)).get("result"@) is None,
        reply_spec(id, Err(m)).get("error"@) == Some(error_body_spec(m, ""@)),
{
    lemma_keys_distinct();
    reveal_with_fuel(member_lookup, 3);
}

/// Every call or stream still waiting when the sidecar's output ends fails
/// with the code -32000 and the given message, and nothing else.
pub proof fn law_exit_error(message: Seq<char>)
    ensures
        exit_error(message).code == Some(-32000i64),
        exit_error(message).message == message,
        exit_error(message).traceback is None,
        exit_error(message).backtrace is None,
{
}

/// Different call numbers give different call ids.
pub proof fn law_call_ids_distinct(a: nat, b: nat)
    requires
        a != b,
    ensures
        call_id_spec(a) != call_id_spec(b),
{
    if call_id_spec(a) == call_id_spec(b) {
        let p = "call-"@;
        assert(call_id_spec(a).subrange(p.len() as int, call_id_spec(a).len() as int) =~= decimal(a));
        assert(call_id_spec(b).subrange(p.len() as int, call_id_spec(b).len() as int) =~= decimal(b));
        lemma_decimal_injective(a, b);
    }
}

/// The pause before a restart starts at 100 ms, doubles with each restart,
/// and stays at 12.8 s from the eighth on.
pub proof fn law_backoff(count: nat)
    ensures
        backoff_ms(0) == 100,
        count < 7 ==> backoff_ms(count + 1) == 2 * backoff_ms(count),
        count >= 7 ==> backoff_ms(count) == 12800,
{
    reveal_with_fuel(pow2, 8);
}

/// How many times the plain or the streaming reader passes the readiness
/// signal on over a run that reads `lines` and then reaches the end of the
/// output (where it passes it on if it has not yet).
pub open spec fn readiness_signals(ready_sent: bool, lines: Seq<JsonV>) -> nat
    decreases lines.len(),
{
    if lines.len() == 0 {
        if ready_sent { 0 } else { 1 }
    } else {
        let ready = is_ready_line(ready_sent, lines[0]);
        (if ready { 1nat } else { 0nat }) + readiness_signals(ready_sent || ready, lines.subrange(1, lines.len() as int))
    }
}

/// Over any run, the plain and the streaming reader pass the readiness
/// signal on exactly once: at the first ready line, or when the output ends
/// without one.
pub proof fn law_ready_exactly_once(lines: Seq<JsonV>)
    ensures
        readiness_signals(false, lines) == 1,
    decreases lines.len(),
{
    if lines.len() > 0 {
        let rest = lines.subrange(1, lines.len() as int);
        if is_ready_line(false, lines[0]) {
            lemma_no_more_signals(rest);
        } else {
            law_ready_exactly_once(rest);
        }
    }
}

proof fn lemma_no_more_signals(lines: Seq<JsonV>)
    ensures
        readiness_signals(true, lines) == 0,
    decreases lines.len(),
{
    if lines.len() > 0 {
        lemma_no_more_signals(lines.subrange(1, lines.len() as int));
    }
}

/// A call registered under an id is the one that receives the response with
/// that id, and once it has received it no second response reaches it: after
/// `insert` the table maps the id to the call, and after the response is
/// routed the id is gone while every other waiting call stays.
pub proof fn law_registered_call_answered_once<S>(table: Map<Seq<char>, S>, id: Seq<char>, call: S, other: Seq<char>)
    requires
        other != id,
    ensures
        table.insert(id, call).contains_key(id),
        table.insert(id, call)[id] == call,
        !table.insert(id, call).remove(id).contains_key(id),
        table.insert(id, call).remove(id).contains_key(other) == table.contains_key(other),
        table.contains_key(other) ==> table.insert(id, call).remove(id)[other] == table[other],
{
}

/// How many responses the call waiting under `x` receives over a run of the
/// plain reader that reads `lines` and then reaches the end of the output,
/// when the calls in `waiting` wait at the start: a line is delivered to the
/// call waiting under its id, which then stops waiting; a ready line and a
/// line without a waiting id deliver nothing; at the end every call still
/// waiting receives the exit error.
pub open spec fn times_answered(waiting: Set<Seq<char>>, ready_sent: bool, lines: Seq<JsonV>, x: Seq<char>) -> nat
    decreases lines.len(),
{
    if lines.len() == 0 {
        if waiting.contains(x) { 1 } else { 0 }
    } else {
        let v = lines[0];
        let rest = lines.subrange(1, lines.len() as int);
        if is_ready_line(ready_sent, v) {
            times_answered(waiting, true, rest, x)
        } else {
            match line_id(v) {
                Some(id) => if waiting.contains(id) {
                    (if id == x { 1nat } else { 0nat }) + times_answered(waiting.remove(id), ready_sent, rest, x)
                } else {
                    times_answered(waiting, ready_sent, rest, x)
                },
                None => times_answered(waiting, ready_sent, rest, x),
            }
        }
    }
}

/// Over any run of the plain reader, every call waiting at the start
/// receives exactly one response, and an id nobody waits under receives none.
pub proof fn law_each_call_answered_once(waiting: Set<Seq<char>>, ready_sent: bool, lines: Seq<JsonV>, x: Seq<char>)
    ensures
        times_answered(waiting, ready_sent, lines, x) == if waiting.contains(x) { 1nat } else { 0nat },
    decreases lines.len(),
{
    if lines.len() > 0 {
        let v = lines[0];
        let rest = lines.subrange(1, lines.len() as int);
        if is_ready_line(ready_sent, v) {
            law_each_call_answered_once(waiting, true, rest, x);
        } else {
            match line_id(v) {
                Some(id) => if waiting.contains(id) {
                    law_each_call_answered_once(waiting.remove(id), ready_sent, rest, x);
                } else {
                    law_each_call_answered_once(waiting, ready_sent, rest, x);
                },
                None => law_each_call_answered_once(waiting, ready_sent, rest, x),
            }
        }
    }
}

/// How many final frames the stream and the plain call waiting under `x`
/// receive over a run of the streaming reader that reads `lines` and then
/// reaches the end of the output: a final frame goes to the stream waiting
/// under its id, else to the call waiting under it, which then stops
/// waiting; chunk frames, ready lines and lines for ids nobody waits under
/// end nothing; at the end each stream and call still waiting receives the
/// exit error.
pub open spec fn times_ended(streams: Set<Seq<char>>, calls: Set<Seq<char>>, ready_sent: bool, lines: Seq<JsonV>, x: Seq<char>) -> (nat, nat)
    decreases lines.len(),
{
    if lines.len() == 0 {
        (if streams.contains(x) { 1nat } else { 0nat }, if calls.contains(x) { 1nat } else { 0nat })
    } else {
        let v = lines[0];
        let rest = lines.subrange(1, lines.len() as int);
        if is_ready_line(ready_sent, v) {
            times_ended(streams, calls, true, rest, x)
        } else {
            match line_id(v) {
                Some(id) => if is_chunk_line(v) {
                    times_ended(streams, calls, ready_sent, rest, x)
                } else if streams.contains(id) {
                    let r = times_ended(streams.remove(id), calls, ready_sent, rest, x);
                    ((if id == x { 1nat } else { 0nat }) + r.0, r.1)
                } else if calls.contains(id) {
                    let r = times_ended(streams, calls.remove(id), ready_sent, rest, x);
                    (r.0, (if id == x { 1nat } else { 0nat }) + r.1)
                } else {
                    times_ended(streams, calls, ready_sent, rest, x)
                },
                None => times_ended(streams, calls, ready_sent, rest, x),
            }
        }
    }
}

/// Over any run of the streaming reader, every stream waiting at the start
/// ends exactly once and every plain call waiting at the start is answered
/// exactly once, whatever the order of the lines.
pub proof fn law_each_stream_ends_once(streams: Set<Seq<char>>, calls: Set<Seq<char>>, ready_sent: bool, lines: Seq<JsonV>, x: Seq<char>)
    ensures
        times_ended(streams, calls, ready_sent, lines, x)
            == (if streams.contains(x) { 1nat } else { 0nat }, if calls.contains(x) { 1nat } else { 0nat }),
    decreases lines.len(),
{
    if lines.len() > 0 {
        let v = lines[0];
        let rest = lines.subrange(1, lines.len() as int);
        if is_ready_line(ready_sent, v) {
            law_each_stream_ends_once(streams, calls, true, rest, x);
        } else {
            match line_id(v) {
                Some(id) => if is_chunk_line(v) {
                    law_each_stream_ends_once(streams, calls, ready_sent, rest, x);
                } else if streams.contains(id) {
                    law_each_stream_ends_once(streams.remove(id), calls, ready_sent, rest, x);
                } else if calls.contains(id) {
                    law_each_stream_ends_once(streams, calls.remove(id), ready_sent, rest, x);
                } else {
                    law_each_stream_ends_once(streams, calls, ready_sent, rest, x);
                },
                None => law_each_stream_ends_once(streams, calls, ready_sent, rest, x),
            }
        }
    }
}

/// The count of restarts begun after `k` attempts that start from `count`
/// with `max` allowed: `begin_restart` counts one more while the count is
/// below `max`, and changes nothing once it is not.
pub open spec fn count_after_attempts(count: nat, max: nat, k: nat) -> nat
    decreases k,
{
    if k == 0 {
        count
    } else {
        let c = count_after_attempts(count, max, (k - 1) as nat);
        if c < max { c + 1 } else { c }
    }
}

/// How many of `k` restart attempts are finished: each accepted attempt
/// hands out one leave to rebuild, and `finish_restart` spends one leave.
pub open spec fn restarts_finished_over(count: nat, max: nat, k: nat) -> nat
    decreases k,
{
    if k == 0 {
        0
    } else {
        let c = count_after_attempts(count, max, (k - 1) as nat);
        restarts_finished_over(count, max, (k - 1) as nat) + if c < max { 1nat } else { 0nat }
    }
}

/// Over any sequence of restart attempts (`restart`, or `begin_restart`
/// followed by `finish_restart`) on a bridge fresh from `new`, the
/// `i`-th attempt is accepted exactly when `i <= max`, the count of restarts
/// after `k` attempts is `min(k, max)`, and as many restarts are finished,
/// so never more than `max`.
pub proof fn law_restart_budget(max: nat, k: nat)
    ensures
        count_after_attempts(0, max, k) == if k <= max { k } else { max },
        restarts_finished_over(0, max, k) == count_after_attempts(0, max, k),
        restarts_finished_over(0, max, k) <= max,
        k >= 1 ==> (count_after_attempts(0, max, (k - 1) as nat) < max <==> k <= max),
    decreases k,
{
    if k > 0 {
        law_restart_budget(max, (k - 1) as nat);
    }
}

/// The frame a chunk line hands its stream.
pub open spec fn chunk_frame_of(v: JsonV) -> FrameV {
    FrameV { chunk: v.get("chunk"@), result: None, error: None }
}

/// The frame a final line hands its stream.
pub open spec fn final_frame_of(v: JsonV) -> FrameV {
    FrameV { chunk: None, result: v.get("result"@), error: strict_error(v) }
}

/// The frame every stream still waiting receives when the output ends.
pub open spec fn exit_frame() -> FrameV {
    FrameV { chunk: None, result: None, error: Some(exit_error("child exited"@)) }
}

/// The frames that the stream waiting under `x` receives over a run of the
/// streaming reader that reads `lines` and then reaches the end of the
/// output, with the streams in `streams` and the plain calls in `calls`
/// waiting at the start: a chunk line reaches the stream waiting under its
/// id and leaves it waiting; a final line goes to the stream waiting under
/// its id, which stops waiting, or else to the plain call, which stops
/// waiting; at the end each stream still waiting receives the exit error.
pub open spec fn stream_frames(streams: Set<Seq<char>>, calls: Set<Seq<char>>, ready_sent: bool, lines: Seq<JsonV>, x: Seq<char>) -> Seq<FrameV>
    decreases lines.len(),
{
    if lines.len() == 0 {
        if streams.contains(x) { seq![exit_frame()] } else { Seq::empty() }
    } else {
        let v = lines[0];
        let rest = lines.subrange(1, lines.len() as int);
        if is_ready_line(ready_sent, v) {
            stream_frames(streams, calls, true, rest, x)
        } else {
            match line_id(v) {
                Some(id) => if is_chunk_line(v) {
                    (if id == x && streams.contains(x) { seq![chunk_frame_of(v)] } else { Seq::empty() })
                        + stream_frames(streams, calls, ready_sent, rest, x)
                } else if streams.contains(id) {
                    (if id == x { seq![final_frame_of(v)] } else { Seq::empty() })
                        + stream_frames(streams.remove(id), calls, ready_sent, rest, x)
                } else if calls.contains(id) {
                    stream_frames(streams, calls.remove(id), ready_sent, rest, x)
                } else {
                    stream_frames(streams, calls, ready_sent, rest, x)
                },
                None => stream_frames(streams, calls, ready_sent, rest, x),
            }
        }
    }
}

/// The frames a stream under `x` is owed by the lines of a run: the chunk of
/// each chunk line for `x`, in line order, up to the first final line for
/// `x`, whose frame comes last; or the exit error when there is none.
pub open spec fn frames_owed(x: Seq<char>, ready_sent: bool, lines: Seq<JsonV>) -> Seq<FrameV>
    decreases lines.len(),
{
    if lines.len() == 0 {
        seq![exit_frame()]
    } else {
        let v = lines[0];
        let rest = lines.subrange(1, lines.len() as int);
        if is_ready_line(ready_sent, v) {
            frames_owed(x, true, rest)
        } else if line_id(v) == Some(x) {
            if is_chunk_line(v) {
                seq![chunk_frame_of(v)] + frames_owed(x, ready_sent, rest)
            } else {
                seq![final_frame_of(v)]
            }
        } else {
            frames_owed(x, ready_sent, rest)
        }
    }
}

proof fn lemma_no_frames_when_not_waiting(streams: Set<Seq<char>>, calls: Set<Seq<char>>, ready_sent: bool, lines: Seq<JsonV>, x: Seq<char>)
    requires
        !streams.contains(x),
    ensures
        stream_frames(streams, calls, ready_sent, lines, x) == Seq::<FrameV>::empty(),
    decreases lines.len(),
{
    if lines.len() > 0 {
        let v = lines[0];
        let rest = lines.subrange(1, lines.len() as int);
        if is_ready_line(ready_sent, v) {
            lemma_no_frames_when_not_waiting(streams, calls, true, rest, x);
        } else {
            match line_id(v) {
                Some(id) => if is_chunk_line(v) {
                    lemma_no_frames_when_not_waiting(streams, calls, ready_sent, rest, x);
                    assert(Seq::<FrameV>::empty() + Seq::<FrameV>::empty() =~= Seq::<FrameV>::empty());
                } else if streams.contains(id) {
                    lemma_no_frames_when_not_waiting(streams.remove(id), calls, ready_sent, rest, x);
                    assert(Seq::<FrameV>::empty() + Seq::<FrameV>::empty() =~= Seq::<FrameV>::empty());
                } else if calls.contains(id) {
                    lemma_no_frames_when_not_waiting(streams, calls.remove(id), ready_sent, rest, x);
                } else {
                    lemma_no_frames_when_not_waiting(streams, calls, ready_sent, rest, x);
                },
                None => lemma_no_frames_when_not_waiting(streams, calls, ready_sent, rest, x),
            }
        }
    }
}

/// Over any run of the streaming reader, a stream waiting at the start
/// receives exactly the frames it is owed: its chunks in the order of the
/// lines, then one final frame, and nothing after it, since a stream that has
/// received its final frame no longer waits; a stream that does not wait
/// receives nothing.
pub proof fn law_stream_frames_in_order(streams: Set<Seq<char>>, calls: Set<Seq<char>>, ready_sent: bool, lines: Seq<JsonV>, x: Seq<char>)
    ensures
        streams.contains(x) ==> stream_frames(streams, calls, ready_sent, lines, x) == frames_owed(x, ready_sent, lines),
        !streams.contains(x) ==> stream_frames(streams, calls, ready_sent, lines, x) == Seq::<FrameV>::empty(),
    decreases lines.len(),
{
    if !streams.contains(x) {
        lemma_no_frames_when_not_waiting(streams, calls, ready_sent, lines, x);
    } else if lines.len() > 0 {
        let v = lines[0];
        let rest = lines.subrange(1, lines.len() as int);
        if is_ready_line(ready_sent, v) {
            law_stream_frames_in_order(streams, calls, true, rest, x);
        } else {
            match line_id(v) {
                Some(id) => if is_chunk_line(v) {
                    law_stream_frames_in_order(streams, calls, ready_sent, rest, x);
                    if id != x {
                        assert(Seq::<FrameV>::empty() + stream_frames(streams, calls, ready_sent, rest, x)
                            =~= stream_frames(streams, calls, ready_sent, rest, x));
                    }
                } else if streams.contains(id) {
                    law_stream_frames_in_order(streams.remove(id), calls, ready_sent, rest, x);
                    if id == x {
                        assert(!streams.remove(id).contains(x));
                        assert(seq![final_frame_of(v)] + Seq::<FrameV>::empty() =~= seq![final_frame_of(v)]);
                    } else {
                        assert(streams.remove(id).contains(x));
                        assert(Seq::<FrameV>::empty() + stream_frames(streams.remove(id), calls, ready_sent, rest, x)
                            =~= stream_frames(streams.remove(id), calls, ready_sent, rest, x));
                    }
                } else if calls.contains(id) {
                    law_stream_frames_in_order(streams, calls.remove(id), ready_sent, rest, x);
                } else {
                    law_stream_frames_in_order(streams, calls, ready_sent, rest, x);
                },
                None => law_stream_frames_in_order(streams, calls, ready_sent, rest, x),
            }
        }
    }
}

/// The frames a stream is owed are chunk frames followed by exactly one
/// final frame: a final frame has no chunk, a chunk frame has neither result
/// nor error, and the final frame is the last.
pub proof fn law_owed_frames_end_once(x: Seq<char>, ready_sent: bool, lines: Seq<JsonV>)
    ensures
        frames_owed(x, ready_sent, lines).len() >= 1,
        frames_owed(x, ready_sent, lines).last().chunk is None,
        forall|i: int| 0 <= i < frames_owed(x, ready_sent, lines).len() - 1
            ==> (#[trigger] frames_owed(x, ready_sent, lines)[i]).result is None
                && frames_owed(x, ready_sent, lines)[i].error is None,
    decreases lines.len(),
{
    if lines.len() > 0 {
        let v = lines[0];
        let rest = lines.subrange(1, lines.len() as int);
        if is_ready_line(ready_sent, v) {
            law_owed_frames_end_once(x, true, rest);
        } else if line_id(v) == Some(x) {
            if is_chunk_line(v) {
                law_owed_frames_end_once(x, ready_sent, rest);
                let r = frames_owed(x, ready_sent, rest);
                let all = seq![chunk_frame_of(v)] + r;
                assert forall|i: int| 0 <= i < all.len() - 1 implies (#[trigger] all[i]).result is None && all[i].error is None by {
                    if i > 0 {
                        assert(all[i] == r[i - 1]);
                    }
                }
                assert(all.last() == r.last());
            }
        } else {
            law_owed_frames_end_once(x, ready_sent, rest);
        }
    }
}

/// The item a chunk line hands the asynchronous stream waiting under its id.
pub open spec fn async_chunk_of(v: JsonV) -> JsonV {
    match v.get("chunk"@) {
        Some(c) => c,
        None => JsonV::Null,
    }
}

/// The items a final line hands the asynchronous stream waiting under its
/// id before the stream closes: its error, read leniently, if it has one.
pub open spec fn async_final_items(v: JsonV) -> Seq<Result<JsonV, ErrorV>> {
    match lenient_error(v) {
        Some(e) => seq![Err(e)],
        None => Seq::empty(),
    }
}

/// The item every asynchronous stream still open receives when the output
/// ends.
pub open spec fn async_exit_item() -> Result<JsonV, ErrorV> {
    Err(exit_error("child process exited unexpectedly"@))
}

/// The items that successive `next` calls on the asynchronous stream under
/// `x` return before the stream closes, over a run of the asynchronous
/// reader that reads `lines` and then reaches the end of the output, with
/// the streams in `streams` and the plain calls in `calls` open at the
/// start: a chunk line hands its chunk to the stream open under its id; a
/// final line hands the stream open under its id its error, if any, and
/// closes it, or else completes the plain call under the id; at the end each
/// stream still open receives the exit error and closes.
pub open spec fn async_stream_items(streams: Set<Seq<char>>, calls: Set<Seq<char>>, ready_sent: bool, lines: Seq<JsonV>, x: Seq<char>) -> Seq<Result<JsonV, ErrorV>>
    decreases lines.len(),
{
    if lines.len() == 0 {
        if streams.contains(x) { seq![async_exit_item()] } else { Seq::empty() }
    } else {
        let v = lines[0];
        let rest = lines.subrange(1, lines.len() as int);
        if is_ready_line(ready_sent, v) {
            async_stream_items(streams, calls, true, rest, x)
        } else {
            match line_id(v) {
                Some(id) => if is_chunk_line(v) {
                    (if id == x && streams.contains(x) { seq![Ok(async_chunk_of(v))] } else { Seq::empty() })
                        + async_stream_items(streams, calls, ready_sent, rest, x)
                } else if streams.contains(id) {
                    (if id == x { async_final_items(v) } else { Seq::empty() })
                        + async_stream_items(streams.remove(id), calls, ready_sent, rest, x)
                } else if calls.contains(id) {
                    async_stream_items(streams, calls.remove(id), ready_sent, rest, x)
                } else {
                    async_stream_items(streams, calls, ready_sent, rest, x)
                },
                None => async_stream_items(streams, calls, ready_sent, rest, x),
            }
        }
    }
}

/// The items an asynchronous stream under `x` is owed by the lines of a run:
/// the chunk of each chunk line for `x`, in line order, up to the first
/// final line for `x`, which adds its error if it has one; or the exit error
/// when there is no final line.
pub open spec fn async_items_owed(x: Seq<char>, ready_sent: bool, lines: Seq<JsonV>) -> Seq<Result<JsonV, ErrorV>>
    decreases lines.len(),
{
    if lines.len() == 0 {
        seq![async_exit_item()]
    } else {
        let v = lines[0];
        let rest = lines.subrange(1, lines.len() as int);
        if is_ready_line(ready_sent, v) {
            async_items_owed(x, true, rest)
        } else if line_id(v) == Some(x) {
            if is_chunk_line(v) {
                seq![Ok(async_chunk_of(v))] + async_items_owed(x, ready_sent, rest)
            } else {
                async_final_items(v)
            }
        } else {
            async_items_owed(x, ready_sent, rest)
        }
    }
}

proof fn lemma_no_items_when_not_open(streams: Set<Seq<char>>, calls: Set<Seq<char>>, ready_sent: bool, lines: Seq<JsonV>, x: Seq<char>)
    requires
        !streams.contains(x),
    ensures
        async_stream_items(streams, calls, ready_sent, lines, x) == Seq::<Result<JsonV, ErrorV>>::empty(),
    decreases lines.len(),
{
    if lines.len() > 0 {
        let v = lines[0];
        let rest = lines.subrange(1, lines.len() as int);
        let none = Seq::<Result<JsonV, ErrorV>>::empty();
        if is_ready_line(ready_sent, v) {
            lemma_no_items_when_not_open(streams, calls, true, rest, x);
        } else {
            match line_id(v) {
                Some(id) => if is_chunk_line(v) {
                    lemma_no_items_when_not_open(streams, calls, ready_sent, rest, x);
                    assert(none + none =~= none);
                } else if streams.contains(id) {
                    lemma_no_items_when_not_open(streams.remove(id), calls, ready_sent, rest, x);
                    assert(none + none =~= none);
                } else if calls.contains(id) {
                    lemma_no_items_when_not_open(streams, calls.remove(id), ready_sent, rest, x);
                } else {
                    lemma_no_items_when_not_open(streams, calls, ready_sent, rest, x);
                },
                None => lemma_no_items_when_not_open(streams, calls, ready_sent, rest, x),
            }
        }
    }
}

/// Over any run of the asynchronous reader, `next` on a stream open at the
/// start returns exactly the items it is owed, then `None`: its chunks in
/// the order of the lines, then the error of its final line if that line has
/// one, and nothing after its final line, since a closed stream is no longer
/// open; a stream that is not open receives nothing.
pub proof fn law_async_stream_items_in_order(streams: Set<Seq<char>>, calls: Set<Seq<char>>, ready_sent: bool, lines: Seq<JsonV>, x: Seq<char>)
    ensures
        streams.contains(x) ==> async_stream_items(streams, calls, ready_sent, lines, x) == async_items_owed(x, ready_sent, lines),
        !streams.contains(x) ==> async_stream_items(streams, calls, ready_sent, lines, x) == Seq::<Result<JsonV, ErrorV>>::empty(),
    decreases lines.len(),
{
    if !streams.contains(x) {
        lemma_no_items_when_not_open(streams, calls, ready_sent, lines, x);
    } else if lines.len() > 0 {
        let v = lines[0];
        let rest = lines.subrange(1, lines.len() as int);
        let none = Seq::<Result<JsonV, ErrorV>>::empty();
        if is_ready_line(ready_sent, v) {
            law_async_stream_items_in_order(streams, calls, true, rest, x);
        } else {
            match line_id(v) {
                Some(id) => if is_chunk_line(v) {
                    law_async_stream_items_in_order(streams, calls, ready_sent, rest, x);
                    if id != x {
                        assert(none + async_stream_items(streams, calls, ready_sent, rest, x)
                            =~= async_stream_items(streams, calls, ready_sent, rest, x));
                    }
                } else if streams.contains(id) {
                    law_async_stream_items_in_order(streams.remove(id), calls, ready_sent, rest, x);
                    if id == x {
                        assert(!streams.remove(id).contains(x));
                        assert(async_final_items(v) + none =~= async_final_items(v));
                    } else {
                        assert(streams.remove(id).contains(x));
                        assert(none + async_stream_items(streams.remove(id), calls, ready_sent, rest, x)
                            =~= async_stream_items(streams.remove(id), calls, ready_sent, rest, x));
                    }
                } else if calls.contains(id) {
                    law_async_stream_items_in_order(streams, calls.remove(id), ready_sent, rest, x);
                } else {
                    law_async_stream_items_in_order(streams, calls, ready_sent, rest, x);
                },
                None => law_async_stream_items_in_order(streams, calls, ready_sent, rest, x),
            }
        }
    }
}

/// The items an asynchronous stream is owed are chunks, each `Ok`, and at
/// most one error, which comes last: every item but the last is `Ok`.
pub proof fn law_async_owed_items_end_once(x: Seq<char>, ready_sent: bool, lines: Seq<JsonV>)
    ensures
        forall|i: int| 0 <= i < async_items_owed(x, ready_sent, lines).len() - 1
            ==> (#[trigger] async_items_owed(x, ready_sent, lines)[i]) is Ok,
    decreases lines.len(),
{
    if lines.len() > 0 {
        let v = lines[0];
        let rest = lines.subrange(1, lines.len() as int);
        if is_ready_line(ready_sent, v) {
            law_async_owed_items_end_once(x, true, rest);
        } else if line_id(v) == Some(x) {
            if is_chunk_line(v) {
                law_async_owed_items_end_once(x, ready_sent, rest);
                let r = async_items_owed(x, ready_sent, rest);
                let all = seq![Ok::<JsonV, ErrorV>(async_chunk_of(v))] + r;
                assert forall|i: int| 0 <= i < all.len() - 1 implies (#[trigger] all[i]) is Ok by {
                    if i > 0 {
                        assert(all[i] == r[i - 1]);
                    }
                }
            }
        } else {
            law_async_owed_items_end_once(x, ready_sent, rest);
        }
    }
}

// ── The runs above are what the readers' steps do ──

/// The table of waiting calls after the plain reader has routed `r`, as
/// `route_response` leaves it: a response takes its id out of the table.
pub open spec fn calls_after_step<S>(table: Map<Seq<char>, S>, r: Incoming) -> Map<Seq<char>, S> {
    match r {
        Incoming::Response(resp) => table.remove(resp.id@),
        _ => table,
    }
}

/// How many responses the call waiting under `x` receives from the plain
/// reader's step `r`, as `route_response` delivers: one when `r` is a
/// response to `x` and a call waits under `x`.
pub open spec fn answers_in_step<S>(table: Map<Seq<char>, S>, r: Incoming, x: Seq<char>) -> nat {
    match r {
        Incoming::Response(resp) => if resp.id@ == x && table.contains_key(x) { 1 } else { 0 },
        _ => 0,
    }
}

/// A step of the plain reader, as the contracts of `reader_line`
/// (`plain_step`) and `route_response` state it, is a step of
/// `times_answered`: the responses the call under `x` receives over a run
/// are those the step delivers to it, then those of the rest of the run from
/// the table and readiness the step leaves.
pub proof fn law_plain_step_follows_run<S>(table: Map<Seq<char>, S>, ready_sent: bool, v: JsonV, ready_after: bool, r: Incoming, rest: Seq<JsonV>, x: Seq<char>)
    requires
        plain_step(ready_sent, v, ready_after, r),
    ensures
        times_answered(table.dom(), ready_sent, seq![v] + rest, x)
            == answers_in_step(table, r, x) + times_answered(calls_after_step(table, r).dom(), ready_after, rest, x),
{
    let lines = seq![v] + rest;
    assert(lines[0] == v);
    assert(lines.subrange(1, lines.len() as int) =~= rest);
    if let Incoming::Response(resp) = r {
        assert(table.remove(resp.id@).dom() =~= table.dom().remove(resp.id@));
        if !table.contains_key(resp.id@) {
            assert(table.dom().remove(resp.id@) =~= table.dom());
        }
    }
}

/// The streams waiting after the streaming reader's step `r`, as
/// `route_terminal` leaves them: a final frame for a waiting stream takes it
/// out.
pub open spec fn streams_after_step<T>(streams: Map<Seq<char>, T>, r: StreamIncoming) -> Map<Seq<char>, T> {
    match r {
        StreamIncoming::Terminal(id, _, _) => streams.remove(id@),
        _ => streams,
    }
}

/// The plain calls waiting after the streaming reader's step `r`, as
/// `route_terminal` leaves them: a final frame for an id no stream waits
/// under takes the call under it out.
pub open spec fn stream_calls_after_step<S, T>(streams: Map<Seq<char>, T>, calls: Map<Seq<char>, S>, r: StreamIncoming) -> Map<Seq<char>, S> {
    match r {
        StreamIncoming::Terminal(id, _, _) => if streams.contains_key(id@) { calls } else { calls.remove(id@) },
        _ => calls,
    }
}

/// The frames the stream under `x` receives from the streaming reader's step
/// `r`: a chunk frame for `x` goes to the waiting stream as the reader hands
/// it over, and a final frame for `x` as `route_terminal` builds it.
pub open spec fn frames_in_step<T>(streams: Map<Seq<char>, T>, r: StreamIncoming, x: Seq<char>) -> Seq<FrameV> {
    match r {
        StreamIncoming::Chunk(id, f) => if id@ == x && streams.contains_key(x) { seq![f@] } else { Seq::empty() },
        StreamIncoming::Terminal(id, res, e) => if id@ == x && streams.contains_key(x) {
            seq![FrameV { chunk: None, result: opt_json_view(res), error: opt_error_view(e) }]
        } else {
            Seq::empty()
        },
        _ => Seq::empty(),
    }
}

/// A step of the streaming reader, as the contracts of
/// `streaming_reader_line` (`stream_step`) and `route_terminal` state it, is
/// a step of `stream_frames`.
pub proof fn law_stream_step_follows_run<S, T>(
    streams: Map<Seq<char>, T>,
    calls: Map<Seq<char>, S>,
    ready_sent: bool,
    v: JsonV,
    ready_after: bool,
    r: StreamIncoming,
    rest: Seq<JsonV>,
    x: Seq<char>,
)
    requires
        stream_step(ready_sent, v, ready_after, r),
    ensures
        stream_frames(streams.dom(), calls.dom(), ready_sent, seq![v] + rest, x)
            == frames_in_step(streams, r, x) + stream_frames(
                streams_after_step(streams, r).dom(),
                stream_calls_after_step(streams, calls, r).dom(),
                ready_after,
                rest,
                x,
            ),
{
    let lines = seq![v] + rest;
    assert(lines[0] == v);
    assert(lines.subrange(1, lines.len() as int) =~= rest);
    let none = Seq::<FrameV>::empty();
    match r {
        StreamIncoming::Chunk(id, f) => {
            assert(none + stream_frames(streams.dom(), calls.dom(), ready_after, rest, x)
                =~= stream_frames(streams.dom(), calls.dom(), ready_after, rest, x));
        },
        StreamIncoming::Terminal(id, res, e) => {
            assert(streams.remove(id@).dom() =~= streams.dom().remove(id@));
            assert(calls.remove(id@).dom() =~= calls.dom().remove(id@));
            if !streams.contains_key(id@) {
                assert(streams.dom().remove(id@) =~= streams.dom());
                if !calls.contains_key(id@) {
                    assert(calls.dom().remove(id@) =~= calls.dom());
                }
            }
            let after = stream_frames(streams.remove(id@).dom(), stream_calls_after_step(streams, calls, r).dom(), ready_after, rest, x);
            assert(none + after =~= after);
        },
        _ => {
            assert(none + stream_frames(streams.dom(), calls.dom(), ready_after, rest, x)
                =~= stream_frames(streams.dom(), calls.dom(), ready_after, rest, x));
        },
    }
}

/// The asynchronous streams open after the reader's step `r`, as
/// `route_async_terminal` leaves them.
pub open spec fn async_streams_after_step<T>(streams: Map<Seq<char>, T>, r: AsyncIncoming) -> Map<Seq<char>, T> {
    match r {
        AsyncIncoming::Terminal(id, _, _) => streams.remove(id@),
        _ => streams,
    }
}

/// The asynchronous plain calls waiting after the reader's step `r`, as
/// `route_async_terminal` leaves them.
pub open spec fn async_calls_after_step<C, T>(streams: Map<Seq<char>, T>, calls: Map<Seq<char>, C>, r: AsyncIncoming) -> Map<Seq<char>, C> {
    match r {
        AsyncIncoming::Terminal(id, _, _) => if streams.contains_key(id@) { calls } else { calls.remove(id@) },
        _ => calls,
    }
}

/// The items the asynchronous stream under `x` receives from the reader's
/// step `r`: a chunk for `x` as the reader hands it over, and the error of a
/// final frame for `x`, if any, as `route_async_terminal` hands it on.
pub open spec fn items_in_step<T>(streams: Map<Seq<char>, T>, r: AsyncIncoming, x: Seq<char>) -> Seq<Result<JsonV, ErrorV>> {
    match r {
        AsyncIncoming::Chunk(id, c) => if id@ == x && streams.contains_key(x) { seq![Ok(c@)] } else { Seq::empty() },
        AsyncIncoming::Terminal(id, _, e) => if id@ == x && streams.contains_key(x) {
            match e {
                Some(err) => seq![Err(err@)],
                None => Seq::empty(),
            }
        } else {
            Seq::empty()
        },
        _ => Seq::empty(),
    }
}

/// A step of the asynchronous reader, as the contracts of
/// `async_reader_line` (`async_step`) and `route_async_terminal` state it,
/// is a step of `async_stream_items`.
pub proof fn law_async_step_follows_run<C, T>(
    streams: Map<Seq<char>, T>,
    calls: Map<Seq<char>, C>,
    ready_sent: bool,
    v: JsonV,
    ready_after: bool,
    r: AsyncIncoming,
    rest: Seq<JsonV>,
    x: Seq<char>,
)
    requires
        async_step(ready_sent, v, ready_after, r),
    ensures
        async_stream_items(streams.dom(), calls.dom(), ready_sent, seq![v] + rest, x)
            == items_in_step(streams, r, x) + async_stream_items(
                async_streams_after_step(streams, r).dom(),
                async_calls_after_step(streams, calls, r).dom(),
                ready_after,
                rest,
                x,
            ),
{
    let lines = seq![v] + rest;
    assert(lines[0] == v);
    assert(lines.subrange(1, lines.len() as int) =~= rest);
    let none = Seq::<Result<JsonV, ErrorV>>::empty();
    match r {
        AsyncIncoming::Chunk(id, c) => {
            assert(none + async_stream_items(streams.dom(), calls.dom(), ready_after, rest, x)
                =~= async_stream_items(streams.dom(), calls.dom(), ready_after, rest, x));
        },
        AsyncIncoming::Terminal(id, res, e) => {
            assert(streams.remove(id@).dom() =~= streams.dom().remove(id@));
            assert(calls.remove(id@).dom() =~= calls.dom().remove(id@));
            if !streams.contains_key(id@) {
                assert(streams.dom().remove(id@) =~= streams.dom());
                if !calls.contains_key(id@) {
                    assert(calls.dom().remove(id@) =~= calls.dom());
                }
            }
            let after = async_stream_items(streams.remove(id@).dom(), async_calls_after_step(streams, calls, r).dom(), ready_after, rest, x);
            assert(none + after =~= after);
        },
        _ => {
            assert(none + async_stream_items(streams.dom(), calls.dom(), ready_after, rest, x)
                =~= async_stream_items(streams.dom(), calls.dom(), ready_after, rest, x));
        },
    }
}

/// How many times the asynchronous reader passes the readiness signal on
/// over a run that reads `lines`: at ready lines only, never at the end.
pub open spec fn async_readiness_signals(ready_sent: bool, lines: Seq<JsonV>) -> nat
    decreases lines.len(),
{
    if lines.len() == 0 {
        0
    } else {
        let ready = is_ready_line(ready_sent, lines[0]);
        (if ready { 1nat } else { 0nat }) + async_readiness_signals(ready_sent || ready, lines.subrange(1, lines.len() as int))
    }
}

/// Over any run, the asynchronous reader passes the readiness signal on at
/// most once, and exactly once when some line is a ready line.
pub proof fn law_async_ready_at_most_once(ready_sent: bool, lines: Seq<JsonV>)
    ensures
        async_readiness_signals(ready_sent, lines) <= 1,
        ready_sent ==> async_readiness_signals(ready_sent, lines) == 0,
        !ready_sent && (exists|i: int| 0 <= i < lines.len() && #[trigger] is_ready_line(false, lines[i]))
            ==> async_readiness_signals(ready_sent, lines) == 1,
    decreases lines.len(),
{
    if lines.len() > 0 {
        let rest = lines.subrange(1, lines.len() as int);
        let ready = is_ready_line(ready_sent, lines[0]);
        law_async_ready_at_most_once(ready_sent || ready, rest);
        if !ready_sent && !ready && (exists|i: int| 0 <= i < lines.len() && #[trigger] is_ready_line(false, lines[i])) {
            let i = choose|i: int| 0 <= i < lines.len() && #[trigger] is_ready_line(false, lines[i]);
            assert(i > 0);
            assert(rest[i - 1] == lines[i]);
        }
    }
}

/// For a handler that returns a single result, the streaming sidecar writes
/// exactly the lines the plain sidecar writes, request by request: the same
/// pong for `__ping__`, the same reply to a result, the same error line.
pub proof fn law_streaming_single_is_plain(v: JsonV, pid: u32, outcome: Result<JsonV, Seq<char>>)
    ensures
        streaming_turn(v, pid, as_single(outcome)) == plain_turn(v, pid, outcome),
{
}

/// Over a whole run, the two sidecars write the same reply lines for the
/// same request lines when the streaming handler wraps the plain handler's
/// outcomes as single results.
pub proof fn law_streaming_run_is_plain(requests: Seq<JsonV>, pid: u32, outcomes: Seq<Result<JsonV, Seq<char>>>)
    requires
        outcomes.len() == requests.len(),
    ensures
        Seq::new(requests.len(), |i: int| streaming_turn(requests[i], pid, as_single(outcomes[i])))
            == Seq::new(requests.len(), |i: int| plain_turn(requests[i], pid, outcomes[i])),
{
    assert(Seq::new(requests.len(), |i: int| streaming_turn(requests[i], pid, as_single(outcomes[i])))
        =~= Seq::new(requests.len(), |i: int| plain_turn(requests[i], pid, outcomes[i])));
}

} // verus!
