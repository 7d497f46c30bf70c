use stitch::client::{call_id, ping_request, ping_result, stream_item, stream_request};
use stitch::json::{Json, JsonNumber};
use stitch::pending::PendingTable;
use stitch::protocol::{
    decode_request, error_frame, parse_error_frame, plan_request, ready_frame, ready_frame_with_methods,
    reply_frame, request_message, stream_end_frame, chunk_frame, Plan,
};
use stitch::reader::{
    classify_async_message, classify_message, classify_stream_message, route_response, AsyncIncoming, CallRoute,
    Incoming, ReaderState, StreamIncoming,
};
use stitch::wire::{AsyncRpcError, RpcError, StreamFrame};

fn s(t: &str) -> Json {
    Json::Str(t.to_string())
}

fn obj(members: Vec<(&str, Json)>) -> Json {
    Json::Object(members.into_iter().map(|(k, v)| (k.to_string(), v)).collect())
}

#[test]
fn request_reads_back_on_the_sidecar() {
    let params = obj(vec![("msg", s("\u{3053}\u{3093}\u{306b}\u{3061}\u{306f} \u{1f980}"))]);
    let line = request_message("call-7", "echo", params.copy(), true);
    let req = decode_request(&line);
    assert_eq!(req.id, "call-7");
    assert_eq!(req.method, "echo");
    assert_eq!(req.params, params);
    assert_eq!(req.traceparent, "");
}

#[test]
fn echo_round_trip_reaches_the_caller() {
    let mut pending: PendingTable<&str> = PendingTable::new();
    let id = call_id(1);
    pending.insert(id.clone(), "waiter");
    let request = request_message(&id, "echo", obj(vec![("msg", s("hello"))]), false);
    let req = match plan_request(&request, 1) {
        Plan::Dispatch(r) => r,
        Plan::Reply(..) => panic!("echo is dispatched"),
    };
    let line = reply_frame(&req.id, Ok(req.params.copy()));
    let mut st = ReaderState { ready_sent: true };
    let resp = match classify_message(&mut st, &line) {
        Incoming::Response(r) => r,
        _ => panic!("a response"),
    };
    match route_response(&mut pending, resp) {
        CallRoute::Deliver(w, r) => {
            assert_eq!(w, "waiter");
            assert_eq!(r.result, Some(obj(vec![("msg", s("hello"))])));
            assert_eq!(r.error, None);
        }
        CallRoute::Unknown(_) => panic!("delivered"),
    }
}

#[test]
fn error_round_trip_reaches_the_caller() {
    let line = reply_frame("call-2", Err("deliberate test error".to_string()));
    let mut st = ReaderState { ready_sent: true };
    match classify_message(&mut st, &line) {
        Incoming::Response(r) => assert_eq!(
            r.error,
            Some(RpcError { code: None, message: "deliberate test error".to_string(), traceback: Some(String::new()), backtrace: None })
        ),
        _ => panic!("a response"),
    }
    let mut st = ReaderState { ready_sent: true };
    match classify_async_message(&mut st, &error_frame("call-2", "m", "tb")) {
        AsyncIncoming::Terminal(_, None, Some(e)) => assert_eq!(
            e,
            AsyncRpcError { code: None, message: "m".to_string(), traceback: Some("tb".to_string()), backtrace: None }
        ),
        _ => panic!("terminal with error"),
    }
}

#[test]
fn stream_round_trip() {
    let req = decode_request(&stream_request("call-3", "generate", obj(vec![])));
    let mut st = ReaderState { ready_sent: true };
    let mut items = Vec::new();
    for n in 0..3u64 {
        match classify_stream_message(&mut st, &chunk_frame(&req.id, Json::Number(JsonNumber::PosInt(n)))) {
            StreamIncoming::Chunk(id, frame) => {
                assert_eq!(id, "call-3");
                items.push(stream_item(Some(frame)));
            }
            _ => panic!("a chunk"),
        }
    }
    match classify_stream_message(&mut st, &stream_end_frame(&req.id)) {
        StreamIncoming::Terminal(_, result, error) => {
            items.push(stream_item(Some(StreamFrame { chunk: None, result, error })));
        }
        _ => panic!("the end"),
    }
    assert_eq!(
        items,
        vec![
            Some(Ok(Json::Number(JsonNumber::PosInt(0)))),
            Some(Ok(Json::Number(JsonNumber::PosInt(1)))),
            Some(Ok(Json::Number(JsonNumber::PosInt(2)))),
            None,
        ]
    );
}

#[test]
fn ping_round_trip() {
    let line = ping_request("ping-5");
    let answer = match plan_request(&line, 4321) {
        Plan::Reply(_, a) => a,
        Plan::Dispatch(_) => panic!("built in"),
    };
    let mut st = ReaderState { ready_sent: true };
    let resp = match classify_message(&mut st, &answer) {
        Incoming::Response(r) => r,
        _ => panic!("a response"),
    };
    assert_eq!(
        ping_result(Some(resp)),
        Ok(obj(vec![("pong", Json::Bool(true)), ("pid", Json::Number(JsonNumber::PosInt(4321)))]))
    );
}

#[test]
fn ready_signals_are_recognised_once() {
    let mut st = ReaderState::new();
    assert!(matches!(classify_message(&mut st, &ready_frame_with_methods(&vec!["__ping__".to_string()])), Incoming::Ready));
    assert!(matches!(classify_message(&mut st, &ready_frame()), Incoming::Skip));
}

#[test]
fn parse_error_answers_reach_no_caller() {
    let mut st = ReaderState { ready_sent: true };
    assert!(matches!(classify_message(&mut st, &parse_error_frame("e", "E")), Incoming::Skip));
}
