use stitch::json::{Json, JsonNumber};
use stitch::pending::PendingTable;
use stitch::reader::{
    async_reader_eof, classify_async_message, classify_message, classify_stream_message, fail_calls,
    reader_eof, route_async_terminal, route_response, route_terminal, streaming_reader_eof, AsyncIncoming,
    AsyncRoute, CallRoute, Incoming, ReaderState, StreamIncoming, TerminalRoute,
};
use stitch::wire::{AsyncRpcError, RpcError, RpcResponse, StreamFrame};

fn s(t: &str) -> Json {
    Json::Str(t.to_string())
}

fn obj(members: Vec<(&str, Json)>) -> Json {
    Json::Object(members.into_iter().map(|(k, v)| (k.to_string(), v)).collect())
}

fn num(n: u64) -> Json {
    Json::Number(JsonNumber::PosInt(n))
}

#[test]
fn table_insert_get_remove() {
    let mut t: PendingTable<u32> = PendingTable::new();
    assert_eq!(t.len(), 0);
    assert_eq!(t.insert("a".to_string(), 1), None);
    assert_eq!(t.insert("b".to_string(), 2), None);
    assert_eq!(t.insert("a".to_string(), 3), Some(1));
    assert_eq!(t.len(), 2);
    assert_eq!(t.get(&"a".to_string()), Some(&3));
    assert!(t.contains(&"b".to_string()));
    assert_eq!(t.remove(&"b".to_string()), Some(2));
    assert_eq!(t.remove(&"b".to_string()), None);
    assert!(!t.contains(&"b".to_string()));
    let mut drained = t.drain();
    drained.sort();
    assert_eq!(drained, vec![("a".to_string(), 3)]);
    assert_eq!(t.len(), 0);
}

#[test]
fn ready_is_signalled_once() {
    let mut st = ReaderState::new();
    let ready = obj(vec![("ready", Json::Bool(true))]);
    assert!(matches!(classify_message(&mut st, &ready), Incoming::Ready));
    assert!(st.ready_sent);
    assert!(matches!(classify_message(&mut st, &ready), Incoming::Skip));
    let mut st2 = ReaderState::new();
    assert!(matches!(classify_message(&mut st2, &obj(vec![("ready", s("true"))])), Incoming::Skip));
    assert!(!st2.ready_sent);
}

#[test]
fn line_without_string_id_is_skipped() {
    let mut st = ReaderState::new();
    assert!(matches!(classify_message(&mut st, &obj(vec![("id", num(3)), ("result", num(1))])), Incoming::Skip));
    assert!(matches!(classify_message(&mut st, &obj(vec![("result", num(1))])), Incoming::Skip));
    assert!(matches!(classify_message(&mut st, &Json::Array(vec![])), Incoming::Skip));
}

#[test]
fn response_is_read_and_routed() {
    let mut st = ReaderState::new();
    let line = obj(vec![("id", s("c1")), ("result", obj(vec![("sum", num(42))]))]);
    let resp = match classify_message(&mut st, &line) {
        Incoming::Response(r) => r,
        _ => panic!("expected a response"),
    };
    assert_eq!(resp, RpcResponse { id: "c1".to_string(), result: Some(obj(vec![("sum", num(42))])), error: None });
    let mut t: PendingTable<&str> = PendingTable::new();
    t.insert("c1".to_string(), "caller one");
    match route_response(&mut t, resp) {
        CallRoute::Deliver(who, r) => {
            assert_eq!(who, "caller one");
            assert_eq!(r.id, "c1");
        }
        CallRoute::Unknown(_) => panic!("should be delivered"),
    }
    assert_eq!(t.len(), 0);
    let again = RpcResponse { id: "c1".to_string(), result: None, error: None };
    assert!(matches!(route_response(&mut t, again), CallRoute::Unknown(_)));
}

#[test]
fn malformed_error_object_is_dropped_by_the_strict_reader() {
    let mut st = ReaderState { ready_sent: true };
    let line = obj(vec![("id", s("c2")), ("error", obj(vec![("code", num(1))]))]);
    match classify_message(&mut st, &line) {
        Incoming::Response(r) => {
            assert_eq!(r.error, None);
            assert_eq!(r.result, None);
        }
        _ => panic!("expected a response"),
    }
}

#[test]
fn streaming_reader_chunk_and_terminal() {
    let mut st = ReaderState { ready_sent: true };
    let chunk = obj(vec![("id", s("s1")), ("chunk", num(7))]);
    match classify_stream_message(&mut st, &chunk) {
        StreamIncoming::Chunk(id, f) => {
            assert_eq!(id, "s1");
            assert_eq!(f, StreamFrame { chunk: Some(num(7)), result: None, error: None });
        }
        _ => panic!("expected a chunk"),
    }
    let mixed = obj(vec![("id", s("s1")), ("chunk", num(7)), ("result", Json::Null)]);
    assert!(matches!(classify_stream_message(&mut st, &mixed), StreamIncoming::Terminal(_, Some(Json::Null), None)));

    let mut calls: PendingTable<u8> = PendingTable::new();
    let mut streams: PendingTable<u8> = PendingTable::new();
    calls.insert("x".to_string(), 1);
    streams.insert("x".to_string(), 2);
    match route_terminal(&mut calls, &mut streams, "x".to_string(), Some(Json::Object(vec![])), None) {
        TerminalRoute::ToStream(t, f) => {
            assert_eq!(t, 2);
            assert_eq!(f, StreamFrame { chunk: None, result: Some(Json::Object(vec![])), error: None });
        }
        _ => panic!("stream first"),
    }
    match route_terminal(&mut calls, &mut streams, "x".to_string(), Some(num(1)), None) {
        TerminalRoute::ToCall(c, r) => {
            assert_eq!(c, 1);
            assert_eq!(r.result, Some(num(1)));
        }
        _ => panic!("then the call"),
    }
    assert!(matches!(route_terminal(&mut calls, &mut streams, "x".to_string(), None, None), TerminalRoute::Unknown(_)));
}

#[test]
fn async_reader_outcomes() {
    let mut st = ReaderState { ready_sent: true };
    let chunk = obj(vec![("id", s("a")), ("chunk", Json::Null)]);
    assert!(matches!(classify_async_message(&mut st, &chunk), AsyncIncoming::Chunk(_, Json::Null)));
    let err_line = obj(vec![("id", s("a")), ("error", Json::Null)]);
    let (id, result, error) = match classify_async_message(&mut st, &err_line) {
        AsyncIncoming::Terminal(i, r, e) => (i, r, e),
        _ => panic!("terminal"),
    };
    assert_eq!(error, Some(AsyncRpcError { code: None, message: "unknown error".to_string(), traceback: None, backtrace: None }));
    let mut calls: PendingTable<u8> = PendingTable::new();
    let mut streams: PendingTable<u8> = PendingTable::new();
    calls.insert("a".to_string(), 9);
    match route_async_terminal(&mut calls, &mut streams, id, result, error) {
        AsyncRoute::CallDone(c, Err(e)) => {
            assert_eq!(c, 9);
            assert_eq!(e.message, "unknown error");
        }
        _ => panic!("call fails"),
    }
    calls.insert("b".to_string(), 8);
    match route_async_terminal(&mut calls, &mut streams, "b".to_string(), None, None) {
        AsyncRoute::CallDone(8, Ok(Json::Null)) => {}
        _ => panic!("null result"),
    }
    streams.insert("c".to_string(), 7);
    match route_async_terminal(&mut calls, &mut streams, "c".to_string(), Some(num(1)), None) {
        AsyncRoute::StreamEnd(7, None) => {}
        _ => panic!("stream ends"),
    }
}

#[test]
fn end_of_output_fails_every_waiting_call_once() {
    let mut t: PendingTable<u8> = PendingTable::new();
    t.insert("p".to_string(), 1);
    t.insert("q".to_string(), 2);
    let st = ReaderState::new();
    let (signal, mut failed) = reader_eof(&st, &mut t);
    assert!(signal);
    failed.sort_by(|a, b| a.0.cmp(&b.0));
    assert_eq!(failed.len(), 2);
    assert_eq!(failed[0].1, 1);
    assert_eq!(
        failed[0].2,
        RpcResponse {
            id: "p".to_string(),
            result: None,
            error: Some(RpcError { code: Some(-32000), message: "child process exited unexpectedly".to_string(), traceback: None, backtrace: None }),
        }
    );
    assert_eq!(failed[1].2.id, "q");
    assert_eq!(t.len(), 0);
    assert!(fail_calls(&mut t, "x").is_empty());
}

#[test]
fn streaming_end_of_output_uses_child_exited() {
    let mut calls: PendingTable<u8> = PendingTable::new();
    let mut streams: PendingTable<u8> = PendingTable::new();
    calls.insert("c".to_string(), 1);
    streams.insert("s".to_string(), 2);
    let st = ReaderState { ready_sent: true };
    let (signal, failed_calls, failed_streams) = streaming_reader_eof(&st, &mut calls, &mut streams);
    assert!(!signal);
    assert_eq!(failed_calls[0].2.error.as_ref().unwrap().message, "child exited");
    assert_eq!(failed_streams[0].1, 2);
    assert_eq!(failed_streams[0].2.error.as_ref().unwrap().code, Some(-32000));
    assert_eq!(failed_streams[0].2.chunk, None);
}

#[test]
fn async_end_of_output() {
    let mut calls: PendingTable<u8> = PendingTable::new();
    let mut streams: PendingTable<u8> = PendingTable::new();
    streams.insert("s".to_string(), 2);
    let (failed_calls, failed_streams) = async_reader_eof(&mut calls, &mut streams);
    assert!(failed_calls.is_empty());
    assert_eq!(failed_streams[0].2.message, "child process exited unexpectedly");
    assert_eq!(failed_streams[0].2.code, Some(-32000));
    assert_eq!(streams.len(), 0);
}

#[test]
fn nothing_reaches_a_stream_after_its_final_frame() {
    let mut calls: PendingTable<u8> = PendingTable::new();
    let mut streams: PendingTable<u8> = PendingTable::new();
    streams.insert("k".to_string(), 1);
    assert!(matches!(route_terminal(&mut calls, &mut streams, "k".to_string(), None, None), TerminalRoute::ToStream(1, _)));
    assert!(streams.get(&"k".to_string()).is_none());
    assert!(matches!(route_terminal(&mut calls, &mut streams, "k".to_string(), None, None), TerminalRoute::Unknown(_)));
}
