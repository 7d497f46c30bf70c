use stitch::json::{Json, JsonNumber};
use stitch::lines::{json_line, json_text, parse_json_text, read_line_text, trim_text, LineText};
use stitch::protocol::{
    chunk_line, error_line, parse_error_frame, parse_error_line, plan_request, pong, ready_line, ready_line_with_methods,
    request_line, response_frame, response_line, sidecar_line, stream_end_line, turn_line, Plan, SidecarTurn,
};
use stitch::pending::PendingTable;
use stitch::reader::{
    async_reader_line, reader_line, route_async_terminal, streaming_reader_line, AsyncIncoming, AsyncRoute, Incoming,
    ReaderState, StreamIncoming,
};
use stitch::wire::{AsyncRpcError, RpcError, StreamFrame};

fn s(t: &str) -> Json {
    Json::Str(t.to_string())
}

fn obj(members: Vec<(&str, Json)>) -> Json {
    Json::Object(members.into_iter().map(|(k, v)| (k.to_string(), v)).collect())
}

fn num(n: u64) -> Json {
    Json::Number(JsonNumber::PosInt(n))
}

#[test]
fn trim_removes_surrounding_white_space() {
    assert_eq!(trim_text("  \t{\"a\":1}\r\n"), "{\"a\":1}");
    assert_eq!(trim_text("\u{a0}x y\u{3000}"), "x y");
    assert_eq!(trim_text(" \n "), "");
    assert_eq!(trim_text("x"), "x");
}

#[test]
fn parse_gives_library_values() {
    let v = parse_json_text("{\"b\":[1,-2,1.5,\"s\",null,true],\"a\":{}}").unwrap();
    assert_eq!(
        v,
        obj(vec![
            ("a", obj(vec![])),
            (
                "b",
                Json::Array(vec![
                    num(1),
                    Json::Number(JsonNumber::NegInt(-2)),
                    Json::Number(JsonNumber::Float("1.5".to_string())),
                    s("s"),
                    Json::Null,
                    Json::Bool(true),
                ])
            ),
        ])
    );
    assert_eq!(parse_json_text("18446744073709551615").unwrap(), num(u64::MAX));
    assert_eq!(parse_json_text("\"\\u00e9\"").unwrap(), s("\u{e9}"));
}

#[test]
fn parse_failure_carries_the_error_text() {
    let (display, debug) = parse_json_text("{bad").unwrap_err();
    assert!(display.starts_with("key must be a string at line 1 column"), "{display}");
    assert!(debug.starts_with("Error(\"key must be a string\", line: 1, column:"), "{debug}");
    assert!(parse_json_text("").is_err());
}

#[test]
fn line_text_kinds() {
    assert!(matches!(read_line_text("   "), LineText::Blank));
    assert!(matches!(read_line_text(""), LineText::Blank));
    assert!(matches!(read_line_text(" nope "), LineText::Malformed(_, _)));
    match read_line_text(" {\"ready\": true} \n") {
        LineText::Value(v) => assert_eq!(v, obj(vec![("ready", Json::Bool(true))])),
        _ => panic!("expected a value"),
    }
}

#[test]
fn plain_reader_reads_raw_lines() {
    let mut st = ReaderState::new();
    assert!(reader_line(&mut st, "").is_none());
    assert!(reader_line(&mut st, "  {oops").is_none());
    assert!(!st.ready_sent);
    assert!(matches!(reader_line(&mut st, "{\"ready\":true}\n"), Some(Incoming::Ready)));
    assert!(st.ready_sent);
    assert!(matches!(reader_line(&mut st, "{\"ready\":true}"), Some(Incoming::Skip)));
    match reader_line(&mut st, "{\"id\":\"c1\",\"error\":{\"message\":\"m\",\"code\":null,\"extra\":[1]}}") {
        Some(Incoming::Response(r)) => {
            assert_eq!(r.id, "c1");
            assert_eq!(r.result, None);
            assert_eq!(r.error, Some(RpcError { code: None, message: "m".to_string(), traceback: None, backtrace: None }));
        }
        _ => panic!("expected a response"),
    }
    match reader_line(&mut st, " {\"result\":{\"sum\":42},\"id\":\"c2\"} ") {
        Some(Incoming::Response(r)) => {
            assert_eq!(r.id, "c2");
            assert_eq!(r.result, Some(obj(vec![("sum", num(42))])));
            assert_eq!(r.error, None);
        }
        _ => panic!("expected a response"),
    }
    assert!(matches!(reader_line(&mut st, "{\"id\":7,\"result\":1}"), Some(Incoming::Skip)));
}

#[test]
fn streaming_reader_reads_raw_lines() {
    let mut st = ReaderState::new();
    match streaming_reader_line(&mut st, "{\"id\":\"s1\",\"chunk\":\"a\"}") {
        Some(StreamIncoming::Chunk(id, f)) => {
            assert_eq!(id, "s1");
            assert_eq!(f, StreamFrame { chunk: Some(s("a")), result: None, error: None });
        }
        _ => panic!("expected a chunk"),
    }
    match streaming_reader_line(&mut st, "{\"id\":\"s1\",\"result\":{}}") {
        Some(StreamIncoming::Terminal(id, result, error)) => {
            assert_eq!(id, "s1");
            assert_eq!(result, Some(obj(vec![])));
            assert_eq!(error, None);
        }
        _ => panic!("expected a final frame"),
    }
    assert!(streaming_reader_line(&mut st, "\t").is_none());
    assert!(!st.ready_sent);
}

#[test]
fn async_reader_reads_raw_lines() {
    let mut st = ReaderState::new();
    assert!(async_reader_line(&mut st, "garbage").is_none());
    match async_reader_line(&mut st, "{\"id\":\"s\",\"chunk\":3}") {
        Some(AsyncIncoming::Chunk(id, c)) => {
            assert_eq!(id, "s");
            assert_eq!(c, num(3));
        }
        _ => panic!("expected a chunk"),
    }
    match async_reader_line(&mut st, "{\"id\":\"s\",\"error\":{\"message\":5,\"code\":-7}}") {
        Some(AsyncIncoming::Terminal(id, result, error)) => {
            assert_eq!(id, "s");
            assert_eq!(result, None);
            assert_eq!(
                error,
                Some(AsyncRpcError { code: Some(-7), message: "unknown error".to_string(), traceback: None, backtrace: None })
            );
        }
        _ => panic!("expected a final frame"),
    }
}

#[test]
fn sidecar_reads_raw_lines() {
    assert!(matches!(sidecar_line("  \r\n", 9), SidecarTurn::Skip));
    match sidecar_line("{bad", 9) {
        SidecarTurn::Reply(line) => {
            let (display, debug) = parse_json_text("{bad").unwrap_err();
            assert_eq!(line, parse_error_line(&display, &debug));
            assert_eq!(line, json_line(&parse_error_frame(&display, &debug)));
            assert!(line.starts_with("{\"error\":{\"message\":\"JSON parse error: key must be a string"), "{line}");
            assert!(line.ends_with(",\"id\":null}\n"), "{line}");
        }
        _ => panic!("expected a parse error answer"),
    }
    match sidecar_line("{\"id\":\"p\",\"method\":\"__ping__\"}", 9) {
        SidecarTurn::Planned(Plan::Reply(req, line)) => {
            assert_eq!(req.id, "p");
            assert_eq!(line, response_frame("p", pong(9)));
        }
        _ => panic!("expected the pong"),
    }
    match sidecar_line(" {\"id\":\"r\",\"method\":\"add\",\"params\":{\"a\":1}} ", 9) {
        SidecarTurn::Planned(Plan::Dispatch(req)) => {
            assert_eq!(req.id, "r");
            assert_eq!(req.method, "add");
            assert_eq!(req.params, obj(vec![("a", num(1))]));
            assert_eq!(req.traceparent, "");
        }
        _ => panic!("expected a dispatch"),
    }
}

#[test]
fn async_stream_receives_its_chunks_then_its_error_then_nothing() {
    let mut calls: PendingTable<u32> = PendingTable::new();
    let mut streams: PendingTable<u32> = PendingTable::new();
    streams.insert("s".to_string(), 1);
    calls.insert("c".to_string(), 2);
    let lines = [
        "{\"ready\":true}",
        "{\"id\":\"s\",\"chunk\":\"a\"}",
        "{\"id\":\"t\",\"chunk\":\"x\"}",
        "",
        "{\"id\":\"s\",\"chunk\":\"b\"}",
        "{\"id\":\"c\",\"result\":7}",
        "{\"id\":\"s\",\"error\":{\"message\":\"boom\"}}",
        "{\"id\":\"s\",\"chunk\":\"late\"}",
    ];
    let mut st = ReaderState::new();
    let mut items: Vec<Result<Json, AsyncRpcError>> = Vec::new();
    let mut closed = false;
    let mut call_outcome = None;
    for raw in lines {
        match async_reader_line(&mut st, raw) {
            Some(AsyncIncoming::Chunk(id, c)) => {
                if id == "s" && streams.get(&id).is_some() {
                    items.push(Ok(c));
                }
            }
            Some(AsyncIncoming::Terminal(id, result, error)) => match route_async_terminal(&mut calls, &mut streams, id, result, error) {
                AsyncRoute::StreamEnd(1, e) => {
                    if let Some(e) = e {
                        items.push(Err(e));
                    }
                    closed = true;
                }
                AsyncRoute::CallDone(2, o) => call_outcome = Some(o),
                _ => panic!("unexpected route"),
            },
            _ => {}
        }
    }
    assert!(closed);
    assert_eq!(
        items,
        vec![
            Ok(s("a")),
            Ok(s("b")),
            Err(AsyncRpcError { code: None, message: "boom".to_string(), traceback: None, backtrace: None }),
        ]
    );
    assert_eq!(call_outcome, Some(Ok(num(7))));
    assert!(!streams.contains(&"s".to_string()));
}

#[test]
fn values_are_written_as_serde_json_writes_them() {
    assert_eq!(json_text(&obj(vec![("ready", Json::Bool(true))])), "{\"ready\":true}");
    assert_eq!(json_text(&obj(vec![("b", num(1)), ("a", Json::Null)])), "{\"a\":null,\"b\":1}");
    assert_eq!(
        json_text(&Json::Array(vec![
            Json::Number(JsonNumber::NegInt(-3)),
            Json::Number(JsonNumber::Float("1.5".to_string())),
            Json::Number(JsonNumber::Float("2.50".to_string())),
            s("q\"\n"),
        ])),
        "[-3,1.5,2.5,\"q\\\"\\n\"]"
    );
    assert_eq!(json_line(&Json::Null), "null\n");
    let v = obj(vec![("x", Json::Array(vec![num(1), s("two")])), ("y", obj(vec![]))]);
    assert_eq!(parse_json_text(&json_text(&v)).unwrap(), v);
}

#[test]
fn protocol_lines_text() {
    assert_eq!(ready_line(), "{\"ready\":true}\n");
    assert_eq!(
        ready_line_with_methods(&vec!["__ping__".to_string(), "add".to_string()]),
        "{\"methods\":[\"__ping__\",\"add\"],\"ready\":true}\n"
    );
    assert_eq!(response_line("c1", obj(vec![("sum", num(42))])), "{\"id\":\"c1\",\"result\":{\"sum\":42}}\n");
    assert_eq!(error_line("c2", "boom", "tb"), "{\"error\":{\"message\":\"boom\",\"traceback\":\"tb\"},\"id\":\"c2\"}\n");
    assert_eq!(chunk_line("s", s("a")), "{\"chunk\":\"a\",\"id\":\"s\"}\n");
    assert_eq!(stream_end_line("s"), "{\"id\":\"s\",\"result\":{}}\n");
    assert_eq!(
        request_line("r1", "add", obj(vec![("a", num(1))]), true),
        "{\"id\":\"r1\",\"method\":\"add\",\"params\":{\"a\":1},\"stream\":true}\n"
    );
    assert_eq!(parse_error_line("e", "d"), "{\"error\":{\"message\":\"JSON parse error: e\",\"traceback\":\"d\"},\"id\":null}\n");
}

#[test]
fn turn_lines() {
    let ping = obj(vec![("id", s("p")), ("method", s("__ping__"))]);
    let plan = plan_request(&ping, 12);
    assert_eq!(turn_line(&plan, None), "{\"id\":\"p\",\"result\":{\"pid\":12,\"pong\":true}}\n");
    let add = obj(vec![("id", s("r")), ("method", s("add"))]);
    let plan = plan_request(&add, 12);
    assert_eq!(turn_line(&plan, Some(Ok(num(5)))), "{\"id\":\"r\",\"result\":5}\n");
    assert_eq!(turn_line(&plan, Some(Err("bad".to_string()))), "{\"error\":{\"message\":\"bad\",\"traceback\":\"\"},\"id\":\"r\"}\n");
}
