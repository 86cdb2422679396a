use lirpc::error::{EnvelopeError, LiRpcError};
use lirpc::json::{find_field, Json, JsonNumber};
use lirpc::lirpc_message::{
    LiRpcCall, LiRpcMessage, LiRpcMessageHeaders, LiRpcResponse, LiRpcResponseHeaders,
    LiRpcResponseResult, RawLiRpcMessagePayload,
};

fn text(s: &str) -> Json {
    Json::Str(s.to_string())
}

fn uint(n: u64) -> Json {
    Json::Number(JsonNumber::UInt(n))
}

fn obj(members: Vec<(&str, Json)>) -> Json {
    Json::Object(members.into_iter().map(|(k, v)| (k.to_string(), v)).collect())
}

fn call_frame(id: Json, method: Json, payload: Option<Json>) -> Json {
    let mut members = vec![
        ("type", text("function_call")),
        ("headers", obj(vec![("id", id), ("method", method)])),
    ];
    if let Some(p) = payload {
        members.push(("payload", p));
    }
    obj(members)
}

#[test]
fn parses_function_call() {
    let frame = call_frame(uint(1), text("greet"), Some(obj(vec![("name", text("Ada"))])));
    let call = LiRpcCall::from_json(frame).unwrap();
    assert_eq!(
        call,
        LiRpcCall::FunctionCall(LiRpcMessage {
            headers: LiRpcMessageHeaders { id: 1, method: "greet".to_string() },
            payload: Some(RawLiRpcMessagePayload::Json(obj(vec![("name", text("Ada"))]))),
        })
    );
}

#[test]
fn parses_function_call_with_members_in_any_order() {
    let frame = obj(vec![
        ("payload", uint(7)),
        ("headers", obj(vec![("method", text("m")), ("id", uint(9))])),
        ("type", text("function_call")),
    ]);
    let call = LiRpcCall::from_json(frame).unwrap();
    assert_eq!(
        call,
        LiRpcCall::FunctionCall(LiRpcMessage {
            headers: LiRpcMessageHeaders { id: 9, method: "m".to_string() },
            payload: Some(RawLiRpcMessagePayload::Json(uint(7))),
        })
    );
}

#[test]
fn absent_payload_is_none_and_null_payload_is_null() {
    let absent = LiRpcCall::from_json(call_frame(uint(1), text("a"), None)).unwrap();
    let null = LiRpcCall::from_json(call_frame(uint(1), text("a"), Some(Json::Null))).unwrap();
    let headers = || LiRpcMessageHeaders { id: 1, method: "a".to_string() };
    assert_eq!(
        absent,
        LiRpcCall::FunctionCall(LiRpcMessage { headers: headers(), payload: None })
    );
    assert_eq!(
        null,
        LiRpcCall::FunctionCall(LiRpcMessage {
            headers: headers(),
            payload: Some(RawLiRpcMessagePayload::Json(Json::Null)),
        })
    );
}

#[test]
fn parses_close_stream() {
    let frame = obj(vec![("type", text("close_stream")), ("stream_id", uint(2))]);
    assert_eq!(LiRpcCall::from_json(frame), Ok(LiRpcCall::CloseStream { stream_id: 2 }));
}

#[test]
fn accepts_non_negative_signed_id() {
    let frame = call_frame(Json::Number(JsonNumber::Int(5)), text("a"), None);
    match LiRpcCall::from_json(frame).unwrap() {
        LiRpcCall::FunctionCall(m) => assert_eq!(m.headers.id, 5),
        other => panic!("unexpected {:?}", other),
    }
}

#[test]
fn largest_id_is_accepted_and_one_more_is_not() {
    let ok = call_frame(uint(u32::MAX as u64), text("a"), None);
    match LiRpcCall::from_json(ok).unwrap() {
        LiRpcCall::FunctionCall(m) => assert_eq!(m.headers.id, u32::MAX),
        other => panic!("unexpected {:?}", other),
    }
    let too_big = call_frame(uint(u32::MAX as u64 + 1), text("a"), None);
    assert_eq!(LiRpcCall::from_json(too_big), Err(EnvelopeError::InvalidId));
}

#[test]
fn each_envelope_error() {
    assert_eq!(LiRpcCall::from_json(text("x")), Err(EnvelopeError::NotAnObject));
    assert_eq!(
        LiRpcCall::from_json(obj(vec![("type", text("stream_output"))])),
        Err(EnvelopeError::UnknownKind)
    );
    assert_eq!(LiRpcCall::from_json(obj(vec![])), Err(EnvelopeError::UnknownKind));
    assert_eq!(
        LiRpcCall::from_json(obj(vec![("type", text("function_call"))])),
        Err(EnvelopeError::MissingHeaders)
    );
    assert_eq!(
        LiRpcCall::from_json(call_frame(Json::Number(JsonNumber::Int(-1)), text("a"), None)),
        Err(EnvelopeError::InvalidId)
    );
    assert_eq!(
        LiRpcCall::from_json(call_frame(
            Json::Number(JsonNumber::Float("1.5".to_string())),
            text("a"),
            None
        )),
        Err(EnvelopeError::InvalidId)
    );
    assert_eq!(
        LiRpcCall::from_json(call_frame(uint(1), uint(3), None)),
        Err(EnvelopeError::InvalidMethod)
    );
    assert_eq!(
        LiRpcCall::from_json(obj(vec![("type", text("close_stream")), ("stream_id", text("2"))])),
        Err(EnvelopeError::InvalidStreamId)
    );
    let bad_result = obj(vec![
        ("type", text("stream_output")),
        ("headers", obj(vec![("id", uint(1)), ("result", text("maybe"))])),
    ]);
    assert_eq!(LiRpcResponse::from_json(bad_result), Err(EnvelopeError::InvalidResult));
}

#[test]
fn later_duplicate_member_wins() {
    let members = vec![
        ("id".to_string(), uint(1)),
        ("id".to_string(), uint(2)),
        ("x".to_string(), Json::Null),
    ];
    assert_eq!(find_field(&members, &"id".to_string()), Some(1));
    assert_eq!(find_field(&members, &"y".to_string()), None);
}

#[test]
fn response_wire_form() {
    let r = LiRpcResponse {
        headers: LiRpcResponseHeaders { id: 1, result: LiRpcResponseResult::Success },
        payload: Some(RawLiRpcMessagePayload::Json(obj(vec![("msg", text("Hello Ada!"))]))),
    };
    assert_eq!(
        r.into_json(),
        obj(vec![
            ("type", text("stream_output")),
            ("headers", obj(vec![("id", uint(1)), ("result", text("ok"))])),
            ("payload", obj(vec![("msg", text("Hello Ada!"))])),
        ])
    );
    let e = LiRpcResponse {
        headers: LiRpcResponseHeaders { id: 4, result: LiRpcResponseResult::Failure },
        payload: None,
    };
    assert_eq!(
        e.into_json(),
        obj(vec![
            ("type", text("stream_output")),
            ("headers", obj(vec![("id", uint(4)), ("result", text("err"))])),
        ])
    );
}

#[test]
fn response_round_trip() {
    for (id, result, payload) in [
        (0u32, LiRpcResponseResult::Success, Some(Json::Array(vec![uint(1), Json::Bool(true)]))),
        (u32::MAX, LiRpcResponseResult::Failure, Some(text("boom"))),
        (7, LiRpcResponseResult::Success, None),
    ] {
        let make = |p: &Option<Json>| LiRpcResponse {
            headers: LiRpcResponseHeaders { id, result },
            payload: p.as_ref().map(|j| RawLiRpcMessagePayload::Json(copy(j))),
        };
        let original = make(&payload);
        let back = LiRpcResponse::from_json(make(&payload).into_json()).unwrap();
        assert_eq!(back, original);
    }
}

#[test]
fn call_round_trip() {
    let make = || LiRpcMessage {
        headers: LiRpcMessageHeaders { id: 42, method: "sum".to_string() },
        payload: Some(RawLiRpcMessagePayload::Json(obj(vec![
            ("a", Json::Number(JsonNumber::Int(-3))),
            ("b", Json::Number(JsonNumber::Float("2.5".to_string()))),
        ]))),
    };
    let back = LiRpcCall::from_json(make().into_json()).unwrap();
    assert_eq!(back, LiRpcCall::FunctionCall(make()));
    let close = LiRpcCall::from_json(LiRpcCall::close_stream_json(11)).unwrap();
    assert_eq!(close, LiRpcCall::CloseStream { stream_id: 11 });
}

#[test]
fn null_payload_round_trips() {
    let r = LiRpcResponse {
        headers: LiRpcResponseHeaders { id: 1, result: LiRpcResponseResult::Success },
        payload: Some(RawLiRpcMessagePayload::Json(Json::Null)),
    };
    let back = LiRpcResponse::from_json(r.into_json()).unwrap();
    assert_eq!(back.payload, Some(RawLiRpcMessagePayload::Json(Json::Null)));
    let make = || LiRpcMessage {
        headers: LiRpcMessageHeaders { id: 3, method: "m".to_string() },
        payload: Some(RawLiRpcMessagePayload::Json(Json::Null)),
    };
    assert_eq!(LiRpcCall::from_json(make().into_json()), Ok(LiRpcCall::FunctionCall(make())));
}

#[test]
fn error_payloads() {
    assert_eq!(LiRpcError::ExtractorError(uint(3)).into_payload(), uint(3));
    assert_eq!(LiRpcError::HandlerError(text("bad")).into_payload(), text("bad"));
    assert_eq!(
        LiRpcError::HandlerNotFound("noop".to_string()).into_payload(),
        obj(vec![("error", text("handler_not_found")), ("method", text("noop"))])
    );
    assert_eq!(LiRpcError::StreamClosed.into_payload(), text("stream_closed"));
    assert_eq!(LiRpcError::SendError.into_payload(), text("send_error"));
    assert_eq!(
        LiRpcError::DeserializeError("eof".to_string()).into_payload(),
        text("deserialize_error")
    );
    assert_eq!(
        LiRpcError::InvalidEnvelope(EnvelopeError::NotAnObject).into_payload(),
        text("invalid_envelope")
    );
    assert_eq!(
        LiRpcError::UnableToParseWebsocketMessage.into_payload(),
        text("not_a_text_frame")
    );
    assert_eq!(LiRpcError::IoError("reset".to_string()).into_payload(), text("io_error"));
    assert!(LiRpcError::StreamClosed.is_stream_closed());
    assert!(!LiRpcError::SendError.is_stream_closed());
}

fn copy(j: &Json) -> Json {
    match j {
        Json::Null => Json::Null,
        Json::Bool(b) => Json::Bool(*b),
        Json::Number(JsonNumber::UInt(u)) => Json::Number(JsonNumber::UInt(*u)),
        Json::Number(JsonNumber::Int(i)) => Json::Number(JsonNumber::Int(*i)),
        Json::Number(JsonNumber::Float(t)) => Json::Number(JsonNumber::Float(t.clone())),
        Json::Str(s) => Json::Str(s.clone()),
        Json::Array(v) => Json::Array(v.iter().map(copy).collect()),
        Json::Object(m) => Json::Object(m.iter().map(|(k, v)| (k.clone(), copy(v))).collect()),
    }
}
