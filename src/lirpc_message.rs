//! The envelopes that travel over the wire, and their JSON form.
//!
//! Inbound: `{"type":"function_call","headers":{"id":..,"method":..},"payload":..}`
//! or `{"type":"close_stream","stream_id":..}`.
//! Outbound: `{"type":"stream_output","headers":{"id":..,"result":"ok"|"err"},"payload":..}`.
//! A missing `payload` member is no payload; a present one, `null` included, is
//! the payload.
use crate::error::EnvelopeError;
use crate::json::{field_of, field_u32, find_field, member_u32, Json, JsonNumber};
use vstd::prelude::*;

verus! {

/// The body of a call or of a reply.
#[derive(Debug, PartialEq)]
pub enum RawLiRpcMessagePayload {
    Json(Json),
}

#[derive(Debug, PartialEq)]
pub struct LiRpcMessageHeaders {
    pub id: u32,
    pub method: String,
}

/// A call of a method, as the client sent it.
#[derive(Debug, PartialEq)]
pub struct LiRpcMessage {
    pub headers: LiRpcMessageHeaders,
    pub payload: Option<RawLiRpcMessagePayload>,
}

#[derive(Debug, Clone, Copy, PartialEq, Eq, Structural)]
pub enum LiRpcResponseResult {
    Success,
    Failure,
}

#[derive(Debug, Clone, Copy, PartialEq, Eq, Structural)]
pub struct LiRpcResponseHeaders {
    pub id: u32,
    pub result: LiRpcResponseResult,
}

/// One reply, or one element of a stream, correlated to its call by `id`.
#[derive(Debug, PartialEq)]
pub struct LiRpcResponse {
    pub headers: LiRpcResponseHeaders,
    pub payload: Option<RawLiRpcMessagePayload>,
}

/// What an inbound frame asks for.
#[derive(Debug, PartialEq)]
pub enum LiRpcCall {
    FunctionCall(LiRpcMessage),
    CloseStream { stream_id: u32 },
}

/// The payload that an optional `payload` member stands for.
pub open spec fn payload_of(field: Option<Json>) -> Option<RawLiRpcMessagePayload> {
    match field {
        Some(v) => Some(RawLiRpcMessagePayload::Json(v)),
        None => None,
    }
}

/// `j` is a string with the characters `text`.
pub open spec fn is_text(j: Json, text: Seq<char>) -> bool {
    j matches Json::Str(s) && s@ == text
}

/// An optional member holds the string `text`.
pub open spec fn field_is_text(field: Option<Json>, text: Seq<char>) -> bool {
    field matches Some(j) && is_text(j, text)
}

pub open spec fn result_text(r: LiRpcResponseResult) -> Seq<char> {
    match r {
        LiRpcResponseResult::Success => "ok"@,
        LiRpcResponseResult::Failure => "err"@,
    }
}

/// The call envelope that `frame` holds, or why it holds none.
pub open spec fn call_of_json(frame: Json) -> Result<LiRpcCall, EnvelopeError> {
    match frame {
        Json::Object(members) => {
            let kind = field_of(members@, "type"@);
            if field_is_text(kind, "function_call"@) {
                match field_of(members@, "headers"@) {
                    Some(Json::Object(h)) => match field_u32(field_of(h@, "id"@)) {
                        None => Err(EnvelopeError::InvalidId),
                        Some(id) => match field_of(h@, "method"@) {
                            Some(Json::Str(method)) => Ok(
                                LiRpcCall::FunctionCall(
                                    LiRpcMessage {
                                        headers: LiRpcMessageHeaders { id, method },
                                        payload: payload_of(field_of(members@, "payload"@)),
                                    },
                                ),
                            ),
                            _ => Err(EnvelopeError::InvalidMethod),
                        },
                    },
                    _ => Err(EnvelopeError::MissingHeaders),
                }
            } else if field_is_text(kind, "close_stream"@) {
                match field_u32(field_of(members@, "stream_id"@)) {
                    Some(stream_id) => Ok(LiRpcCall::CloseStream { stream_id }),
                    None => Err(EnvelopeError::InvalidStreamId),
                }
            } else {
                Err(EnvelopeError::UnknownKind)
            }
        },
        _ => Err(EnvelopeError::NotAnObject),
    }
}

/// The result that an optional `result` member names.
pub open spec fn result_of(field: Option<Json>) -> Option<LiRpcResponseResult> {
    if field_is_text(field, "ok"@) {
        Some(LiRpcResponseResult::Success)
    } else if field_is_text(field, "err"@) {
        Some(LiRpcResponseResult::Failure)
    } else {
        None
    }
}

/// The response envelope that `frame` holds, or why it holds none.
pub open spec fn response_of_json(frame: Json) -> Result<LiRpcResponse, EnvelopeError> {
    match frame {
        Json::Object(members) => if field_is_text(field_of(members@, "type"@), "stream_output"@) {
            match field_of(members@, "headers"@) {
                Some(Json::Object(h)) => match field_u32(field_of(h@, "id"@)) {
                    None => Err(EnvelopeError::InvalidId),
                    Some(id) => match result_of(field_of(h@, "result"@)) {
                        Some(result) => Ok(
                            LiRpcResponse {
                                headers: LiRpcResponseHeaders { id, result },
                                payload: payload_of(field_of(members@, "payload"@)),
                            },
                        ),
                        None => Err(EnvelopeError::InvalidResult),
                    },
                },
                _ => Err(EnvelopeError::MissingHeaders),
            }
        } else {
            Err(EnvelopeError::UnknownKind)
        },
        _ => Err(EnvelopeError::NotAnObject),
    }
}

/// After the first `fixed` members comes the payload member, if there is a payload,
/// and nothing else.
pub open spec fn ends_with_payload(
    members: Seq<(String, Json)>,
    fixed: int,
    payload: Option<RawLiRpcMessagePayload>,
) -> bool {
    match payload {
        None => members.len() == fixed,
        Some(RawLiRpcMessagePayload::Json(p)) => {
            &&& members.len() == fixed + 1
            &&& members[fixed].0@ == "payload"@
            &&& members[fixed].1 == p
        },
    }
}

/// `j` is the wire form of the reply `r`.
pub open spec fn is_response_frame(j: Json, r: LiRpcResponse) -> bool {
    j matches Json::Object(members) && {
        &&& members@.len() >= 2
        &&& members@[0].0@ == "type"@
        &&& is_text(members@[0].1, "stream_output"@)
        &&& members@[1].0@ == "headers"@
        &&& members@[1].1 matches Json::Object(h) && {
            &&& h@.len() == 2
            &&& h@[0].0@ == "id"@
            &&& h@[0].1 == Json::Number(JsonNumber::UInt(r.headers.id as u64))
            &&& h@[1].0@ == "result"@
            &&& is_text(h@[1].1, result_text(r.headers.result))
        }
        &&& ends_with_payload(members@, 2, r.payload)
    }
}

/// `j` is the wire form of the call `m`.
pub open spec fn is_call_frame(j: Json, m: LiRpcMessage) -> bool {
    j matches Json::Object(members) && {
        &&& members@.len() >= 2
        &&& members@[0].0@ == "type"@
        &&& is_text(members@[0].1, "function_call"@)
        &&& members@[1].0@ == "headers"@
        &&& members@[1].1 matches Json::Object(h) && {
            &&& h@.len() == 2
            &&& h@[0].0@ == "id"@
            &&& h@[0].1 == Json::Number(JsonNumber::UInt(m.headers.id as u64))
            &&& h@[1].0@ == "method"@
            &&& h@[1].1 == Json::Str(m.headers.method)
        }
        &&& ends_with_payload(members@, 2, m.payload)
    }
}

/// `j` is the wire form of a request to close stream `stream_id`.
pub open spec fn is_close_stream_frame(j: Json, stream_id: u32) -> bool {
    j matches Json::Object(members) && {
        &&& members@.len() == 2
        &&& members@[0].0@ == "type"@
        &&& is_text(members@[0].1, "close_stream"@)
        &&& members@[1].0@ == "stream_id"@
        &&& members@[1].1 == Json::Number(JsonNumber::UInt(stream_id as u64))
    }
}

/// Whether member `key` of `members` is the string `text`.
fn member_is_text(members: &Vec<(String, Json)>, key: &String, text: &String) -> (r: bool)
    ensures
        r == field_is_text(field_of(members@, key@), text@),
{
    match find_field(members, key) {
        Some(i) => match &members[i].1 {
            Json::Str(s) => *s == *text,
            _ => false,
        },
        None => false,
    }
}

/// Removes the payload member from `members` and hands over the payload it stands for.
fn take_payload(members: &mut Vec<(String, Json)>) -> (r: Option<RawLiRpcMessagePayload>)
    ensures
        r == payload_of(field_of(old(members)@, "payload"@)),
{
    let key = "payload".to_owned();
    match find_field(members, &key) {
        Some(i) => {
            let (_, v) = members.remove(i);
            Some(RawLiRpcMessagePayload::Json(v))
        },
        None => None,
    }
}

/// Adds the payload member, if there is a payload.
fn push_payload(members: &mut Vec<(String, Json)>, payload: Option<RawLiRpcMessagePayload>)
    ensures
        ends_with_payload(final(members)@, old(members)@.len() as int, payload),
        final(members)@.take(old(members)@.len() as int) == old(members)@,
{
    match payload {
        Some(RawLiRpcMessagePayload::Json(p)) => {
            members.push(("payload".to_owned(), p));
        },
        None => {},
    }
    assert(members@.take(old(members)@.len() as int) =~= old(members)@);
}

impl LiRpcCall {
    /// Reads an inbound frame.
    pub fn from_json(frame: Json) -> (r: Result<LiRpcCall, EnvelopeError>)
        ensures
            r == call_of_json(frame),
    {
        match frame {
            Json::Object(mut members) => {
                let type_key = "type".to_owned();
                if member_is_text(&members, &type_key, &"function_call".to_owned()) {
                    let headers_key = "headers".to_owned();
                    let headers = match find_field(&members, &headers_key) {
                        Some(hi) => match &members[hi].1 {
                            Json::Object(h) => match member_u32(h, &"id".to_owned()) {
                                None => Err(EnvelopeError::InvalidId),
                                Some(id) => match find_field(h, &"method".to_owned()) {
                                    Some(mi) => match &h[mi].1 {
                                        Json::Str(method) => Ok(
                                            LiRpcMessageHeaders { id, method: method.clone() },
                                        ),
                                        _ => Err(EnvelopeError::InvalidMethod),
                                    },
                                    None => Err(EnvelopeError::InvalidMethod),
                                },
                            },
                            _ => Err(EnvelopeError::MissingHeaders),
                        },
                        None => Err(EnvelopeError::MissingHeaders),
                    };
                    match headers {
                        Ok(headers) => {
                            let payload = take_payload(&mut members);
                            Ok(LiRpcCall::FunctionCall(LiRpcMessage { headers, payload }))
                        },
                        Err(e) => Err(e),
                    }
                } else if member_is_text(&members, &type_key, &"close_stream".to_owned()) {
                    match member_u32(&members, &"stream_id".to_owned()) {
                        Some(stream_id) => Ok(LiRpcCall::CloseStream { stream_id }),
                        None => Err(EnvelopeError::InvalidStreamId),
                    }
                } else {
                    Err(EnvelopeError::UnknownKind)
                }
            },
            _ => Err(EnvelopeError::NotAnObject),
        }
    }

    /// The wire form of a request to close stream `stream_id`.
    pub fn close_stream_json(stream_id: u32) -> (j: Json)
        ensures
            is_close_stream_frame(j, stream_id),
    {
        let mut members: Vec<(String, Json)> = Vec::new();
        members.push(("type".to_owned(), Json::Str("close_stream".to_owned())));
        members.push(("stream_id".to_owned(), Json::Number(JsonNumber::UInt(stream_id as u64))));
        Json::Object(members)
    }
}

impl LiRpcMessage {
    /// The wire form of this call.
    pub fn into_json(self) -> (j: Json)
        ensures
            is_call_frame(j, self),
    {
        let mut h: Vec<(String, Json)> = Vec::new();
        h.push(("id".to_owned(), Json::Number(JsonNumber::UInt(self.headers.id as u64))));
        h.push(("method".to_owned(), Json::Str(self.headers.method)));
        let mut members: Vec<(String, Json)> = Vec::new();
        members.push(("type".to_owned(), Json::Str("function_call".to_owned())));
        members.push(("headers".to_owned(), Json::Object(h)));
        let ghost before = members@;
        push_payload(&mut members, self.payload);
        assert(members@[0] == before[0] && members@[1] == before[1]) by {
            assert(members@.take(2)[0] == members@[0]);
            assert(members@.take(2)[1] == members@[1]);
        }
        Json::Object(members)
    }
}

impl LiRpcResponse {
    /// The wire form of this reply.
    pub fn into_json(self) -> (j: Json)
        ensures
            is_response_frame(j, self),
    {
        let result = match self.headers.result {
            LiRpcResponseResult::Success => "ok".to_owned(),
            LiRpcResponseResult::Failure => "err".to_owned(),
        };
        let mut h: Vec<(String, Json)> = Vec::new();
        h.push(("id".to_owned(), Json::Number(JsonNumber::UInt(self.headers.id as u64))));
        h.push(("result".to_owned(), Json::Str(result)));
        let mut members: Vec<(String, Json)> = Vec::new();
        members.push(("type".to_owned(), Json::Str("stream_output".to_owned())));
        members.push(("headers".to_owned(), Json::Object(h)));
        let ghost before = members@;
        push_payload(&mut members, self.payload);
        assert(members@[0] == before[0] && members@[1] == before[1]) by {
            assert(members@.take(2)[0] == members@[0]);
            assert(members@.take(2)[1] == members@[1]);
        }
        Json::Object(members)
    }

    /// Reads a reply frame, as a client does.
    pub fn from_json(frame: Json) -> (r: Result<LiRpcResponse, EnvelopeError>)
        ensures
            r == response_of_json(frame),
    {
        match frame {
            Json::Object(mut members) => {
                if member_is_text(&members, &"type".to_owned(), &"stream_output".to_owned()) {
                    let headers = match find_field(&members, &"headers".to_owned()) {
                        Some(hi) => match &members[hi].1 {
                            Json::Object(h) => match member_u32(h, &"id".to_owned()) {
                                None => Err(EnvelopeError::InvalidId),
                                Some(id) => {
                                    let result_key = "result".to_owned();
                                    if member_is_text(h, &result_key, &"ok".to_owned()) {
                                        Ok(
                                            LiRpcResponseHeaders {
                                                id,
                                                result: LiRpcResponseResult::Success,
                                            },
                                        )
                                    } else if member_is_text(h, &result_key, &"err".to_owned()) {
                                        Ok(
                                            LiRpcResponseHeaders {
                                                id,
                                                result: LiRpcResponseResult::Failure,
                                            },
                                        )
                                    } else {
                                        Err(EnvelopeError::InvalidResult)
                                    }
                                },
                            },
                            _ => Err(EnvelopeError::MissingHeaders),
                        },
                        None => Err(EnvelopeError::MissingHeaders),
                    };
                    match headers {
                        Ok(headers) => {
                            let payload = take_payload(&mut members);
                            Ok(LiRpcResponse { headers, payload })
                        },
                        Err(e) => Err(e),
                    }
                } else {
                    Err(EnvelopeError::UnknownKind)
                }
            },
            _ => Err(EnvelopeError::NotAnObject),
        }
    }
}

/// `field_of` on two members, spelled out.
proof fn lemma_field_of_two(s: Seq<(String, Json)>, key: Seq<char>)
    requires
        s.len() == 2,
    ensures
        field_of(s, key) == if s[1].0@ == key {
            Some(s[1].1)
        } else if s[0].0@ == key {
            Some(s[0].1)
        } else {
            None
        },
{
    assert(s.drop_last().last() == s[0]);
    assert(s.drop_last().drop_last().len() == 0);
    reveal_with_fuel(field_of, 3);
}

/// `field_of` on three members, spelled out.
proof fn lemma_field_of_three(s: Seq<(String, Json)>, key: Seq<char>)
    requires
        s.len() == 3,
    ensures
        field_of(s, key) == if s[2].0@ == key {
            Some(s[2].1)
        } else {
            field_of(s.drop_last(), key)
        },
        s.drop_last().len() == 2,
        s.drop_last()[0] == s[0],
        s.drop_last()[1] == s[1],
{
}

/// The member names and tags of the wire format are distinct texts.
proof fn lemma_wire_words()
    ensures
        "type"@.len() == 4,
        "headers"@.len() == 7,
        "payload"@.len() == 7,
        "headers"@ != "payload"@,
        "id"@.len() == 2,
        "result"@.len() == 6,
        "method"@.len() == 6,
        "ok"@.len() == 2,
        "err"@.len() == 3,
        "stream_id"@.len() == 9,
        "function_call"@.len() == 13,
        "close_stream"@.len() == 12,
        "stream_output"@.len() == 13,
{
    reveal_strlit("type");
    reveal_strlit("headers");
    reveal_strlit("payload");
    reveal_strlit("id");
    reveal_strlit("result");
    reveal_strlit("method");
    reveal_strlit("ok");
    reveal_strlit("err");
    reveal_strlit("stream_id");
    reveal_strlit("function_call");
    reveal_strlit("close_stream");
    reveal_strlit("stream_output");
    assert("headers"@[0] != "payload"@[0]);
}

/// The members of a frame whose first two members are `type` and `headers`,
/// followed by the payload member where there is a payload.
proof fn lemma_frame_fields(s: Seq<(String, Json)>, payload: Option<RawLiRpcMessagePayload>)
    requires
        s.len() >= 2,
        s[0].0@ == "type"@,
        s[1].0@ == "headers"@,
        ends_with_payload(s, 2, payload),
    ensures
        field_of(s, "type"@) == Some(s[0].1),
        field_of(s, "headers"@) == Some(s[1].1),
        payload_of(field_of(s, "payload"@)) == payload,
{
    lemma_wire_words();
    if s.len() == 2 {
        lemma_field_of_two(s, "type"@);
        lemma_field_of_two(s, "headers"@);
        lemma_field_of_two(s, "payload"@);
    } else {
        lemma_field_of_three(s, "type"@);
        lemma_field_of_three(s, "headers"@);
        lemma_field_of_three(s, "payload"@);
        lemma_field_of_two(s.drop_last(), "type"@);
        lemma_field_of_two(s.drop_last(), "headers"@);
    }
}

/// Reading back the wire form of a reply gives that reply: the same id, result
/// and payload, whatever JSON value the payload is.
pub proof fn lemma_response_round_trip(j: Json, r: LiRpcResponse)
    requires
        is_response_frame(j, r),
    ensures
        response_of_json(j) == Ok::<LiRpcResponse, EnvelopeError>(r),
{
    lemma_wire_words();
    let s = j->Object_0@;
    let h = s[1].1->Object_0@;
    lemma_frame_fields(s, r.payload);
    lemma_field_of_two(h, "id"@);
    lemma_field_of_two(h, "result"@);
}

/// Reading back the wire form of a call gives that call: the same id, method and
/// payload, whatever JSON value the payload is.
pub proof fn lemma_call_round_trip(j: Json, m: LiRpcMessage)
    requires
        is_call_frame(j, m),
    ensures
        call_of_json(j) == Ok::<LiRpcCall, EnvelopeError>(LiRpcCall::FunctionCall(m)),
{
    lemma_wire_words();
    let s = j->Object_0@;
    let h = s[1].1->Object_0@;
    lemma_frame_fields(s, m.payload);
    lemma_field_of_two(h, "id"@);
    lemma_field_of_two(h, "method"@);
}

/// Reading back the wire form of a request to close a stream gives that request.
pub proof fn lemma_close_stream_round_trip(j: Json, stream_id: u32)
    requires
        is_close_stream_frame(j, stream_id),
    ensures
        call_of_json(j) == Ok::<LiRpcCall, EnvelopeError>(LiRpcCall::CloseStream { stream_id }),
{
    lemma_wire_words();
    let s = j->Object_0@;
    lemma_field_of_two(s, "type"@);
    lemma_field_of_two(s, "stream_id"@);
}

} // verus!
