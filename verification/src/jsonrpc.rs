//! JSON-RPC 2.0 messages as MCP exchanges them, and their JSON form.

use vstd::prelude::*;
use crate::json::{Json, JsonNumber, JsonValue, entries_view, members_get, json_get, distinct_keys, lemma_json_get_ignores_member_order};
use crate::text::owned;

verus! {

/// A JSON-RPC request id: a number or a string.
#[derive(Debug)]
pub enum RequestId {
    Number(i64),
    String(String),
}

/// The mathematical form of a request id.
pub enum Id {
    Num(int),
    Str(Seq<char>),
}

impl View for RequestId {
    type V = Id;

    open spec fn view(&self) -> Id {
        match self {
            RequestId::Number(n) => Id::Num(*n as int),
            RequestId::String(s) => Id::Str(s@),
        }
    }
}

/// A request: a method call that expects a response with the same id.
#[derive(Debug)]
pub struct JSONRPCRequest {
    pub jsonrpc: String,
    pub id: RequestId,
    pub method: String,
    pub params: Option<JsonValue>,
}

/// A notification: a method call without id, which gets no response.
#[derive(Debug)]
pub struct JSONRPCNotification {
    pub jsonrpc: String,
    pub method: String,
    pub params: Option<JsonValue>,
}

/// A successful response to the request with the same id.
#[derive(Debug)]
pub struct JSONRPCResponse {
    pub jsonrpc: String,
    pub id: RequestId,
    pub result: JsonValue,
}

/// The error carried by an error response.
#[derive(Debug)]
pub struct JSONRPCErrorObject {
    pub code: i32,
    pub message: String,
    pub data: Option<JsonValue>,
}

/// An error response to the request with the same id.
#[derive(Debug)]
pub struct JSONRPCError {
    pub jsonrpc: String,
    pub id: RequestId,
    pub error: JSONRPCErrorObject,
}

/// Any JSON-RPC message.
#[derive(Debug)]
pub enum JSONRPCMessage {
    Request(JSONRPCRequest),
    Notification(JSONRPCNotification),
    Response(JSONRPCResponse),
    Error(JSONRPCError),
}

/// The mathematical form of a JSON-RPC message.
pub enum Message {
    Request { jsonrpc: Seq<char>, id: Id, method: Seq<char>, params: Option<Json> },
    Notification { jsonrpc: Seq<char>, method: Seq<char>, params: Option<Json> },
    Response { jsonrpc: Seq<char>, id: Id, result: Json },
    Error { jsonrpc: Seq<char>, id: Id, code: int, message: Seq<char>, data: Option<Json> },
}

/// The mathematical form of an optional JSON value.
pub open spec fn opt_view(o: Option<JsonValue>) -> Option<Json> {
    match o {
        Some(v) => Some(v@),
        None => None,
    }
}

impl View for JSONRPCMessage {
    type V = Message;

    open spec fn view(&self) -> Message {
        match self {
            JSONRPCMessage::Request(r) => Message::Request {
                jsonrpc: r.jsonrpc@,
                id: r.id@,
                method: r.method@,
                params: opt_view(r.params),
            },
            JSONRPCMessage::Notification(n) => Message::Notification {
                jsonrpc: n.jsonrpc@,
                method: n.method@,
                params: opt_view(n.params),
            },
            JSONRPCMessage::Response(r) => Message::Response {
                jsonrpc: r.jsonrpc@,
                id: r.id@,
                result: r.result@,
            },
            JSONRPCMessage::Error(e) => Message::Error {
                jsonrpc: e.jsonrpc@,
                id: e.id@,
                code: e.error.code as int,
                message: e.error.message@,
                data: opt_view(e.error.data),
            },
        }
    }
}

// ---------------------------------------------------------------------------
// The JSON form of a message
// ---------------------------------------------------------------------------

/// The JSON form of a request id.
pub open spec fn id_json(id: Id) -> Json {
    match id {
        Id::Num(n) => Json::Int(n),
        Id::Str(s) => Json::Str(s),
    }
}

/// An object member that is there only when the value is.
pub open spec fn opt_member(key: Seq<char>, o: Option<Json>) -> Seq<(Seq<char>, Json)> {
    match o {
        Some(j) => seq![(key, j)],
        None => seq![],
    }
}

/// The JSON form of a message: an object with the members `jsonrpc`, then
/// `id` where the message has one, then `method` and `params` (when
/// present), `result`, or `error` (with `code`, `message` and, when present,
/// `data`).
pub open spec fn message_json(m: Message) -> Json {
    match m {
        Message::Request { jsonrpc, id, method, params } => Json::Object(
            seq![("jsonrpc"@, Json::Str(jsonrpc)), ("id"@, id_json(id)), ("method"@, Json::Str(method))]
                + opt_member("params"@, params),
        ),
        Message::Notification { jsonrpc, method, params } => Json::Object(
            seq![("jsonrpc"@, Json::Str(jsonrpc)), ("method"@, Json::Str(method))] + opt_member(
                "params"@,
                params,
            ),
        ),
        Message::Response { jsonrpc, id, result } => Json::Object(
            seq![("jsonrpc"@, Json::Str(jsonrpc)), ("id"@, id_json(id)), ("result"@, result)],
        ),
        Message::Error { jsonrpc, id, code, message, data } => Json::Object(
            seq![
                ("jsonrpc"@, Json::Str(jsonrpc)),
                ("id"@, id_json(id)),
                ("error"@, Json::Object(
                    seq![("code"@, Json::Int(code)), ("message"@, Json::Str(message))]
                        + opt_member("data"@, data),
                )),
            ],
        ),
    }
}

/// Appends a member to the members of an object under construction.
pub fn push_member(obj: &mut Vec<(String, JsonValue)>, key: &str, value: JsonValue)
    ensures
        entries_view(final(obj)@) == entries_view(old(obj)@).push((key@, value@)),
{
    let ghost prev = obj@;
    obj.push((owned(key), value));
    assert(obj@.drop_last() =~= prev);
}

/// Appends a member to an object under construction when the value is there.
pub fn push_opt_member(obj: &mut Vec<(String, JsonValue)>, key: &str, value: Option<JsonValue>)
    ensures
        entries_view(final(obj)@) == entries_view(old(obj)@) + opt_member(key@, opt_view(value)),
{
    match value {
        Some(v) => {
            push_member(obj, key, v);
            assert(entries_view(obj@) =~= entries_view(old(obj)@) + opt_member(
                key@,
                opt_view(value),
            ));
        },
        None => {
            assert(entries_view(obj@) =~= entries_view(old(obj)@) + opt_member(
                key@,
                opt_view(value),
            ));
        },
    }
}

impl RequestId {
    /// The JSON form of the id.
    pub fn to_json(&self) -> (res: JsonValue)
        ensures
            res@ == id_json(self@),
    {
        match self {
            RequestId::Number(n) => JsonValue::Number(JsonNumber::Int(*n)),
            RequestId::String(s) => JsonValue::String(s.clone()),
        }
    }

    /// A copy of the id.
    pub fn copy(&self) -> (res: RequestId)
        ensures
            res@ == self@,
    {
        match self {
            RequestId::Number(n) => RequestId::Number(*n),
            RequestId::String(s) => RequestId::String(s.clone()),
        }
    }
}

impl JSONRPCMessage {
    /// The JSON form of the message.
    pub fn to_json(&self) -> (res: JsonValue)
        ensures
            res@ == message_json(self@),
    {
        let mut obj: Vec<(String, JsonValue)> = Vec::new();
        match self {
            JSONRPCMessage::Request(r) => {
                push_member(&mut obj, "jsonrpc", JsonValue::String(r.jsonrpc.clone()));
                push_member(&mut obj, "id", r.id.to_json());
                push_member(&mut obj, "method", JsonValue::String(r.method.clone()));
                let p = match &r.params {
                    Some(p) => Some(p.deep_clone()),
                    None => None,
                };
                push_opt_member(&mut obj, "params", p);
            },
            JSONRPCMessage::Notification(n) => {
                push_member(&mut obj, "jsonrpc", JsonValue::String(n.jsonrpc.clone()));
                push_member(&mut obj, "method", JsonValue::String(n.method.clone()));
                let p = match &n.params {
                    Some(p) => Some(p.deep_clone()),
                    None => None,
                };
                push_opt_member(&mut obj, "params", p);
            },
            JSONRPCMessage::Response(r) => {
                push_member(&mut obj, "jsonrpc", JsonValue::String(r.jsonrpc.clone()));
                push_member(&mut obj, "id", r.id.to_json());
                push_member(&mut obj, "result", r.result.deep_clone());
            },
            JSONRPCMessage::Error(e) => {
                push_member(&mut obj, "jsonrpc", JsonValue::String(e.jsonrpc.clone()));
                push_member(&mut obj, "id", e.id.to_json());
                let mut err: Vec<(String, JsonValue)> = Vec::new();
                push_member(
                    &mut err,
                    "code",
                    JsonValue::Number(JsonNumber::Int(e.error.code as i64)),
                );
                push_member(&mut err, "message", JsonValue::String(e.error.message.clone()));
                let d = match &e.error.data {
                    Some(d) => Some(d.deep_clone()),
                    None => None,
                };
                push_opt_member(&mut err, "data", d);
                proof {
                    assert(entries_view(err@) =~= seq![
                        ("code"@, Json::Int(e.error.code as int)),
                        ("message"@, Json::Str(e.error.message@)),
                    ] + opt_member("data"@, opt_view(e.error.data)));
                }
                push_member(&mut obj, "error", JsonValue::Object(err));
            },
        }
        let res = JsonValue::Object(obj);
        proof {
            match self@ {
                Message::Request { jsonrpc, id, method, params } => {
                    assert(entries_view(obj@) =~= seq![("jsonrpc"@, Json::Str(jsonrpc)), ("id"@, id_json(id)), ("method"@, Json::Str(method))]
                        + opt_member("params"@, params));
                },
                Message::Notification { jsonrpc, method, params } => {
                    assert(entries_view(obj@) =~= seq![("jsonrpc"@, Json::Str(jsonrpc)), ("method"@, Json::Str(method))]
                        + opt_member("params"@, params));
                },
                Message::Response { jsonrpc, id, result } => {
                    assert(entries_view(obj@) =~= seq![("jsonrpc"@, Json::Str(jsonrpc)), ("id"@, id_json(id)), ("result"@, result)]);
                },
                Message::Error { jsonrpc, id, code, message, data } => {
                    assert(entries_view(obj@) =~= seq![
                        ("jsonrpc"@, Json::Str(jsonrpc)),
                        ("id"@, id_json(id)),
                        ("error"@, Json::Object(
                            seq![("code"@, Json::Int(code)), ("message"@, Json::Str(message))]
                                + opt_member("data"@, data),
                        )),
                    ]);
                },
            }
        }
        assert(res@ =~= message_json(self@));
        res
    }
}

// ---------------------------------------------------------------------------
// Reading a message from its JSON form
// ---------------------------------------------------------------------------

/// A request id read from JSON: an integer in the range of `i64`, or a string.
pub open spec fn decode_id(j: Json) -> Option<Id> {
    match j {
        Json::Int(n) => if i64::MIN <= n <= i64::MAX {
            Some(Id::Num(n))
        } else {
            None
        },
        Json::Str(s) => Some(Id::Str(s)),
        _ => None,
    }
}

/// An optional member: absent and `null` both read as `None`.
pub open spec fn opt_field(j: Json, key: Seq<char>) -> Option<Json> {
    match json_get(j, key) {
        Some(Json::Null) => None,
        o => o,
    }
}

/// A string member, if the member is there and a string.
pub open spec fn str_field(j: Json, key: Seq<char>) -> Option<Seq<char>> {
    match json_get(j, key) {
        Some(Json::Str(s)) => Some(s),
        _ => None,
    }
}

/// An id member, if the member is there and an id.
pub open spec fn id_field(j: Json, key: Seq<char>) -> Option<Id> {
    match json_get(j, key) {
        Some(v) => decode_id(v),
        None => None,
    }
}

/// The error object of an error response: an object with an integer `code`
/// in the range of `i32` and a string `message`; `data` optional.
pub open spec fn decode_error_object(j: Json) -> Option<(int, Seq<char>, Option<Json>)> {
    match (json_get(j, "code"@), str_field(j, "message"@)) {
        (Some(Json::Int(c)), Some(m)) => if i32::MIN <= c <= i32::MAX {
            Some((c, m, opt_field(j, "data"@)))
        } else {
            None
        },
        _ => None,
    }
}

/// A JSON value read as a message. The readings are tried in this order, and
/// the first that fits is taken: a request (string `jsonrpc`, an id, string
/// `method`), a notification (string `jsonrpc` and `method`), a response
/// (string `jsonrpc`, an id, any `result`), an error response (string
/// `jsonrpc`, an id, an error object). Other members are ignored.
pub open spec fn decode_message(j: Json) -> Option<Message> {
    let jsonrpc = str_field(j, "jsonrpc"@);
    let id = id_field(j, "id"@);
    let method = str_field(j, "method"@);
    if jsonrpc is Some && id is Some && method is Some {
        Some(
            Message::Request {
                jsonrpc: jsonrpc->0,
                id: id->0,
                method: method->0,
                params: opt_field(j, "params"@),
            },
        )
    } else if jsonrpc is Some && method is Some {
        Some(
            Message::Notification {
                jsonrpc: jsonrpc->0,
                method: method->0,
                params: opt_field(j, "params"@),
            },
        )
    } else if jsonrpc is Some && id is Some && json_get(j, "result"@) is Some {
        Some(
            Message::Response {
                jsonrpc: jsonrpc->0,
                id: id->0,
                result: json_get(j, "result"@)->0,
            },
        )
    } else if jsonrpc is Some && id is Some && json_get(j, "error"@) is Some
        && decode_error_object(json_get(j, "error"@)->0) is Some {
        let e = decode_error_object(json_get(j, "error"@)->0)->0;
        Some(
            Message::Error { jsonrpc: jsonrpc->0, id: id->0, code: e.0, message: e.1, data: e.2 },
        )
    } else {
        None
    }
}

fn read_str_field(v: &JsonValue, key: &str) -> (res: Option<String>)
    ensures
        match str_field(v@, key@) {
            Some(s) => res is Some && res->0@ == s,
            None => res is None,
        },
{
    match v.get(key) {
        Some(f) => match f.as_str() {
            Some(s) => Some(s.clone()),
            None => None,
        },
        None => None,
    }
}

fn read_id(v: &JsonValue) -> (res: Option<RequestId>)
    ensures
        match decode_id(v@) {
            Some(id) => res is Some && res->0@ == id,
            None => res is None,
        },
{
    match v {
        JsonValue::Number(JsonNumber::Int(n)) => Some(RequestId::Number(*n)),
        JsonValue::Number(JsonNumber::UInt(u)) => if *u <= 9223372036854775807u64 {
            Some(RequestId::Number(*u as i64))
        } else {
            None
        },
        JsonValue::String(s) => Some(RequestId::String(s.clone())),
        _ => None,
    }
}

fn read_id_field(v: &JsonValue, key: &str) -> (res: Option<RequestId>)
    ensures
        match id_field(v@, key@) {
            Some(id) => res is Some && res->0@ == id,
            None => res is None,
        },
{
    match v.get(key) {
        Some(f) => read_id(f),
        None => None,
    }
}

fn read_opt_field(v: &JsonValue, key: &str) -> (res: Option<JsonValue>)
    ensures
        opt_view(res) == opt_field(v@, key@),
{
    match v.get(key) {
        Some(f) => if f.is_null() {
            None
        } else {
            Some(f.deep_clone())
        },
        None => None,
    }
}

fn read_error_object(v: &JsonValue) -> (res: Option<JSONRPCErrorObject>)
    ensures
        match decode_error_object(v@) {
            Some(e) => res is Some && res->0.code as int == e.0 && res->0.message@ == e.1
                && opt_view(res->0.data) == e.2,
            None => res is None,
        },
{
    let code: i32 = match v.get("code") {
        Some(JsonValue::Number(JsonNumber::Int(c))) => if -2147483648i64 <= *c && *c
            <= 2147483647i64 {
            *c as i32
        } else {
            return None;
        },
        Some(JsonValue::Number(JsonNumber::UInt(c))) => if *c <= 2147483647u64 {
            *c as i32
        } else {
            return None;
        },
        _ => {
            return None;
        },
    };
    let message = match read_str_field(v, "message") {
        Some(m) => m,
        None => {
            return None;
        },
    };
    Some(JSONRPCErrorObject { code, message, data: read_opt_field(v, "data") })
}

impl JSONRPCMessage {
    /// Reads a message from its JSON form; `None` when the value is no
    /// message (see [`decode_message`]).
    pub fn from_json(v: &JsonValue) -> (res: Option<JSONRPCMessage>)
        ensures
            match decode_message(v@) {
                Some(m) => res is Some && res->0@ == m,
                None => res is None,
            },
    {
        let jsonrpc = read_str_field(v, "jsonrpc");
        let id = read_id_field(v, "id");
        let method = read_str_field(v, "method");
        match (jsonrpc, id, method) {
            (Some(j), Some(i), Some(m)) => {
                return Some(
                    JSONRPCMessage::Request(
                        JSONRPCRequest {
                            jsonrpc: j,
                            id: i,
                            method: m,
                            params: read_opt_field(v, "params"),
                        },
                    ),
                );
            },
            (Some(j), _, Some(m)) => {
                return Some(
                    JSONRPCMessage::Notification(
                        JSONRPCNotification {
                            jsonrpc: j,
                            method: m,
                            params: read_opt_field(v, "params"),
                        },
                    ),
                );
            },
            (Some(j), Some(i), None) => {
                if let Some(r) = v.get("result") {
                    return Some(
                        JSONRPCMessage::Response(
                            JSONRPCResponse { jsonrpc: j, id: i, result: r.deep_clone() },
                        ),
                    );
                }
                if let Some(e) = v.get("error") {
                    if let Some(eo) = read_error_object(e) {
                        return Some(
                            JSONRPCMessage::Error(JSONRPCError { jsonrpc: j, id: i, error: eo }),
                        );
                    }
                }
                None
            },
            _ => None,
        }
    }
}

/// Whether the optional members of a message (`params`, error `data`) are
/// absent or hold something other than `null`.
pub open spec fn optionals_not_null(m: Message) -> bool {
    match m {
        Message::Request { params, .. } => params != Some(Json::Null),
        Message::Notification { params, .. } => params != Some(Json::Null),
        Message::Response { .. } => true,
        Message::Error { data, .. } => data != Some(Json::Null),
    }
}

/// Reading back the JSON form of a message gives the message: encoding and
/// decoding agree. (An optional member that holds `null` reads back as
/// absent, so those messages are left out.)
pub proof fn lemma_message_json_roundtrip(m: JSONRPCMessage)
    requires
        optionals_not_null(m@),
    ensures
        decode_message(message_json(m@)) == Some(m@),
{
    reveal_with_fuel(members_get, 5);
    reveal_strlit("jsonrpc");
    reveal_strlit("id");
    reveal_strlit("method");
    reveal_strlit("params");
    reveal_strlit("result");
    reveal_strlit("error");
    reveal_strlit("code");
    reveal_strlit("message");
    reveal_strlit("data");
    assert("jsonrpc"@.len() == 7 && "jsonrpc"@[0] == 'j');
    assert("id"@.len() == 2 && "id"@[0] == 'i');
    assert("method"@.len() == 6 && "method"@[0] == 'm');
    assert("params"@.len() == 6 && "params"@[0] == 'p');
    assert("result"@.len() == 6 && "result"@[0] == 'r');
    assert("error"@.len() == 5 && "error"@[0] == 'e');
    assert("code"@.len() == 4 && "code"@[0] == 'c');
    assert("message"@.len() == 7 && "message"@[0] == 'm');
    assert("data"@.len() == 4 && "data"@[0] == 'd');
    let j = message_json(m@);
    match m@ {
        Message::Request { jsonrpc, id, method, params } => {
            let es = seq![("jsonrpc"@, Json::Str(jsonrpc)), ("id"@, id_json(id)), ("method"@, Json::Str(method))]
                + opt_member("params"@, params);
            assert(es.skip(1).skip(1).skip(1) =~= opt_member("params"@, params));
            assert(decode_id(id_json(id)) == Some(id));

        },
        Message::Notification { jsonrpc, method, params } => {
            let es = seq![("jsonrpc"@, Json::Str(jsonrpc)), ("method"@, Json::Str(method))]
                + opt_member("params"@, params);
            assert(es.skip(1).skip(1) =~= opt_member("params"@, params));
        },
        Message::Response { jsonrpc, id, result } => {
            assert(decode_id(id_json(id)) == Some(id));
        },
        Message::Error { jsonrpc, id, code, message, data } => {
            assert(decode_id(id_json(id)) == Some(id));
            let es = seq![("code"@, Json::Int(code)), ("message"@, Json::Str(message))]
                + opt_member("data"@, data);
            assert(es.skip(1).skip(1) =~= opt_member("data"@, data));
        },
    }
}

/// Reading a message does not depend on the order of its members: an object
/// and any reordering of its members (each with distinct keys) read as the
/// same message, or both as none.
pub proof fn lemma_decode_ignores_member_order(es: Seq<(Seq<char>, Json)>, es2: Seq<(Seq<char>, Json)>)
    requires
        distinct_keys(es),
        distinct_keys(es2),
        es.to_multiset() == es2.to_multiset(),
    ensures
        decode_message(Json::Object(es)) == decode_message(Json::Object(es2)),
{
    lemma_json_get_ignores_member_order(es, es2, "jsonrpc"@);
    lemma_json_get_ignores_member_order(es, es2, "id"@);
    lemma_json_get_ignores_member_order(es, es2, "method"@);
    lemma_json_get_ignores_member_order(es, es2, "params"@);
    lemma_json_get_ignores_member_order(es, es2, "result"@);
    lemma_json_get_ignores_member_order(es, es2, "error"@);
}

} // verus!
