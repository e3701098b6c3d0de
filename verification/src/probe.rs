//! Answering a client's pre-handshake discovery probe.
//!
//! Some clients send a `server/discover` request before the mandatory
//! `initialize` handshake. The MCP session layer would treat that frame as
//! fatal, so the server answers it itself with a JSON-RPC "Method not found"
//! error and keeps the connection open. Every other frame passes through.

use vstd::prelude::*;
use crate::json::{
    entries_model, field, jint, jstr, json_bytes, json_text, lemma_member_at, parse_json, parsed_json, str_of,
    JsonModel, JsonValue,
};
use crate::text::{owned, str_eq};

verus! {

/// The one probe method answered before the handshake.
pub const PROBE_METHOD: &'static str = "server/discover";

/// The JSON-RPC error code for an unknown method.
pub const METHOD_NOT_FOUND: i64 = -32601;

/// The error message sent with [`METHOD_NOT_FOUND`].
pub const METHOD_NOT_FOUND_MESSAGE: &'static str = "Method not found";

/// The JSON-RPC protocol version named in every reply.
pub const JSONRPC_VERSION: &'static str = "2.0";

/// The reply to a probe request carrying `id`:
/// `{"jsonrpc":"2.0","id":id,"error":{"code":-32601,"message":"Method not found"}}`.
pub open spec fn probe_error_model(id: JsonModel) -> JsonModel {
    JsonModel::Object(
        seq![
            ("jsonrpc"@, jstr(JSONRPC_VERSION@)),
            ("id"@, id),
            (
                "error"@,
                JsonModel::Object(
                    seq![
                        ("code"@, jint(METHOD_NOT_FOUND)),
                        ("message"@, jstr(METHOD_NOT_FOUND_MESSAGE@)),
                    ],
                ),
            ),
        ],
    )
}

/// The reply owed to a parsed frame: one only for a request (a frame with an
/// `id`) whose `method` is the probe method; `None` for anything else.
pub open spec fn probe_reply_model(msg: JsonModel) -> Option<JsonModel> {
    match field(msg, "method"@) {
        Some(m) => match str_of(m) {
            Some(name) => if name == PROBE_METHOD@ {
                match field(msg, "id"@) {
                    Some(id) => Some(probe_error_model(id)),
                    None => None,
                }
            } else {
                None
            },
            None => None,
        },
        None => None,
    }
}

/// Only probe requests are answered, and the answer echoes the request's id:
/// a frame gets a reply exactly when its `method` is `server/discover` and it
/// has an `id`, and the reply carries that same `id` with the "Method not
/// found" error. Any other frame, `initialize` included, passes through.
pub proof fn law_probe_answers_only_discover_requests(msg: JsonModel)
    ensures
        probe_reply_model(msg) is Some <==> (field(msg, "method"@) == Some(jstr(PROBE_METHOD@)) && field(
            msg,
            "id"@,
        ) is Some),
        probe_reply_model(msg) matches Some(reply) ==> field(reply, "id"@) == field(msg, "id"@) && field(
            field(reply, "error"@)->0,
            "code"@,
        ) == Some(jint(METHOD_NOT_FOUND)),
{
    reveal_strlit("jsonrpc");
    reveal_strlit("id");
    reveal_strlit("error");
    reveal_strlit("code");
    assert("jsonrpc"@[0] != "id"@[0]);
    assert("jsonrpc"@[0] != "error"@[0]);
    assert("id"@[0] != "error"@[0]);
    match field(msg, "method"@) {
        Some(m) => {
            if str_of(m) == Some(PROBE_METHOD@) {
                assert(m == jstr(PROBE_METHOD@));
            }
        },
        None => {},
    }
    if let Some(id) = field(msg, "id"@) {
        let reply = probe_error_model(id);
        let e = reply->Object_0;
        lemma_member_at(e, "id"@, 1);
        lemma_member_at(e, "error"@, 2);
        let inner = e[2].1->Object_0;
        lemma_member_at(inner, "code"@, 0);
    }
}

/// The reply to a parsed frame if it is a probe request, else `None`.
pub fn probe_reply(msg: JsonValue) -> (r: Option<JsonValue>)
    ensures
        r matches Some(v) ==> probe_reply_model(msg.model()) == Some(v.model()),
        r is None ==> probe_reply_model(msg.model()) is None,
{
    let is_probe = match msg.get("method") {
        Some(m) => match m.as_str() {
            Some(name) => str_eq(name, PROBE_METHOD),
            None => false,
        },
        None => false,
    };
    if !is_probe {
        return None;
    }
    let ghost whole = msg.model();
    match msg.take_field("id") {
        Some(id) => {
            let ghost idm = id.model();
            let code = JsonValue::integer(METHOD_NOT_FOUND);
            let message = JsonValue::string(METHOD_NOT_FOUND_MESSAGE);
            let error_members = vec![(owned("code"), code), (owned("message"), message)];
            proof {
                assert(entries_model(error_members@) =~= seq![
                    ("code"@, jint(METHOD_NOT_FOUND)),
                    ("message"@, jstr(METHOD_NOT_FOUND_MESSAGE@)),
                ]);
            }
            let error = JsonValue::object(error_members);
            let ghost errm = error.model();
            let version = JsonValue::string(JSONRPC_VERSION);
            let members = vec![(owned("jsonrpc"), version), (owned("id"), id), (owned("error"), error)];
            proof {
                assert(entries_model(members@) =~= seq![
                    ("jsonrpc"@, jstr(JSONRPC_VERSION@)),
                    ("id"@, idm),
                    ("error"@, errm),
                ]);
            }
            let reply = JsonValue::object(members);
            proof {
                assert(probe_reply_model(whole) == Some(probe_error_model(idm)));
                assert(reply.model() == probe_error_model(idm));
            }
            Some(reply)
        },
        None => None,
    }
}

/// The reply to one raw line of the client's input: when the line is JSON
/// text of a probe request, the reply written as JSON and framed by a
/// newline; `None` for anything else (not JSON, or not a probe request), which
/// passes through untouched.
pub fn intercept_probe(line: &[u8]) -> (r: Option<Vec<u8>>)
    ensures
        match parsed_json(line@) {
            Some(m) => match probe_reply_model(m) {
                Some(reply) => r matches Some(b) && b@ == json_text(reply).push(10u8),
                None => r is None,
            },
            None => r is None,
        },
{
    match parse_json(line) {
        Some(msg) => match probe_reply(msg) {
            Some(reply) => Some(frame_line(json_bytes(&reply))),
            None => None,
        },
        None => None,
    }
}

/// A reply's bytes as one line of the stdio transport: the bytes, then a newline.
pub fn frame_line(bytes: Vec<u8>) -> (r: Vec<u8>)
    ensures
        r@ == bytes@.push(10u8),
{
    let mut out = bytes;
    out.push(10u8);
    out
}

} // verus!
