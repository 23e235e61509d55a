//! What is written can be read: the envelope of a message gives the message
//! back.

use crate::message::frame::{lemma_frame_roundtrip, next_frame, Frame, LINE_END, MAX_LINE_LENGTH};
use crate::message::json::{
    has_key, is_first_key, json_parse, json_text, lemma_member_at, lemma_member_none, only_keys,
    JsonView,
};
use crate::message::response::lemma_response_roundtrip;
use crate::message::rpc::{error_keys, CodecError, IdView, RpcErrorView};
use crate::message::stratum::{
    line_message, message_frame, request_json, request_keys, response_json, response_keys,
    version_ok, MessageView,
};
use vstd::prelude::*;

verus! {

/// The names of the members of envelopes and error objects differ from each
/// other.
proof fn lemma_member_names()
    ensures
        "jsonrpc"@ != "method"@,
        "jsonrpc"@ != "params"@,
        "jsonrpc"@ != "id"@,
        "jsonrpc"@ != "result"@,
        "jsonrpc"@ != "error"@,
        "method"@ != "params"@,
        "method"@ != "id"@,
        "method"@ != "result"@,
        "method"@ != "error"@,
        "params"@ != "id"@,
        "id"@ != "result"@,
        "id"@ != "error"@,
        "result"@ != "error"@,
        "code"@ != "message"@,
        "code"@ != "data"@,
        "message"@ != "data"@,
{
    reveal_strlit("jsonrpc");
    reveal_strlit("method");
    reveal_strlit("params");
    reveal_strlit("id");
    reveal_strlit("result");
    reveal_strlit("error");
    reveal_strlit("code");
    reveal_strlit("message");
    reveal_strlit("data");
    assert("method"@[0] != "params"@[0]);
    assert("method"@[0] != "result"@[0]);
    assert("jsonrpc"@.len() != "method"@.len());
    assert("id"@.len() != "error"@.len());
    assert("code"@[0] != "data"@[0]);
}

/// The method names differ from each other.
proof fn lemma_method_names()
    ensures
        "mining.subscribe"@ != "mining.authorize"@,
        "mining.subscribe"@ != "mining.notify"@,
        "mining.subscribe"@ != "mining.local_speed"@,
        "mining.subscribe"@ != "mining.submit"@,
        "mining.authorize"@ != "mining.notify"@,
        "mining.authorize"@ != "mining.local_speed"@,
        "mining.authorize"@ != "mining.submit"@,
        "mining.notify"@ != "mining.local_speed"@,
        "mining.notify"@ != "mining.submit"@,
        "mining.local_speed"@ != "mining.submit"@,
{
    reveal_strlit("mining.subscribe");
    reveal_strlit("mining.authorize");
    reveal_strlit("mining.notify");
    reveal_strlit("mining.local_speed");
    reveal_strlit("mining.submit");
    assert("mining.subscribe"@[7] != "mining.authorize"@[7]);
    assert("mining.notify"@[7] != "mining.submit"@[7]);
    assert("mining.subscribe"@.len() != "mining.notify"@.len());
    assert("mining.local_speed"@.len() != "mining.notify"@.len());
}

/// An error object written as JSON is read back as it was.
pub proof fn lemma_rpc_error_roundtrip(error: RpcErrorView)
    ensures
        RpcErrorView::from_json(error.json()) == Some(error),
        error.json() != JsonView::Null,
{
    lemma_member_names();
    let json = error.json();
    let members = json->Object_0;
    assert(is_first_key(members, "code"@, 0));
    lemma_member_at(members, "code"@, 0);
    assert(is_first_key(members, "message"@, 1));
    lemma_member_at(members, "message"@, 1);
    lemma_member_none(members, "data"@);
    assert(error_keys()[0] == "code"@);
    assert(error_keys()[1] == "message"@);
    assert(only_keys(members, error_keys()));
}

/// The envelope of a request is read as a request with the method, the
/// parameters and the id that it was built from, or the id 0 for none.
pub proof fn lemma_request_envelope(method: Seq<char>, params: Seq<JsonView>, id: Option<IdView>)
    ensures
        MessageView::from_json(request_json(method, params, id)) == MessageView::from_request(
            method,
            params,
            IdView::or_zero(id),
        ),
{
    lemma_member_names();
    let json = request_json(method, params, id);
    let members = json->Object_0;
    assert(request_keys()[0] == "jsonrpc"@);
    assert(request_keys()[1] == "method"@);
    assert(request_keys()[2] == "params"@);
    assert(request_keys()[3] == "id"@);
    assert(only_keys(members, request_keys()));
    assert(is_first_key(members, "jsonrpc"@, 0));
    lemma_member_at(members, "jsonrpc"@, 0);
    assert(is_first_key(members, "method"@, 1));
    lemma_member_at(members, "method"@, 1);
    assert(members[1].0 == "method"@);
    assert(has_key(members, "method"@));
    assert(is_first_key(members, "params"@, 2));
    lemma_member_at(members, "params"@, 2);
    match id {
        Some(i) => {
            assert(is_first_key(members, "id"@, 3));
            lemma_member_at(members, "id"@, 3);
        },
        None => {
            lemma_member_none(members, "id"@);
        },
    }
    assert(version_ok(json));
    assert(IdView::from_json(json.get("id"@)) == Some(id));
}

/// What reading finds in the envelope of a response.
proof fn lemma_response_envelope(payload: Seq<char>, value: JsonView, id: IdView)
    requires
        payload == "result"@ || payload == "error"@,
    ensures
        ({
            let json = response_json(payload, value, id);
            &&& !has_key(json->Object_0, "method"@)
            &&& only_keys(json->Object_0, response_keys())
            &&& version_ok(json)
            &&& IdView::from_json(json.get("id"@)) == Some(Some(id))
            &&& json.get(payload) == Some(value)
            &&& payload == "result"@ ==> json.get("error"@) is None
            &&& payload == "error"@ ==> json.get("result"@) is None
        }),
{
    lemma_member_names();
    let json = response_json(payload, value, id);
    let members = json->Object_0;
    assert(response_keys()[0] == "jsonrpc"@);
    assert(response_keys()[1] == "result"@);
    assert(response_keys()[2] == "error"@);
    assert(response_keys()[3] == "id"@);
    assert(only_keys(members, response_keys()));
    assert(is_first_key(members, "jsonrpc"@, 0));
    lemma_member_at(members, "jsonrpc"@, 0);
    assert(is_first_key(members, payload, 1));
    lemma_member_at(members, payload, 1);
    assert(is_first_key(members, "id"@, 2));
    lemma_member_at(members, "id"@, 2);
    if payload == "result"@ {
        lemma_member_none(members, "error"@);
    } else {
        lemma_member_none(members, "result"@);
    }
}

/// Reading the envelope of a message gives the message back, for every
/// request and for every response that carries a result or an error and not
/// both. A `Notify`, which has no id, is read back with no id either.
pub proof fn lemma_message_roundtrip(message: MessageView)
    requires
        message.well_formed(),
    ensures
        MessageView::from_json(message.json()) == Ok::<_, CodecError>(message),
{
    lemma_method_names();
    match message {
        MessageView::Subscribe(id, user_agent, protocol_version, session_id) => {
            lemma_request_envelope(
                message.name(),
                seq![
                    JsonView::Str(user_agent),
                    JsonView::Str(protocol_version),
                    crate::message::stratum::optional_str_json(session_id),
                ],
                Some(id),
            );
        },
        MessageView::Authorize(id, account_name, worker_name, worker_password) => {
            lemma_request_envelope(
                message.name(),
                seq![
                    JsonView::Str(account_name),
                    JsonView::Str(worker_name),
                    crate::message::stratum::optional_str_json(worker_password),
                ],
                Some(id),
            );
        },
        MessageView::Notify(job_id, epoch_challenge, address, clean_jobs) => {
            lemma_request_envelope(
                message.name(),
                seq![
                    JsonView::Str(job_id),
                    JsonView::Str(epoch_challenge),
                    JsonView::Str(address),
                    JsonView::Bool(clean_jobs),
                ],
                None,
            );
        },
        MessageView::LocalSpeed(id, speed) => {
            lemma_request_envelope(message.name(), seq![JsonView::Str(speed)], Some(id));
        },
        MessageView::Submit(id, job_id, prover_solution) => {
            lemma_request_envelope(
                message.name(),
                seq![JsonView::Str(job_id), JsonView::Str(prover_solution)],
                Some(id),
            );
        },
        MessageView::Response(id, result, error) => {
            match error {
                Some(e) => {
                    lemma_rpc_error_roundtrip(e);
                    lemma_response_envelope("error"@, e.json(), id);
                },
                None => {
                    let r = result->0;
                    lemma_response_roundtrip(r);
                    lemma_response_envelope("result"@, r.json(), id);
                },
            }
        },
    }
}

/// What is written to the wire is read from it: the frame of a message,
/// whatever follows it, is taken as one line and read as that message. This
/// holds of every message of which `lemma_message_roundtrip` speaks, provided
/// that its envelope is at most `MAX_LINE_LENGTH` bytes of text without a
/// line feed, and that `serde_json` reads the text back as the envelope.
pub proof fn lemma_wire_roundtrip(message: MessageView, rest: Seq<u8>)
    requires
        message.well_formed(),
    ensures
        ({
            let text = json_text(message.json());
            text.len() <= MAX_LINE_LENGTH && !text.contains(LINE_END) && json_parse(text) == Some(
                message.json(),
            ) ==> next_frame(message_frame(message) + rest) == Frame::Line(text, rest)
                && line_message(text) == Ok::<_, CodecError>(message)
        }),
{
    let text = json_text(message.json());
    if text.len() <= MAX_LINE_LENGTH && !text.contains(LINE_END) && json_parse(text) == Some(
        message.json(),
    ) {
        lemma_frame_roundtrip(text, rest);
        lemma_message_roundtrip(message);
    }
}

} // verus!
