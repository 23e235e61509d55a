//! The messages of the protocol, and the JSON-RPC envelope of each.

use crate::message::json::{
    has_key, items_view, lemma_items_view, lemma_members_view, members_view, only_keys, Json,
    JsonView,
};
use crate::message::response::{ResponseMessage, ResponseMessageView};
use crate::message::rpc::{CodecError, Id, IdView, RpcError, RpcErrorView};
use crate::message::buffer;
use crate::message::buffer::buffer_bytes;
use crate::message::frame::{
    after_discard, find_line_end, frame, lemma_discard_search, lemma_window_search, next_frame,
    Frame, LINE_END, MAX_LINE_LENGTH,
};
use crate::message::json;
use crate::message::json::{json_parse, json_text};
use crate::utils::text::str_eq;
use bytes::BytesMut;
use vstd::prelude::*;
use vstd::slice::slice_subrange;
use vstd::string::StringExecFns;

verus! {

#[derive(Clone, Debug, PartialEq, Eq)]
pub enum StratumMessage {
    /// (id, user_agent, protocol_version, session_id)
    Subscribe(Id, String, String, Option<String>),
    /// (id, account_name, worker_name, worker_password)
    Authorize(Id, String, String, Option<String>),
    /// New job from the mining pool.
    /// (job_id, epoch_challenge, address, clean_jobs)
    Notify(String, String, String, bool),
    /// (id, speed)
    LocalSpeed(Id, String),
    /// Submit a solution to the pool.
    /// (id, job_id, prover_solution)
    Submit(Id, String, String),
    /// (id, result, error)
    Response(Id, Option<ResponseMessage>, Option<RpcError>),
}

/// What a `StratumMessage` holds.
pub enum MessageView {
    Subscribe(IdView, Seq<char>, Seq<char>, Option<Seq<char>>),
    Authorize(IdView, Seq<char>, Seq<char>, Option<Seq<char>>),
    Notify(Seq<char>, Seq<char>, Seq<char>, bool),
    LocalSpeed(IdView, Seq<char>),
    Submit(IdView, Seq<char>, Seq<char>),
    Response(IdView, Option<ResponseMessageView>, Option<RpcErrorView>),
}

/// What a string that may be missing holds.
pub open spec fn option_string_view(s: Option<String>) -> Option<Seq<char>> {
    match s {
        Some(s) => Some(s@),
        None => None,
    }
}

impl View for StratumMessage {
    type V = MessageView;

    open spec fn view(&self) -> MessageView {
        match self {
            StratumMessage::Subscribe(id, user_agent, protocol_version, session_id) => {
                MessageView::Subscribe(
                    id@,
                    user_agent@,
                    protocol_version@,
                    option_string_view(*session_id),
                )
            },
            StratumMessage::Authorize(id, account_name, worker_name, worker_password) => {
                MessageView::Authorize(
                    id@,
                    account_name@,
                    worker_name@,
                    option_string_view(*worker_password),
                )
            },
            StratumMessage::Notify(job_id, epoch_challenge, address, clean_jobs) => {
                MessageView::Notify(job_id@, epoch_challenge@, address@, *clean_jobs)
            },
            StratumMessage::LocalSpeed(id, speed) => MessageView::LocalSpeed(id@, speed@),
            StratumMessage::Submit(id, job_id, prover_solution) => {
                MessageView::Submit(id@, job_id@, prover_solution@)
            },
            StratumMessage::Response(id, result, error) => MessageView::Response(
                id@,
                match result {
                    Some(r) => Some(r@),
                    None => None,
                },
                match error {
                    Some(e) => Some(e@),
                    None => None,
                },
            ),
        }
    }
}

/// The names that a request may have members of.
pub open spec fn request_keys() -> Seq<Seq<char>> {
    seq!["jsonrpc"@, "method"@, "params"@, "id"@]
}

/// The names that a response may have members of.
pub open spec fn response_keys() -> Seq<Seq<char>> {
    seq!["jsonrpc"@, "result"@, "error"@, "id"@]
}

/// The envelope of a request: `jsonrpc`, `method`, `params`, and `id` where
/// the request has one.
pub open spec fn request_json(method: Seq<char>, params: Seq<JsonView>, id: Option<IdView>) -> JsonView {
    match id {
        Some(id) => JsonView::Object(
            seq![
                ("jsonrpc"@, JsonView::Str("2.0"@)),
                ("method"@, JsonView::Str(method)),
                ("params"@, JsonView::Array(params)),
                ("id"@, id.json()),
            ],
        ),
        None => JsonView::Object(
            seq![
                ("jsonrpc"@, JsonView::Str("2.0"@)),
                ("method"@, JsonView::Str(method)),
                ("params"@, JsonView::Array(params)),
            ],
        ),
    }
}

/// The envelope of a response: `jsonrpc`, then `result` or `error` under
/// the name `payload`, then `id`.
pub open spec fn response_json(payload: Seq<char>, value: JsonView, id: IdView) -> JsonView {
    JsonView::Object(seq![("jsonrpc"@, JsonView::Str("2.0"@)), (payload, value), ("id"@, id.json())])
}

/// A string as JSON, and null for none.
pub open spec fn optional_str_json(s: Option<Seq<char>>) -> JsonView {
    match s {
        Some(s) => JsonView::Str(s),
        None => JsonView::Null,
    }
}

/// The string at position `i` of the parameters.
pub open spec fn str_param(params: Seq<JsonView>, i: int) -> Result<Seq<char>, CodecError> {
    match params[i] {
        JsonView::Str(s) => Ok(s),
        _ => Err(CodecError::ParamNotStr(i as usize)),
    }
}

/// The boolean at position `i` of the parameters.
pub open spec fn bool_param(params: Seq<JsonView>, i: int) -> Result<bool, CodecError> {
    match params[i] {
        JsonView::Bool(b) => Ok(b),
        _ => Err(CodecError::ParamNotBool(i as usize)),
    }
}

/// The string at position `i` of the parameters, or none where null stands
/// there.
pub open spec fn optional_str_param(params: Seq<JsonView>, i: int) -> Result<
    Option<Seq<char>>,
    CodecError,
> {
    match params[i] {
        JsonView::Str(s) => Ok(Some(s)),
        JsonView::Null => Ok(None),
        _ => Err(CodecError::InvalidParams),
    }
}

/// Whether the member `jsonrpc` is missing or the string `2.0`.
pub open spec fn version_ok(json: JsonView) -> bool {
    match json.get("jsonrpc"@) {
        None => true,
        Some(v) => v == JsonView::Str("2.0"@),
    }
}

/// Whether a member is there and not null.
pub open spec fn present(field: Option<JsonView>) -> bool {
    field is Some && field != Some(JsonView::Null)
}

impl MessageView {
    /// The method name of the message.
    pub open spec fn name(self) -> Seq<char> {
        match self {
            MessageView::Subscribe(..) => "mining.subscribe"@,
            MessageView::Authorize(..) => "mining.authorize"@,
            MessageView::Notify(..) => "mining.notify"@,
            MessageView::LocalSpeed(..) => "mining.local_speed"@,
            MessageView::Submit(..) => "mining.submit"@,
            MessageView::Response(..) => "mining.response"@,
        }
    }

    /// The JSON-RPC envelope of the message. A request carries its fields as
    /// positional parameters; `Notify` has no id. A response carries its
    /// error where it has one, and its result otherwise (null for none).
    pub open spec fn json(self) -> JsonView {
        match self {
            MessageView::Subscribe(id, user_agent, protocol_version, session_id) => request_json(
                self.name(),
                seq![
                    JsonView::Str(user_agent),
                    JsonView::Str(protocol_version),
                    optional_str_json(session_id),
                ],
                Some(id),
            ),
            MessageView::Authorize(id, account_name, worker_name, worker_password) => request_json(
                self.name(),
                seq![
                    JsonView::Str(account_name),
                    JsonView::Str(worker_name),
                    optional_str_json(worker_password),
                ],
                Some(id),
            ),
            MessageView::Notify(job_id, epoch_challenge, address, clean_jobs) => request_json(
                self.name(),
                seq![
                    JsonView::Str(job_id),
                    JsonView::Str(epoch_challenge),
                    JsonView::Str(address),
                    JsonView::Bool(clean_jobs),
                ],
                None,
            ),
            MessageView::LocalSpeed(id, speed) => request_json(
                self.name(),
                seq![JsonView::Str(speed)],
                Some(id),
            ),
            MessageView::Submit(id, job_id, prover_solution) => request_json(
                self.name(),
                seq![JsonView::Str(job_id), JsonView::Str(prover_solution)],
                Some(id),
            ),
            MessageView::Response(id, result, error) => match error {
                Some(e) => response_json("error"@, e.json(), id),
                None => response_json(
                    "result"@,
                    match result {
                        Some(r) => r.json(),
                        None => JsonView::Null,
                    },
                    id,
                ),
            },
        }
    }

    /// The request with the given method, parameters and id. The number of
    /// parameters is checked first, then each parameter in order.
    pub open spec fn from_request(method: Seq<char>, params: Seq<JsonView>, id: IdView) -> Result<
        MessageView,
        CodecError,
    > {
        if method == "mining.subscribe"@ {
            if params.len() != 3 {
                Err(CodecError::InvalidParams)
            } else {
                match (str_param(params, 0), str_param(params, 1), optional_str_param(params, 2)) {
                    (Err(e), _, _) => Err(e),
                    (_, Err(e), _) => Err(e),
                    (_, _, Err(e)) => Err(e),
                    (Ok(a), Ok(b), Ok(c)) => Ok(MessageView::Subscribe(id, a, b, c)),
                }
            }
        } else if method == "mining.authorize"@ {
            if params.len() != 3 {
                Err(CodecError::InvalidParams)
            } else {
                match (str_param(params, 0), str_param(params, 1), optional_str_param(params, 2)) {
                    (Err(e), _, _) => Err(e),
                    (_, Err(e), _) => Err(e),
                    (_, _, Err(e)) => Err(e),
                    (Ok(a), Ok(b), Ok(c)) => Ok(MessageView::Authorize(id, a, b, c)),
                }
            }
        } else if method == "mining.notify"@ {
            if params.len() != 4 {
                Err(CodecError::InvalidParams)
            } else {
                match (
                    str_param(params, 0),
                    str_param(params, 1),
                    str_param(params, 2),
                    bool_param(params, 3),
                ) {
                    (Err(e), _, _, _) => Err(e),
                    (_, Err(e), _, _) => Err(e),
                    (_, _, Err(e), _) => Err(e),
                    (_, _, _, Err(e)) => Err(e),
                    (Ok(a), Ok(b), Ok(c), Ok(d)) => Ok(MessageView::Notify(a, b, c, d)),
                }
            }
        } else if method == "mining.local_speed"@ {
            if params.len() != 1 {
                Err(CodecError::InvalidParams)
            } else {
                match str_param(params, 0) {
                    Err(e) => Err(e),
                    Ok(a) => Ok(MessageView::LocalSpeed(id, a)),
                }
            }
        } else if method == "mining.submit"@ {
            if params.len() != 2 {
                Err(CodecError::InvalidParams)
            } else {
                match (str_param(params, 0), str_param(params, 1)) {
                    (Err(e), _) => Err(e),
                    (_, Err(e)) => Err(e),
                    (Ok(a), Ok(b)) => Ok(MessageView::Submit(id, a, b)),
                }
            }
        } else {
            Err(CodecError::UnknownMethod)
        }
    }

    /// The message that an object with a `method` is. The object must be a
    /// request: no member but `jsonrpc`, `method`, `params` and `id`; `jsonrpc`
    /// missing or `2.0`; `method` a string; `id` missing, null, an unsigned
    /// number or a string; `params` missing, null or an array. Then `params`
    /// must be there, and the rest is `from_request`, with the id 0 where
    /// the request has none.
    pub open spec fn from_request_json(json: JsonView) -> Result<MessageView, CodecError> {
        if !(json matches JsonView::Object(members) && only_keys(members, request_keys()))
            || !version_ok(json) {
            Err(CodecError::InvalidRequest)
        } else {
            match (json.get("method"@), IdView::from_json(json.get("id"@)), json.get("params"@)) {
                (Some(JsonView::Str(method)), Some(id), Some(JsonView::Array(params))) => {
                    Self::from_request(method, params, IdView::or_zero(id))
                },
                (Some(JsonView::Str(_)), Some(_), None) => Err(CodecError::NoParams),
                (Some(JsonView::Str(_)), Some(_), Some(JsonView::Null)) => Err(CodecError::NoParams),
                _ => Err(CodecError::InvalidRequest),
            }
        }
    }

    /// The message that an object without a `method` is. The object must be
    /// a response: no member but `jsonrpc`, `result`, `error` and `id`;
    /// `jsonrpc` and `id` as in a request. An `error` that is there and not
    /// null must be an error object, and stand without a result. Otherwise
    /// `result` must be there, and be a result. The id is 0 where the
    /// response has none.
    pub open spec fn from_response_json(json: JsonView) -> Result<MessageView, CodecError> {
        if !(json matches JsonView::Object(members) && only_keys(members, response_keys()))
            || !version_ok(json) {
            Err(CodecError::InvalidResponse)
        } else {
            match IdView::from_json(json.get("id"@)) {
                None => Err(CodecError::InvalidResponse),
                Some(id) => if present(json.get("error"@)) {
                    if present(json.get("result"@)) {
                        Err(CodecError::InvalidResponse)
                    } else {
                        match RpcErrorView::from_json(json.get("error"@)->0) {
                            Some(e) => Ok(MessageView::Response(IdView::or_zero(id), None, Some(e))),
                            None => Err(CodecError::InvalidResponse),
                        }
                    }
                } else {
                    match json.get("result"@) {
                        None => Err(CodecError::InvalidResponse),
                        Some(value) => match ResponseMessageView::from_json(value) {
                            Ok(r) => Ok(MessageView::Response(IdView::or_zero(id), Some(r), None)),
                            Err(e) => Err(e),
                        },
                    }
                }
            }
        }
    }

    /// The message that a JSON value is: a request where it is an object
    /// with a member `method`, a response where it is an object without.
    pub open spec fn from_json(json: JsonView) -> Result<MessageView, CodecError> {
        match json {
            JsonView::Object(members) => if has_key(members, "method"@) {
                Self::from_request_json(json)
            } else {
                Self::from_response_json(json)
            },
            _ => Err(CodecError::NotAnObject),
        }
    }

    /// A response carries a result or an error, and not both.
    pub open spec fn well_formed(self) -> bool {
        self matches MessageView::Response(_, result, error) ==> (result is Some) != (error is Some)
    }
}

/// The names of `request_keys`, as strings.
fn request_key_names() -> (names: Vec<String>)
    ensures
        names.deep_view() == request_keys(),
{
    let mut names: Vec<String> = Vec::new();
    names.push(String::from_str("jsonrpc"));
    names.push(String::from_str("method"));
    names.push(String::from_str("params"));
    names.push(String::from_str("id"));
    assert(names.deep_view() =~= request_keys());
    names
}

/// The names of `response_keys`, as strings.
fn response_key_names() -> (names: Vec<String>)
    ensures
        names.deep_view() == response_keys(),
{
    let mut names: Vec<String> = Vec::new();
    names.push(String::from_str("jsonrpc"));
    names.push(String::from_str("result"));
    names.push(String::from_str("error"));
    names.push(String::from_str("id"));
    assert(names.deep_view() =~= response_keys());
    names
}

/// Builds the envelope of a request.
fn request_to_json(method: &str, params: Vec<Json>, id: Option<&Id>) -> (json: Json)
    ensures
        json@ == request_json(
            method@,
            items_view(params@),
            match id {
                Some(id) => Some(id@),
                None => None,
            },
        ),
{
    let ghost items = items_view(params@);
    let mut members: Vec<(String, Json)> = Vec::new();
    members.push((String::from_str("jsonrpc"), Json::Str(String::from_str("2.0"))));
    members.push((String::from_str("method"), Json::Str(String::from_str(method))));
    members.push((String::from_str("params"), Json::Array(params)));
    match id {
        Some(id) => {
            members.push((String::from_str("id"), id.to_json()));
            proof {
                lemma_members_view(members@);
                assert(members_view(members@) =~= request_json(method@, items, Some(id@))->Object_0);
            }
        },
        None => {
            proof {
                lemma_members_view(members@);
                assert(members_view(members@) =~= request_json(method@, items, None)->Object_0);
            }
        },
    }
    Json::Object(members)
}

/// Builds the envelope of a response.
fn response_to_json(payload: &str, value: Json, id: &Id) -> (json: Json)
    ensures
        json@ == response_json(payload@, value@, id@),
{
    let ghost held = value@;
    let mut members: Vec<(String, Json)> = Vec::new();
    members.push((String::from_str("jsonrpc"), Json::Str(String::from_str("2.0"))));
    members.push((String::from_str(payload), value));
    members.push((String::from_str("id"), id.to_json()));
    proof {
        lemma_members_view(members@);
        assert(members_view(members@) =~= response_json(payload@, held, id@)->Object_0);
    }
    Json::Object(members)
}

/// A string as JSON, and null for none.
fn optional_str_to_json(s: &Option<String>) -> (json: Json)
    ensures
        json@ == optional_str_json(option_string_view(*s)),
{
    match s {
        Some(s) => Json::Str(s.clone()),
        None => Json::Null,
    }
}

/// The string that a parameter is; `index` is its position.
pub fn unwrap_str_value(value: &Json, index: usize) -> (s: Result<String, CodecError>)
    ensures
        match s {
            Ok(s) => value@ == JsonView::Str(s@),
            Err(e) => !(value@ is Str) && e == CodecError::ParamNotStr(index),
        },
{
    match value {
        Json::Str(s) => Ok(s.clone()),
        _ => Err(CodecError::ParamNotStr(index)),
    }
}

/// The boolean that a parameter is; `index` is its position.
pub fn unwrap_bool_value(value: &Json, index: usize) -> (b: Result<bool, CodecError>)
    ensures
        match b {
            Ok(b) => value@ == JsonView::Bool(b),
            Err(e) => !(value@ is Bool) && e == CodecError::ParamNotBool(index),
        },
{
    match value {
        Json::Bool(b) => Ok(*b),
        _ => Err(CodecError::ParamNotBool(index)),
    }
}

/// The unsigned number that a parameter is; `index` is its position. No
/// method of the protocol has such a parameter yet.
pub fn unwrap_u64_value(value: &Json, index: usize) -> (n: Result<u64, CodecError>)
    ensures
        match n {
            Ok(n) => value@ == JsonView::UInt(n),
            Err(e) => !(value@ is UInt) && e == CodecError::ParamNotU64(index),
        },
{
    match value {
        Json::UInt(n) => Ok(*n),
        _ => Err(CodecError::ParamNotU64(index)),
    }
}

/// The string that a parameter is, or none where it is null.
pub fn unwrap_optional_str_value(value: &Json) -> (s: Result<Option<String>, CodecError>)
    ensures
        match s {
            Ok(Some(s)) => value@ == JsonView::Str(s@),
            Ok(None) => value@ == JsonView::Null,
            Err(e) => !(value@ is Str) && !(value@ is Null) && e == CodecError::InvalidParams,
        },
{
    match value {
        Json::Str(s) => Ok(Some(s.clone())),
        Json::Null => Ok(None),
        _ => Err(CodecError::InvalidParams),
    }
}

/// Whether the member `jsonrpc` of an envelope is missing or `2.0`.
fn check_version(json: &Json) -> (ok: bool)
    ensures
        ok == version_ok(json@),
{
    match json.get("jsonrpc") {
        None => true,
        Some(Json::Str(v)) => str_eq(v.as_str(), "2.0"),
        Some(_) => false,
    }
}

impl StratumMessage {
    /// The method name of the message.
    pub fn name(&self) -> (name: &'static str)
        ensures
            name@ == self@.name(),
    {
        match self {
            StratumMessage::Subscribe(..) => "mining.subscribe",
            StratumMessage::Authorize(..) => "mining.authorize",
            StratumMessage::Notify(..) => "mining.notify",
            StratumMessage::LocalSpeed(..) => "mining.local_speed",
            StratumMessage::Submit(..) => "mining.submit",
            StratumMessage::Response(..) => "mining.response",
        }
    }

    /// The JSON-RPC envelope of the message.
    pub fn to_json(&self) -> (json: Json)
        ensures
            json@ == self@.json(),
    {
        match self {
            StratumMessage::Subscribe(id, user_agent, protocol_version, session_id) => {
                let mut params: Vec<Json> = Vec::new();
                params.push(Json::Str(user_agent.clone()));
                params.push(Json::Str(protocol_version.clone()));
                params.push(optional_str_to_json(session_id));
                proof {
                    lemma_items_view(params@);
                    assert(items_view(params@) =~= seq![
                        JsonView::Str(user_agent@),
                        JsonView::Str(protocol_version@),
                        optional_str_json(option_string_view(*session_id)),
                    ]);
                }
                request_to_json(self.name(), params, Some(id))
            },
            StratumMessage::Authorize(id, account_name, worker_name, worker_password) => {
                let mut params: Vec<Json> = Vec::new();
                params.push(Json::Str(account_name.clone()));
                params.push(Json::Str(worker_name.clone()));
                params.push(optional_str_to_json(worker_password));
                proof {
                    lemma_items_view(params@);
                    assert(items_view(params@) =~= seq![
                        JsonView::Str(account_name@),
                        JsonView::Str(worker_name@),
                        optional_str_json(option_string_view(*worker_password)),
                    ]);
                }
                request_to_json(self.name(), params, Some(id))
            },
            StratumMessage::Notify(job_id, epoch_challenge, address, clean_jobs) => {
                let mut params: Vec<Json> = Vec::new();
                params.push(Json::Str(job_id.clone()));
                params.push(Json::Str(epoch_challenge.clone()));
                params.push(Json::Str(address.clone()));
                params.push(Json::Bool(*clean_jobs));
                proof {
                    lemma_items_view(params@);
                    assert(items_view(params@) =~= seq![
                        JsonView::Str(job_id@),
                        JsonView::Str(epoch_challenge@),
                        JsonView::Str(address@),
                        JsonView::Bool(*clean_jobs),
                    ]);
                }
                request_to_json(self.name(), params, None)
            },
            StratumMessage::LocalSpeed(id, speed) => {
                let mut params: Vec<Json> = Vec::new();
                params.push(Json::Str(speed.clone()));
                proof {
                    lemma_items_view(params@);
                    assert(items_view(params@) =~= seq![JsonView::Str(speed@)]);
                }
                request_to_json(self.name(), params, Some(id))
            },
            StratumMessage::Submit(id, job_id, prover_solution) => {
                let mut params: Vec<Json> = Vec::new();
                params.push(Json::Str(job_id.clone()));
                params.push(Json::Str(prover_solution.clone()));
                proof {
                    lemma_items_view(params@);
                    assert(items_view(params@) =~= seq![
                        JsonView::Str(job_id@),
                        JsonView::Str(prover_solution@),
                    ]);
                }
                request_to_json(self.name(), params, Some(id))
            },
            StratumMessage::Response(id, result, error) => match error {
                Some(error) => response_to_json("error", error.to_json(), id),
                None => {
                    let value = match result {
                        Some(result) => result.serialize(),
                        None => Json::Null,
                    };
                    response_to_json("result", value, id)
                },
            },
        }
    }

    /// The request with the given method, parameters and id.
    pub fn from_request(method: &str, params: &Vec<Json>, id: Id) -> (message: Result<
        StratumMessage,
        CodecError,
    >)
        ensures
            match message {
                Ok(m) => MessageView::from_request(method@, items_view(params@), id@) == Ok::<
                    _,
                    CodecError,
                >(m@),
                Err(e) => MessageView::from_request(method@, items_view(params@), id@) == Err::<
                    MessageView,
                    _,
                >(e),
            },
    {
        proof {
            lemma_items_view(params@);
        }
        if str_eq(method, "mining.subscribe") {
            if params.len() != 3 {
                return Err(CodecError::InvalidParams);
            }
            let user_agent = match unwrap_str_value(&params[0], 0) {
                Ok(s) => s,
                Err(e) => { return Err(e); },
            };
            let protocol_version = match unwrap_str_value(&params[1], 1) {
                Ok(s) => s,
                Err(e) => { return Err(e); },
            };
            let session_id = match unwrap_optional_str_value(&params[2]) {
                Ok(s) => s,
                Err(e) => { return Err(e); },
            };
            Ok(StratumMessage::Subscribe(id, user_agent, protocol_version, session_id))
        } else if str_eq(method, "mining.authorize") {
            if params.len() != 3 {
                return Err(CodecError::InvalidParams);
            }
            let account_name = match unwrap_str_value(&params[0], 0) {
                Ok(s) => s,
                Err(e) => { return Err(e); },
            };
            let worker_name = match unwrap_str_value(&params[1], 1) {
                Ok(s) => s,
                Err(e) => { return Err(e); },
            };
            let worker_password = match unwrap_optional_str_value(&params[2]) {
                Ok(s) => s,
                Err(e) => { return Err(e); },
            };
            Ok(StratumMessage::Authorize(id, account_name, worker_name, worker_password))
        } else if str_eq(method, "mining.notify") {
            if params.len() != 4 {
                return Err(CodecError::InvalidParams);
            }
            let job_id = match unwrap_str_value(&params[0], 0) {
                Ok(s) => s,
                Err(e) => { return Err(e); },
            };
            let epoch_challenge = match unwrap_str_value(&params[1], 1) {
                Ok(s) => s,
                Err(e) => { return Err(e); },
            };
            let address = match unwrap_str_value(&params[2], 2) {
                Ok(s) => s,
                Err(e) => { return Err(e); },
            };
            let clean_jobs = match unwrap_bool_value(&params[3], 3) {
                Ok(b) => b,
                Err(e) => { return Err(e); },
            };
            Ok(StratumMessage::Notify(job_id, epoch_challenge, address, clean_jobs))
        } else if str_eq(method, "mining.local_speed") {
            if params.len() != 1 {
                return Err(CodecError::InvalidParams);
            }
            let speed = match unwrap_str_value(&params[0], 0) {
                Ok(s) => s,
                Err(e) => { return Err(e); },
            };
            Ok(StratumMessage::LocalSpeed(id, speed))
        } else if str_eq(method, "mining.submit") {
            if params.len() != 2 {
                return Err(CodecError::InvalidParams);
            }
            let job_id = match unwrap_str_value(&params[0], 0) {
                Ok(s) => s,
                Err(e) => { return Err(e); },
            };
            let prover_solution = match unwrap_str_value(&params[1], 1) {
                Ok(s) => s,
                Err(e) => { return Err(e); },
            };
            Ok(StratumMessage::Submit(id, job_id, prover_solution))
        } else {
            Err(CodecError::UnknownMethod)
        }
    }

    /// The message that an object with a `method` is.
    pub fn from_request_json(json: &Json) -> (message: Result<StratumMessage, CodecError>)
        ensures
            match message {
                Ok(m) => MessageView::from_request_json(json@) == Ok::<_, CodecError>(m@),
                Err(e) => MessageView::from_request_json(json@) == Err::<MessageView, _>(e),
            },
    {
        let names = request_key_names();
        if !json.has_only_keys(&names) || !check_version(json) {
            return Err(CodecError::InvalidRequest);
        }
        let method = match json.get("method") {
            Some(Json::Str(method)) => method,
            _ => { return Err(CodecError::InvalidRequest); },
        };
        let id = match Id::from_json(json.get("id")) {
            Ok(id) => id,
            Err(_) => { return Err(CodecError::InvalidRequest); },
        };
        let params = match json.get("params") {
            Some(Json::Array(params)) => params,
            None => { return Err(CodecError::NoParams); },
            Some(Json::Null) => { return Err(CodecError::NoParams); },
            Some(_) => { return Err(CodecError::InvalidRequest); },
        };
        Self::from_request(method.as_str(), params, Id::or_zero(id))
    }

    /// The message that an object without a `method` is.
    pub fn from_response_json(json: &Json) -> (message: Result<StratumMessage, CodecError>)
        ensures
            match message {
                Ok(m) => MessageView::from_response_json(json@) == Ok::<_, CodecError>(m@),
                Err(e) => MessageView::from_response_json(json@) == Err::<MessageView, _>(e),
            },
    {
        let names = response_key_names();
        if !json.has_only_keys(&names) || !check_version(json) {
            return Err(CodecError::InvalidResponse);
        }
        let id = match Id::from_json(json.get("id")) {
            Ok(id) => Id::or_zero(id),
            Err(_) => { return Err(CodecError::InvalidResponse); },
        };
        let result = json.get("result");
        match json.get("error") {
            None => {},
            Some(Json::Null) => {},
            Some(error) => {
                match result {
                    None => {},
                    Some(Json::Null) => {},
                    Some(_) => { return Err(CodecError::InvalidResponse); },
                }
                return match RpcError::from_json(error) {
                    Some(error) => Ok(StratumMessage::Response(id, None, Some(error))),
                    None => Err(CodecError::InvalidResponse),
                };
            },
        }
        match result {
            None => Err(CodecError::InvalidResponse),
            Some(value) => match ResponseMessage::deserialize(value) {
                Ok(payload) => Ok(StratumMessage::Response(id, Some(payload), None)),
                Err(e) => Err(e),
            },
        }
    }

    /// The message that a JSON value is.
    pub fn from_json(json: &Json) -> (message: Result<StratumMessage, CodecError>)
        ensures
            match message {
                Ok(m) => MessageView::from_json(json@) == Ok::<_, CodecError>(m@),
                Err(e) => MessageView::from_json(json@) == Err::<MessageView, _>(e),
            },
    {
        match json {
            Json::Object(_) => {
                if json.get("method").is_some() {
                    Self::from_request_json(json)
                } else {
                    Self::from_response_json(json)
                }
            },
            _ => Err(CodecError::NotAnObject),
        }
    }
}

/// The message that a line is: the line must be JSON, and the JSON value a
/// message.
pub open spec fn line_message(line: Seq<u8>) -> Result<MessageView, CodecError> {
    match json_parse(line) {
        Some(json) => MessageView::from_json(json),
        None => Err(CodecError::InvalidJson),
    }
}

/// The frame of a message: its envelope as JSON text, and a line feed.
pub open spec fn message_frame(message: MessageView) -> Seq<u8> {
    frame(json_text(message.json()))
}

/// The message that a line is.
pub fn decode_line(line: &[u8]) -> (message: Result<StratumMessage, CodecError>)
    ensures
        match message {
            Ok(m) => line_message(line@) == Ok::<_, CodecError>(m@),
            Err(e) => line_message(line@) == Err::<MessageView, _>(e),
        },
{
    match json::parse(line) {
        Some(json) => StratumMessage::from_json(&json),
        None => Err(CodecError::InvalidJson),
    }
}

/// The codec of one connection. It writes each message as one line and
/// reads lines back into messages. After a line that was too long it drops
/// bytes up to the next line feed before it reads on.
pub struct StratumCodec {
    discarding: bool,
}

impl StratumCodec {
    /// Whether the codec is dropping the rest of a line that was too long.
    pub closed spec fn discarding(&self) -> bool {
        self.discarding
    }

    /// A codec at the start of a line.
    pub fn new() -> (codec: Self)
        ensures
            !codec.discarding(),
    {
        StratumCodec { discarding: false }
    }

    /// Appends the frame of `item` to `dst`. The frame has one line feed, its
    /// last byte.
    pub fn encode(&mut self, item: StratumMessage, dst: &mut BytesMut) -> (done: Result<
        (),
        CodecError,
    >)
        ensures
            done is Ok,
            buffer_bytes(*final(dst)) == buffer_bytes(*old(dst)) + message_frame(item@),
            !json_text(item@.json()).contains(LINE_END),
            final(self).discarding() == old(self).discarding(),
    {
        let mut bytes = json::print(&item.to_json());
        bytes.push(LINE_END);
        buffer::extend_from_slice(dst, bytes.as_slice());
        Ok(())
    }

    /// Takes the first line out of `src` and reads it as a message.
    ///
    /// Where the codec is dropping the rest of a line, it first drops the
    /// bytes of `src` up to the first line feed; without a line feed it drops
    /// them all and there is no message yet. Then, by what `next_frame` finds
    /// in `src`: a line leaves `src`, with its line feed, and is read as a
    /// message or gives the error of `line_message`; the start of a line
    /// stays, and there is no message yet; a line that is too long stays
    /// too, the error is `LineTooLong`, and the codec goes on to drop it.
    pub fn decode(&mut self, src: &mut BytesMut) -> (message: Result<
        Option<StratumMessage>,
        CodecError,
    >)
        ensures
            match (if old(self).discarding() {
                after_discard(buffer_bytes(*old(src)))
            } else {
                Some(buffer_bytes(*old(src)))
            }) {
                None => {
                    &&& message matches Ok(None)
                    &&& final(self).discarding()
                    &&& buffer_bytes(*final(src)) == Seq::<u8>::empty()
                },
                Some(buffer) => match next_frame(buffer) {
                    Frame::Line(line, rest) => {
                        &&& !final(self).discarding()
                        &&& buffer_bytes(*final(src)) == rest
                        &&& match message {
                            Ok(Some(m)) => line_message(line) == Ok::<_, CodecError>(m@),
                            Ok(None) => false,
                            Err(e) => line_message(line) == Err::<MessageView, _>(e),
                        }
                    },
                    Frame::Pending => {
                        &&& message matches Ok(None)
                        &&& !final(self).discarding()
                        &&& buffer_bytes(*final(src)) == buffer
                    },
                    Frame::TooLong => {
                        &&& message matches Err(CodecError::LineTooLong)
                        &&& final(self).discarding()
                        &&& buffer_bytes(*final(src)) == buffer
                    },
                },
            },
    {
        if self.discarding {
            let held = buffer::as_slice(src);
            let len = held.len();
            let at = find_line_end(held, len);
            proof {
                lemma_discard_search(
                    held@,
                    match at {
                        Some(i) => Some(i as int),
                        None => None,
                    },
                );
            }
            match at {
                Some(i) => {
                    let _ = buffer::split_to(src, i + 1);
                    self.discarding = false;
                },
                None => {
                    let _ = buffer::split_to(src, len);
                    return Ok(None);
                },
            }
        }
        let held = buffer::as_slice(src);
        let ghost start = held@;
        assert(Some(start) == (if old(self).discarding() {
            after_discard(buffer_bytes(*old(src)))
        } else {
            Some(buffer_bytes(*old(src)))
        }));
        let len = held.len();
        let limit = if len > MAX_LINE_LENGTH + 1 {
            MAX_LINE_LENGTH + 1
        } else {
            len
        };
        let at = find_line_end(held, limit);
        proof {
            lemma_window_search(
                start,
                limit as int,
                match at {
                    Some(i) => Some(i as int),
                    None => None,
                },
            );
        }
        match at {
            Some(i) => {
                let head = buffer::split_to(src, i + 1);
                let line = slice_subrange(head.as_slice(), 0, i);
                assert(line@ =~= start.take(i as int));
                assert(next_frame(start) == Frame::Line(line@, buffer_bytes(*src)));
                match decode_line(line) {
                    Ok(m) => Ok(Some(m)),
                    Err(e) => Err(e),
                }
            },
            None => {
                if len > MAX_LINE_LENGTH {
                    self.discarding = true;
                    assert(next_frame(start) == Frame::TooLong);
                    Err(CodecError::LineTooLong)
                } else {
                    assert(next_frame(start) == Frame::Pending);
                    Ok(None)
                }
            },
        }
    }
}

impl Default for StratumCodec {
    fn default() -> (codec: Self)
        ensures
            !codec.discarding(),
    {
        StratumCodec::new()
    }
}

} // verus!
