//! The parts of a JSON-RPC envelope that messages carry: the identifier of a
//! request, the error object of a reply, and the errors of the codec.

use crate::message::json::{lemma_members_view, only_keys, Json, JsonView};
use vstd::prelude::*;
use vstd::string::StringExecFns;

verus! {

/// Why a frame could not be written or read.
#[derive(Clone, Copy, Debug, PartialEq, Eq)]
pub enum CodecError {
    /// More than `MAX_LINE_LENGTH` bytes without a line end.
    LineTooLong,
    /// The line is no UTF-8 or no JSON.
    InvalidJson,
    /// The JSON value is no object.
    NotAnObject,
    /// The object has a `method` and is no JSON-RPC request.
    InvalidRequest,
    /// The request has no `params`.
    NoParams,
    /// The request's method is none of the protocol.
    UnknownMethod,
    /// The number of parameters is not that of the method, or a parameter
    /// that may be a string or null is neither.
    InvalidParams,
    /// The parameter at this position must be a string and is none.
    ParamNotStr(usize),
    /// The parameter at this position must be a boolean and is none.
    ParamNotBool(usize),
    /// The parameter at this position must be an unsigned number of 64 bits
    /// and is none.
    ParamNotU64(usize),
    /// The object has no `method` and is no JSON-RPC response.
    InvalidResponse,
    /// The result of a response is neither a boolean, an array nor null.
    InvalidResponseParams,
}

impl CodecError {
    /// The text of the error.
    pub open spec fn text(self) -> Seq<char> {
        match self {
            CodecError::LineTooLong => "Line length limit exceeded"@,
            CodecError::InvalidJson => "Invalid JSON"@,
            CodecError::NotAnObject => "Not an object"@,
            CodecError::InvalidRequest => "Invalid request"@,
            CodecError::NoParams => "No params"@,
            CodecError::UnknownMethod => "Unknown method"@,
            CodecError::InvalidParams => "Invalid params"@,
            CodecError::ParamNotStr(_) => "Param is not str"@,
            CodecError::ParamNotBool(_) => "Param is not bool"@,
            CodecError::ParamNotU64(_) => "Param is not u64"@,
            CodecError::InvalidResponse => "Invalid response"@,
            CodecError::InvalidResponseParams => "invalid response params"@,
        }
    }

    /// The text of the error.
    pub fn message(&self) -> (text: &'static str)
        ensures
            text@ == self.text(),
    {
        match self {
            CodecError::LineTooLong => "Line length limit exceeded",
            CodecError::InvalidJson => "Invalid JSON",
            CodecError::NotAnObject => "Not an object",
            CodecError::InvalidRequest => "Invalid request",
            CodecError::NoParams => "No params",
            CodecError::UnknownMethod => "Unknown method",
            CodecError::InvalidParams => "Invalid params",
            CodecError::ParamNotStr(_) => "Param is not str",
            CodecError::ParamNotBool(_) => "Param is not bool",
            CodecError::ParamNotU64(_) => "Param is not u64",
            CodecError::InvalidResponse => "Invalid response",
            CodecError::InvalidResponseParams => "invalid response params",
        }
    }
}

/// The identifier of a request: a number or a string.
#[derive(Clone, Debug, PartialEq, Eq, Hash)]
pub enum Id {
    Num(u64),
    Str(String),
}

/// What an `Id` holds.
pub enum IdView {
    Num(u64),
    Str(Seq<char>),
}

impl View for Id {
    type V = IdView;

    open spec fn view(&self) -> IdView {
        match self {
            Id::Num(n) => IdView::Num(*n),
            Id::Str(s) => IdView::Str(s@),
        }
    }
}

impl IdView {
    /// The identifier as JSON: a number or a string.
    pub open spec fn json(self) -> JsonView {
        match self {
            IdView::Num(n) => JsonView::UInt(n),
            IdView::Str(s) => JsonView::Str(s),
        }
    }

    /// The identifier that the member `id` of an envelope gives: none where
    /// the member is missing or null, the number or the string where it is
    /// one. The outer `None` stands for any other value, which is no
    /// identifier.
    pub open spec fn from_json(field: Option<JsonView>) -> Option<Option<IdView>> {
        match field {
            None => Some(None),
            Some(JsonView::Null) => Some(None),
            Some(JsonView::UInt(n)) => Some(Some(IdView::Num(n))),
            Some(JsonView::Str(s)) => Some(Some(IdView::Str(s))),
            Some(_) => None,
        }
    }

    /// The identifier, or the number 0 in place of none.
    pub open spec fn or_zero(id: Option<IdView>) -> IdView {
        match id {
            Some(id) => id,
            None => IdView::Num(0),
        }
    }
}

impl Id {
    /// The identifier as JSON.
    pub fn to_json(&self) -> (json: Json)
        ensures
            json@ == self@.json(),
    {
        match self {
            Id::Num(n) => Json::UInt(*n),
            Id::Str(s) => Json::Str(s.clone()),
        }
    }

    /// The identifier that the member `id` of an envelope gives; `Err` where
    /// the member is no identifier.
    pub fn from_json(field: Option<&Json>) -> (id: Result<Option<Id>, ()>)
        ensures
            match id {
                Ok(id) => IdView::from_json(option_view(field)) == Some(option_id_view(id)),
                Err(_) => IdView::from_json(option_view(field)) is None,
            },
    {
        match field {
            None => Ok(None),
            Some(Json::Null) => Ok(None),
            Some(Json::UInt(n)) => Ok(Some(Id::Num(*n))),
            Some(Json::Str(s)) => Ok(Some(Id::Str(s.clone()))),
            Some(_) => Err(()),
        }
    }

    /// The identifier, or the number 0 in place of none.
    pub fn or_zero(id: Option<Id>) -> (out: Id)
        ensures
            out@ == IdView::or_zero(option_id_view(id)),
    {
        match id {
            Some(id) => id,
            None => Id::Num(0),
        }
    }
}

/// What a member that may be missing holds.
pub open spec fn option_view(field: Option<&Json>) -> Option<JsonView> {
    match field {
        Some(json) => Some(json@),
        None => None,
    }
}

/// What an identifier that may be missing holds.
pub open spec fn option_id_view(id: Option<Id>) -> Option<IdView> {
    match id {
        Some(id) => Some(id@),
        None => None,
    }
}

/// The error object of a JSON-RPC reply. Its `message` is the text of a
/// `PoolError`.
#[derive(Clone, Debug, PartialEq, Eq)]
pub struct RpcError {
    pub code: i64,
    pub message: String,
}

/// What an `RpcError` holds.
pub struct RpcErrorView {
    pub code: i64,
    pub message: Seq<char>,
}

impl View for RpcError {
    type V = RpcErrorView;

    open spec fn view(&self) -> RpcErrorView {
        RpcErrorView { code: self.code, message: self.message@ }
    }
}

/// The names that an error object may have members of.
pub open spec fn error_keys() -> Seq<Seq<char>> {
    seq!["code"@, "message"@, "data"@]
}

impl RpcErrorView {
    /// The error object as JSON: `code` and `message`.
    pub open spec fn json(self) -> JsonView {
        JsonView::Object(
            seq![
                ("code"@, if self.code < 0 {
                    JsonView::Int(self.code)
                } else {
                    JsonView::UInt(self.code as u64)
                }),
                ("message"@, JsonView::Str(self.message)),
            ],
        )
    }

    /// The number that the member `code` gives, where it is an integer that
    /// fits 64 bits with a sign.
    pub open spec fn code_of(field: Option<JsonView>) -> Option<i64> {
        match field {
            Some(JsonView::UInt(n)) => if n <= i64::MAX {
                Some(n as i64)
            } else {
                None
            },
            Some(JsonView::Int(n)) => Some(n),
            _ => None,
        }
    }

    /// The error object that a JSON value is: an object with an integer
    /// `code`, a string `message`, no `data` or a null one, and no other
    /// member.
    pub open spec fn from_json(json: JsonView) -> Option<RpcErrorView> {
        match json {
            JsonView::Object(members) => match (
                Self::code_of(json.get("code"@)),
                json.get("message"@),
                json.get("data"@),
            ) {
                (Some(code), Some(JsonView::Str(message)), None)
                | (Some(code), Some(JsonView::Str(message)), Some(JsonView::Null)) => if only_keys(
                    members,
                    error_keys(),
                ) {
                    Some(RpcErrorView { code, message })
                } else {
                    None
                },
                _ => None,
            },
            _ => None,
        }
    }
}

/// The names of `error_keys`, as strings.
fn error_key_names() -> (names: Vec<String>)
    ensures
        names.deep_view() == error_keys(),
{
    let mut names: Vec<String> = Vec::new();
    names.push(String::from_str("code"));
    names.push(String::from_str("message"));
    names.push(String::from_str("data"));
    assert(names.deep_view() =~= error_keys());
    names
}

impl RpcError {
    /// The error object as JSON.
    pub fn to_json(&self) -> (json: Json)
        ensures
            json@ == self@.json(),
    {
        let code = if self.code < 0 {
            Json::Int(self.code)
        } else {
            Json::UInt(self.code as u64)
        };
        let mut members: Vec<(String, Json)> = Vec::new();
        members.push((String::from_str("code"), code));
        members.push((String::from_str("message"), Json::Str(self.message.clone())));
        proof {
            lemma_members_view(members@);
            assert(crate::message::json::members_view(members@) =~= self@.json()->Object_0);
        }
        Json::Object(members)
    }

    /// The error object that a JSON value is, where it is one.
    pub fn from_json(json: &Json) -> (error: Option<RpcError>)
        ensures
            match error {
                Some(e) => RpcErrorView::from_json(json@) == Some(e@),
                None => RpcErrorView::from_json(json@) is None,
            },
    {
        let names = error_key_names();
        if !json.has_only_keys(&names) {
            return None;
        }
        let code = match json.get("code") {
            Some(Json::UInt(n)) => {
                if *n > 0x7fff_ffff_ffff_ffff {
                    return None;
                }
                *n as i64
            },
            Some(Json::Int(n)) => *n,
            _ => { return None; },
        };
        let message = match json.get("message") {
            Some(Json::Str(s)) => s.clone(),
            _ => { return None; },
        };
        match json.get("data") {
            None => {},
            Some(Json::Null) => {},
            Some(_) => { return None; },
        }
        Some(RpcError { code, message })
    }
}

} // verus!
