//! The reasons for which the pool turns a request down, and the text that
//! stands for each in the `message` of a JSON-RPC error.

use crate::utils::text::{lemma_not_prefix, starts_with, strip_prefix};
use vstd::prelude::*;
use vstd::string::{StrSliceExecFns, StringExecFns};

verus! {

#[derive(Clone, Debug, Eq, PartialEq)]
pub enum PoolError {
    /// The height or the epoch changed before the proof was looked at.
    StaleProof,
    /// The proof failed validation; the reason, where one is given.
    InvalidProof(Option<String>),
    /// The proof came before the server was ready.
    ServerNotReady,
    InternalServerError,
}

/// What a `PoolError` holds.
pub enum PoolErrorView {
    StaleProof,
    InvalidProof(Option<Seq<char>>),
    ServerNotReady,
    InternalServerError,
}

impl View for PoolError {
    type V = PoolErrorView;

    open spec fn view(&self) -> PoolErrorView {
        match self {
            PoolError::StaleProof => PoolErrorView::StaleProof,
            PoolError::InvalidProof(None) => PoolErrorView::InvalidProof(None),
            PoolError::InvalidProof(Some(reason)) => PoolErrorView::InvalidProof(Some(reason@)),
            PoolError::ServerNotReady => PoolErrorView::ServerNotReady,
            PoolError::InternalServerError => PoolErrorView::InternalServerError,
        }
    }
}

impl PoolErrorView {
    /// The name of the reason.
    pub open spec fn name(self) -> Seq<char> {
        match self {
            PoolErrorView::StaleProof => "StaleProof"@,
            PoolErrorView::InvalidProof(_) => "InvalidProof"@,
            PoolErrorView::ServerNotReady => "ServerNotReady"@,
            PoolErrorView::InternalServerError => "InternalServerError"@,
        }
    }

    /// The number of the reason.
    pub open spec fn id(self) -> int {
        match self {
            PoolErrorView::StaleProof => 1,
            PoolErrorView::InvalidProof(_) => 2,
            PoolErrorView::ServerNotReady => 3,
            PoolErrorView::InternalServerError => 100,
        }
    }

    /// The text that stands for the error: its name, and directly behind it
    /// the reason where there is one.
    pub open spec fn text(self) -> Seq<char> {
        match self {
            PoolErrorView::InvalidProof(Some(reason)) => "InvalidProof"@ + reason,
            _ => self.name(),
        }
    }

    /// The error that a text stands for. The names are tried in the order
    /// `StaleProof`, `InvalidProof`, `InternalServerError`, `ServerNotReady`;
    /// what follows `InvalidProof` is the reason, and no reason where nothing
    /// follows.
    pub open spec fn parse(text: Seq<char>) -> Option<PoolErrorView> {
        if "StaleProof"@.is_prefix_of(text) {
            Some(PoolErrorView::StaleProof)
        } else if "InvalidProof"@.is_prefix_of(text) {
            if text.len() == "InvalidProof"@.len() {
                Some(PoolErrorView::InvalidProof(None))
            } else {
                Some(PoolErrorView::InvalidProof(Some(text.skip("InvalidProof"@.len() as int))))
            }
        } else if "InternalServerError"@.is_prefix_of(text) {
            Some(PoolErrorView::InternalServerError)
        } else if "ServerNotReady"@.is_prefix_of(text) {
            Some(PoolErrorView::ServerNotReady)
        } else {
            None
        }
    }

    /// An `InvalidProof` with a reason has a reason that is not empty.
    pub open spec fn well_formed(self) -> bool {
        self matches PoolErrorView::InvalidProof(Some(reason)) ==> reason.len() > 0
    }
}

/// A text that stands for no `PoolError`.
#[derive(Clone, Debug, Eq, PartialEq)]
pub struct UnsupportedMessage {
    pub text: String,
}

impl UnsupportedMessage {
    /// The text of the error.
    pub fn message(&self) -> (text: String)
        ensures
            text@ == "Unsupported message: "@ + self.text@,
    {
        let mut text = String::from_str("Unsupported message: ");
        text.append(self.text.as_str());
        text
    }
}

impl PoolError {
    /// The text that stands for the error.
    pub fn to_string(&self) -> (text: String)
        ensures
            text@ == self@.text(),
    {
        match self {
            PoolError::StaleProof => String::from_str("StaleProof"),
            PoolError::InvalidProof(reason) => {
                match reason {
                    None => String::from_str("InvalidProof"),
                    Some(reason) => {
                        let mut text = String::from_str("InvalidProof");
                        text.append(reason.as_str());
                        text
                    },
                }
            },
            PoolError::ServerNotReady => String::from_str("ServerNotReady"),
            PoolError::InternalServerError => String::from_str("InternalServerError"),
        }
    }

    /// The error that a text stands for.
    pub fn from_str(s: &str) -> (error: Result<PoolError, UnsupportedMessage>)
        ensures
            match error {
                Ok(e) => PoolErrorView::parse(s@) == Some(e@),
                Err(unsupported) => PoolErrorView::parse(s@) is None && unsupported.text@ == s@,
            },
    {
        if starts_with(s, "StaleProof") {
            Ok(PoolError::StaleProof)
        } else if let Some(reason) = strip_prefix(s, "InvalidProof") {
            if reason.unicode_len() == 0 {
                Ok(PoolError::InvalidProof(None))
            } else {
                Ok(PoolError::InvalidProof(Some(reason.to_owned())))
            }
        } else if starts_with(s, "InternalServerError") {
            Ok(PoolError::InternalServerError)
        } else if starts_with(s, "ServerNotReady") {
            Ok(PoolError::ServerNotReady)
        } else {
            Err(UnsupportedMessage { text: s.to_owned() })
        }
    }

    /// The number of the reason.
    pub fn id(&self) -> (id: i64)
        ensures
            id == self@.id(),
    {
        match self {
            PoolError::StaleProof => 1,
            PoolError::InvalidProof(..) => 2,
            PoolError::ServerNotReady => 3,
            PoolError::InternalServerError => 100,
        }
    }

    /// The name of the reason.
    pub fn name(&self) -> (name: &'static str)
        ensures
            name@ == self@.name(),
    {
        match self {
            PoolError::StaleProof => "StaleProof",
            PoolError::InvalidProof(..) => "InvalidProof",
            PoolError::ServerNotReady => "ServerNotReady",
            PoolError::InternalServerError => "InternalServerError",
        }
    }
}

/// The text of an error stands for that error: reading it gives the error
/// back, for every error but an `InvalidProof` with an empty reason.
pub proof fn lemma_pool_error_roundtrip(error: PoolErrorView)
    requires
        error.well_formed(),
    ensures
        PoolErrorView::parse(error.text()) == Some(error),
{
    reveal_strlit("StaleProof");
    reveal_strlit("InvalidProof");
    reveal_strlit("ServerNotReady");
    reveal_strlit("InternalServerError");
    let text = error.text();
    match error {
        PoolErrorView::StaleProof => {
            assert("StaleProof"@.is_prefix_of(text));
        },
        PoolErrorView::InvalidProof(None) => {
            lemma_not_prefix("StaleProof"@, text, 0);
            assert("InvalidProof"@.is_prefix_of(text));
        },
        PoolErrorView::InvalidProof(Some(reason)) => {
            lemma_not_prefix("StaleProof"@, text, 0);
            assert(text.subrange(0, "InvalidProof"@.len() as int) =~= "InvalidProof"@);
            assert(text.skip("InvalidProof"@.len() as int) =~= reason);
        },
        PoolErrorView::ServerNotReady => {
            lemma_not_prefix("StaleProof"@, text, 1);
            lemma_not_prefix("InvalidProof"@, text, 0);
            lemma_not_prefix("InternalServerError"@, text, 0);
            assert("ServerNotReady"@.is_prefix_of(text));
        },
        PoolErrorView::InternalServerError => {
            lemma_not_prefix("StaleProof"@, text, 0);
            lemma_not_prefix("InvalidProof"@, text, 2);
            assert("InternalServerError"@.is_prefix_of(text));
        },
    }
}

} // verus!
