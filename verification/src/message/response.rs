//! The result of a successful reply.

use crate::message::json::{items_view, lemma_items_view, Json, JsonView};
use crate::message::rpc::CodecError;
use vstd::prelude::*;

verus! {

/// An item of an array result: a string, an unsigned number or null.
#[derive(Clone, Debug, PartialEq, Eq)]
pub enum Scalar {
    Str(String),
    UInt(u64),
    Null,
}

/// What a `Scalar` holds.
pub enum ScalarView {
    Str(Seq<char>),
    UInt(u64),
    Null,
}

impl View for Scalar {
    type V = ScalarView;

    open spec fn view(&self) -> ScalarView {
        match self {
            Scalar::Str(s) => ScalarView::Str(s@),
            Scalar::UInt(n) => ScalarView::UInt(*n),
            Scalar::Null => ScalarView::Null,
        }
    }
}

impl ScalarView {
    /// The item as JSON.
    pub open spec fn json(self) -> JsonView {
        match self {
            ScalarView::Str(s) => JsonView::Str(s),
            ScalarView::UInt(n) => JsonView::UInt(n),
            ScalarView::Null => JsonView::Null,
        }
    }

    /// The item that a JSON value is: a string, an unsigned number that fits
    /// 64 bits, or null. Any other value is no item.
    pub open spec fn from_json(json: JsonView) -> Option<ScalarView> {
        match json {
            JsonView::Str(s) => Some(ScalarView::Str(s)),
            JsonView::UInt(n) => Some(ScalarView::UInt(n)),
            JsonView::Null => Some(ScalarView::Null),
            _ => None,
        }
    }
}

/// The items as JSON, in order.
pub open spec fn scalars_json(items: Seq<ScalarView>) -> Seq<JsonView> {
    Seq::new(items.len(), |i: int| items[i].json())
}

/// The items among the values of a JSON array, in order; a value that is no
/// item is left out.
pub open spec fn json_scalars(values: Seq<JsonView>) -> Seq<ScalarView>
    decreases values.len(),
{
    if values.len() == 0 {
        Seq::empty()
    } else {
        match ScalarView::from_json(values.last()) {
            Some(item) => json_scalars(values.drop_last()).push(item),
            None => json_scalars(values.drop_last()),
        }
    }
}

/// What the items of an array result hold, one by one.
pub open spec fn scalars_view(items: Seq<Scalar>) -> Seq<ScalarView> {
    Seq::new(items.len(), |i: int| items[i]@)
}

/// The result of a successful reply: an acknowledgement, a list, or nothing.
#[derive(Clone, Debug, PartialEq, Eq)]
pub enum ResponseMessage {
    Bool(bool),
    Array(Vec<Scalar>),
    Null,
}

/// What a `ResponseMessage` holds.
pub enum ResponseMessageView {
    Bool(bool),
    Array(Seq<ScalarView>),
    Null,
}

impl View for ResponseMessage {
    type V = ResponseMessageView;

    open spec fn view(&self) -> ResponseMessageView {
        match self {
            ResponseMessage::Bool(b) => ResponseMessageView::Bool(*b),
            ResponseMessage::Array(items) => ResponseMessageView::Array(scalars_view(items@)),
            ResponseMessage::Null => ResponseMessageView::Null,
        }
    }
}

impl ResponseMessageView {
    /// The name of the kind of result.
    pub open spec fn name(self) -> Seq<char> {
        match self {
            ResponseMessageView::Bool(_) => "Bool"@,
            ResponseMessageView::Array(_) => "Array"@,
            ResponseMessageView::Null => "Null"@,
        }
    }

    /// The result as JSON: a boolean, an array of the items in order, or null.
    pub open spec fn json(self) -> JsonView {
        match self {
            ResponseMessageView::Bool(b) => JsonView::Bool(b),
            ResponseMessageView::Array(items) => JsonView::Array(scalars_json(items)),
            ResponseMessageView::Null => JsonView::Null,
        }
    }

    /// The result that a JSON value is. An array gives its items, without the
    /// values that are no items; an object, a string or a number is no result.
    pub open spec fn from_json(json: JsonView) -> Result<ResponseMessageView, CodecError> {
        match json {
            JsonView::Bool(b) => Ok(ResponseMessageView::Bool(b)),
            JsonView::Array(values) => Ok(ResponseMessageView::Array(json_scalars(values))),
            JsonView::Null => Ok(ResponseMessageView::Null),
            _ => Err(CodecError::InvalidResponseParams),
        }
    }
}

/// Items written as JSON are read back as they were.
pub proof fn lemma_scalars_roundtrip(items: Seq<ScalarView>)
    ensures
        json_scalars(scalars_json(items)) == items,
    decreases items.len(),
{
    let values = scalars_json(items);
    if items.len() == 0 {
        assert(json_scalars(values) =~= items);
    } else {
        lemma_scalars_roundtrip(items.drop_last());
        assert(values.drop_last() =~= scalars_json(items.drop_last()));
        assert(ScalarView::from_json(values.last()) == Some(items.last()));
        assert(json_scalars(values) =~= items);
    }
}

/// A result written as JSON is read back as it was.
pub proof fn lemma_response_roundtrip(result: ResponseMessageView)
    ensures
        ResponseMessageView::from_json(result.json()) == Ok::<_, CodecError>(result),
{
    match result {
        ResponseMessageView::Array(items) => {
            lemma_scalars_roundtrip(items);
        },
        _ => {},
    }
}

impl Scalar {
    /// The item as JSON.
    pub fn to_json(&self) -> (json: Json)
        ensures
            json@ == self@.json(),
    {
        match self {
            Scalar::Str(s) => Json::Str(s.clone()),
            Scalar::UInt(n) => Json::UInt(*n),
            Scalar::Null => Json::Null,
        }
    }

    /// The item that a JSON value is, where it is one.
    pub fn from_json(json: &Json) -> (item: Option<Scalar>)
        ensures
            match item {
                Some(s) => ScalarView::from_json(json@) == Some(s@),
                None => ScalarView::from_json(json@) is None,
            },
    {
        match json {
            Json::Str(s) => Some(Scalar::Str(s.clone())),
            Json::UInt(n) => Some(Scalar::UInt(*n)),
            Json::Null => Some(Scalar::Null),
            _ => None,
        }
    }
}

impl ResponseMessage {
    /// The name of the kind of result.
    pub fn name(&self) -> (name: &'static str)
        ensures
            name@ == self@.name(),
    {
        match self {
            ResponseMessage::Bool(_) => "Bool",
            ResponseMessage::Array(_) => "Array",
            ResponseMessage::Null => "Null",
        }
    }

    /// The result as JSON.
    pub fn serialize(&self) -> (json: Json)
        ensures
            json@ == self@.json(),
    {
        match self {
            ResponseMessage::Bool(ok) => Json::Bool(*ok),
            ResponseMessage::Array(v) => {
                let mut seq: Vec<Json> = Vec::new();
                let mut i: usize = 0;
                while i < v.len()
                    invariant
                        i <= v.len(),
                        seq@.len() == i,
                        forall|k: int| 0 <= k < i ==> (#[trigger] seq@[k])@ == v@[k]@.json(),
                    decreases v.len() - i,
                {
                    seq.push(v[i].to_json());
                    i += 1;
                }
                proof {
                    lemma_items_view(seq@);
                    assert(items_view(seq@) =~= scalars_json(scalars_view(v@)));
                }
                Json::Array(seq)
            },
            ResponseMessage::Null => Json::Null,
        }
    }

    /// The result that a JSON value is.
    pub fn deserialize(value: &Json) -> (result: Result<ResponseMessage, CodecError>)
        ensures
            match result {
                Ok(r) => ResponseMessageView::from_json(value@) == Ok::<_, CodecError>(r@),
                Err(e) => ResponseMessageView::from_json(value@) == Err::<ResponseMessageView, _>(e),
            },
    {
        match value {
            Json::Bool(b) => Ok(ResponseMessage::Bool(*b)),
            Json::Array(a) => {
                let mut vec: Vec<Scalar> = Vec::new();
                let mut i: usize = 0;
                proof {
                    lemma_items_view(a@);
                    assert(items_view(a@).take(0) =~= Seq::empty());
                    assert(scalars_view(vec@) =~= Seq::empty());
                }
                while i < a.len()
                    invariant
                        i <= a.len(),
                        items_view(a@).len() == a@.len(),
                        forall|k: int| 0 <= k < a@.len() ==> (#[trigger] items_view(a@)[k]) == a@[k]@,
                        scalars_view(vec@) == json_scalars(items_view(a@).take(i as int)),
                    decreases a.len() - i,
                {
                    let ghost before = vec@;
                    let ghost values = items_view(a@).take(i as int + 1);
                    proof {
                        assert(values.drop_last() =~= items_view(a@).take(i as int));
                        assert(values.last() == a@[i as int]@);
                    }
                    match Scalar::from_json(&a[i]) {
                        Some(item) => {
                            vec.push(item);
                            proof {
                                assert(scalars_view(vec@) =~= scalars_view(before).push(item@));
                            }
                        },
                        None => {},
                    }
                    i += 1;
                }
                proof {
                    assert(items_view(a@).take(a@.len() as int) =~= items_view(a@));
                }
                Ok(ResponseMessage::Array(vec))
            },
            Json::Null => Ok(ResponseMessage::Null),
            _ => Err(CodecError::InvalidResponseParams),
        }
    }
}

} // verus!
