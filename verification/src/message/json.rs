//! JSON values as the codec reads and builds them. The text is parsed and
//! written by `serde_json`; everything between is done on `Json`.

use vstd::prelude::*;

verus! {

/// A JSON value.
///
/// A number is `UInt` where it is an integer from 0 to `u64::MAX`, `Int`
/// where it is a negative integer down to `i64::MIN`, and `Real` otherwise;
/// `Real` does not keep the number, and is written out as `null`.
/// The members of an object are kept in order; the first one of a name is
/// the one that `get` finds.
#[derive(Debug)]
pub enum Json {
    Null,
    Bool(bool),
    UInt(u64),
    Int(i64),
    Real,
    Str(String),
    Array(Vec<Json>),
    Object(Vec<(String, Json)>),
}

/// What a `Json` holds.
pub enum JsonView {
    Null,
    Bool(bool),
    UInt(u64),
    Int(i64),
    Real,
    Str(Seq<char>),
    Array(Seq<JsonView>),
    Object(Seq<(Seq<char>, JsonView)>),
}

/// What a value holds.
pub open spec fn json_view(json: Json) -> JsonView
    decreases json, 0nat,
{
    match json {
        Json::Null => JsonView::Null,
        Json::Bool(b) => JsonView::Bool(b),
        Json::UInt(n) => JsonView::UInt(n),
        Json::Int(n) => JsonView::Int(n),
        Json::Real => JsonView::Real,
        Json::Str(s) => JsonView::Str(s@),
        Json::Array(items) => JsonView::Array(items_view(items@)),
        Json::Object(members) => JsonView::Object(members_view(members@)),
    }
}

/// What the items of an array hold, one by one.
pub open spec fn items_view(items: Seq<Json>) -> Seq<JsonView>
    decreases items, 1nat,
{
    if items.len() == 0 {
        Seq::empty()
    } else {
        items_view(items.drop_last()).push(json_view(items.last()))
    }
}

/// What the members of an object hold, one by one.
pub open spec fn members_view(members: Seq<(String, Json)>) -> Seq<(Seq<char>, JsonView)>
    decreases members, 1nat,
{
    if members.len() == 0 {
        Seq::empty()
    } else {
        members_view(members.drop_last()).push((members.last().0@, json_view(members.last().1)))
    }
}

impl View for Json {
    type V = JsonView;

    open spec fn view(&self) -> JsonView {
        json_view(*self)
    }
}

/// The items of an array are viewed one by one.
pub proof fn lemma_items_view(items: Seq<Json>)
    ensures
        items_view(items).len() == items.len(),
        forall|i: int| 0 <= i < items.len() ==> (#[trigger] items_view(items)[i]) == items[i]@,
    decreases items.len(),
{
    if items.len() > 0 {
        lemma_items_view(items.drop_last());
    }
}

/// The members of an object are viewed one by one.
pub proof fn lemma_members_view(members: Seq<(String, Json)>)
    ensures
        members_view(members).len() == members.len(),
        forall|i: int|
            0 <= i < members.len() ==> (#[trigger] members_view(members)[i]) == (
                members[i].0@,
                members[i].1@,
            ),
    decreases members.len(),
{
    if members.len() > 0 {
        lemma_members_view(members.drop_last());
    }
}

/// `i` is the position of the first member of `members` that is named `key`.
pub open spec fn is_first_key(members: Seq<(Seq<char>, JsonView)>, key: Seq<char>, i: int) -> bool {
    &&& 0 <= i < members.len()
    &&& members[i].0 == key
    &&& forall|j: int| 0 <= j < i ==> (#[trigger] members[j]).0 != key
}

/// Whether a member of `members` is named `key`.
pub open spec fn has_key(members: Seq<(Seq<char>, JsonView)>, key: Seq<char>) -> bool {
    exists|i: int| 0 <= i < members.len() && (#[trigger] members[i]).0 == key
}

/// The value of the first member named `key`.
pub open spec fn member(members: Seq<(Seq<char>, JsonView)>, key: Seq<char>) -> Option<JsonView> {
    if has_key(members, key) {
        Some(members[choose|i: int| is_first_key(members, key, i)].1)
    } else {
        None
    }
}

/// Whether every member of `members` has one of the `names`.
pub open spec fn only_keys(members: Seq<(Seq<char>, JsonView)>, names: Seq<Seq<char>>) -> bool {
    forall|i: int| 0 <= i < members.len() ==> names.contains((#[trigger] members[i]).0)
}

/// The first member of a name is the one that `member` gives.
pub proof fn lemma_member_at(members: Seq<(Seq<char>, JsonView)>, key: Seq<char>, i: int)
    requires
        is_first_key(members, key, i),
    ensures
        member(members, key) == Some(members[i].1),
{
    let k = choose|k: int| is_first_key(members, key, k);
    assert(is_first_key(members, key, k));
}

/// Without a member of that name, `member` gives nothing.
pub proof fn lemma_member_none(members: Seq<(Seq<char>, JsonView)>, key: Seq<char>)
    requires
        forall|i: int| 0 <= i < members.len() ==> (#[trigger] members[i]).0 != key,
    ensures
        member(members, key) is None,
{
}

impl JsonView {
    /// The value of the member `key`, where `self` is an object that has one.
    pub open spec fn get(self, key: Seq<char>) -> Option<JsonView> {
        match self {
            JsonView::Object(members) => member(members, key),
            _ => None,
        }
    }
}

impl Json {
    /// The value of the member `key`, where `self` is an object that has one.
    pub fn get(&self, key: &str) -> (value: Option<&Json>)
        ensures
            match value {
                Some(v) => self@.get(key@) == Some(v@),
                None => self@.get(key@) is None,
            },
    {
        match self {
            Json::Object(members) => {
                proof {
                    lemma_members_view(members@);
                }
                let name = key.to_owned();
                let mut i: usize = 0;
                while i < members.len()
                    invariant
                        i <= members.len(),
                        name@ == key@,
                        self@ == JsonView::Object(members_view(members@)),
                        members_view(members@).len() == members@.len(),
                        forall|j: int|
                            0 <= j < members@.len() ==> (#[trigger] members_view(members@)[j]) == (
                                members@[j].0@,
                                members@[j].1@,
                            ),
                        forall|j: int| 0 <= j < i ==> (#[trigger] members_view(members@)[j]).0 != key@,
                    decreases members.len() - i,
                {
                    if members[i].0 == name {
                        proof {
                            lemma_member_at(self@->Object_0, key@, i as int);
                        }
                        return Some(&members[i].1);
                    }
                    i += 1;
                }
                proof {
                    lemma_member_none(self@->Object_0, key@);
                }
                None
            },
            _ => None,
        }
    }

    /// Whether `self` is an object whose members all have one of the `names`.
    pub fn has_only_keys(&self, names: &Vec<String>) -> (ok: bool)
        ensures
            ok == (self@ matches JsonView::Object(m) && only_keys(m, names.deep_view())),
    {
        match self {
            Json::Object(members) => {
                proof {
                    lemma_members_view(members@);
                }
                let mut i: usize = 0;
                while i < members.len()
                    invariant
                        i <= members.len(),
                        self@ == JsonView::Object(members_view(members@)),
                        members_view(members@).len() == members@.len(),
                        forall|j: int|
                            0 <= j < members@.len() ==> (#[trigger] members_view(members@)[j]) == (
                                members@[j].0@,
                                members@[j].1@,
                            ),
                        forall|j: int|
                            0 <= j < i ==> names.deep_view().contains(
                                (#[trigger] members_view(members@)[j]).0,
                            ),
                    decreases members.len() - i,
                {
                    let mut found = false;
                    let mut k: usize = 0;
                    while k < names.len()
                        invariant
                            k <= names.len(),
                            i < members.len(),
                            found == (exists|n: int|
                                0 <= n < k && (#[trigger] names@[n])@ == members@[i as int].0@),
                        decreases names.len() - k,
                    {
                        if names[k] == members[i].0 {
                            found = true;
                        }
                        k += 1;
                    }
                    if !found {
                        proof {
                            let m = self@->Object_0;
                            assert(m[i as int].0 == members@[i as int].0@);
                            if names.deep_view().contains(m[i as int].0) {
                                let n = choose|n: int|
                                    0 <= n < names.deep_view().len() && names.deep_view()[n]
                                        == m[i as int].0;
                                assert(names@[n]@ == members@[i as int].0@);
                            }
                        }
                        return false;
                    }
                    proof {
                        let m = self@->Object_0;
                        let n = choose|n: int|
                            0 <= n < names@.len() && (#[trigger] names@[n])@ == members@[i as int].0@;
                        assert(names.deep_view()[n] == m[i as int].0);
                    }
                    i += 1;
                }
                true
            },
            _ => false,
        }
    }
}

#[verifier::external_type_specification]
#[verifier::external_body]
pub struct ExValue(serde_json::Value);

/// What `serde_json` reads from a text: the value, or nothing where the text
/// is no JSON.
pub uninterp spec fn json_parse(text: Seq<u8>) -> Option<JsonView>;

/// The text that `serde_json` writes for a value.
pub uninterp spec fn json_text(json: JsonView) -> Seq<u8>;

/// What a `serde_json::Value` holds.
pub uninterp spec fn value_json(value: serde_json::Value) -> JsonView;

/// The text that `serde_json` writes for a `serde_json::Value`.
pub uninterp spec fn value_text(value: serde_json::Value) -> Seq<u8>;

/// `serde_json::from_slice` into a `serde_json::Value`. The result is
/// named, not described: `json_parse` of the bytes is what the value holds,
/// and nothing where the call fails.
#[verifier::external_body]
fn parse_value(text: &[u8]) -> (value: Option<serde_json::Value>)
    ensures
        match value {
            Some(v) => json_parse(text@) == Some(value_json(v)),
            None => json_parse(text@) is None,
        },
{
    serde_json::from_slice::<serde_json::Value>(text).ok()
}

/// Copies a `serde_json::Value` into a `Json`, variant by variant, objects
/// in the order in which the value lists its members. What the copy holds
/// is what `value_json` names.
#[verifier::external_body]
fn from_value(value: &serde_json::Value) -> (json: Json)
    ensures
        json@ == value_json(*value),
{
    match value {
        serde_json::Value::Null => Json::Null,
        serde_json::Value::Bool(b) => Json::Bool(*b),
        serde_json::Value::Number(n) => n.as_u64().map(Json::UInt).or(n.as_i64().map(Json::Int)).unwrap_or(Json::Real),
        serde_json::Value::String(s) => Json::Str(s.clone()),
        serde_json::Value::Array(a) => Json::Array(a.iter().map(from_value).collect()),
        serde_json::Value::Object(o) => Json::Object(o.iter().map(|(k, v)| (k.clone(), from_value(v))).collect()),
    }
}

/// Copies a `Json` into a `serde_json::Value`, variant by variant; `Real`
/// becomes null. The text of the copy is what `json_text` names.
#[verifier::external_body]
fn to_value(json: &Json) -> (value: serde_json::Value)
    ensures
        value_text(value) == json_text(json@),
{
    match json {
        Json::Null | Json::Real => serde_json::Value::Null,
        Json::Bool(b) => serde_json::Value::Bool(*b),
        Json::UInt(n) => serde_json::Value::from(*n),
        Json::Int(n) => serde_json::Value::from(*n),
        Json::Str(s) => serde_json::Value::String(s.clone()),
        Json::Array(a) => serde_json::Value::Array(a.iter().map(to_value).collect()),
        Json::Object(o) => serde_json::Value::Object(o.iter().map(|(k, v)| (k.clone(), to_value(v))).collect()),
    }
}

/// `serde_json::to_vec` of a `serde_json::Value`. The result is named, not
/// described: `value_text` of the value. One thing is said of it: it holds
/// no line feed, because the compact form has no white space between its
/// parts and writes a line feed inside a string as the two characters `\n`.
#[verifier::external_body]
fn print_value(value: &serde_json::Value) -> (text: Vec<u8>)
    ensures
        text@ == value_text(*value),
        !text@.contains(10u8),
{
    serde_json::to_vec(value).unwrap_or_default()
}

/// The value that a text is, where it is JSON.
pub fn parse(text: &[u8]) -> (json: Option<Json>)
    ensures
        match json {
            Some(j) => json_parse(text@) == Some(j@),
            None => json_parse(text@) is None,
        },
{
    match parse_value(text) {
        Some(value) => Some(from_value(&value)),
        None => None,
    }
}

/// The text of a value, in compact form. It holds no line feed.
pub fn print(json: &Json) -> (text: Vec<u8>)
    ensures
        text@ == json_text(json@),
        !text@.contains(10u8),
{
    let value = to_value(json);
    print_value(&value)
}

} // verus!

