//! The JSON boundary: documents are rendered and read by `serde_json`; the library sees
//! an object as its members, each of them null, a string, or something else.

use vstd::prelude::*;

verus! {

/// A parsed JSON document, as `serde_json` holds it.
#[verifier::external_type_specification]
#[verifier::external_body]
pub struct ExJsonValue(serde_json::Value);

/// The error of `serde_json`.
#[verifier::external_type_specification]
#[verifier::external_body]
pub struct ExJsonError(serde_json::Error);

/// What a member of a JSON object holds, as far as the library reads it.
#[derive(Debug)]
pub enum JsonField {
    /// `null`.
    Null,
    /// A string.
    Text(String),
    /// A boolean, a number, an array or an object.
    Other,
}

/// The mathematical view of a [`JsonField`].
pub enum JsonFieldView {
    Null,
    Text(Seq<char>),
    Other,
}

impl View for JsonField {
    type V = JsonFieldView;

    open spec fn view(&self) -> JsonFieldView {
        match self {
            JsonField::Null => JsonFieldView::Null,
            JsonField::Text(s) => JsonFieldView::Text(s@),
            JsonField::Other => JsonFieldView::Other,
        }
    }
}

/// The view of a member that may be missing.
pub open spec fn member_view(m: Option<JsonField>) -> Option<JsonFieldView> {
    match m {
        Some(f) => Some(f@),
        None => None,
    }
}

/// The member of `members` under `key`, if there is one.
pub open spec fn lookup(members: Map<Seq<char>, JsonFieldView>, key: Seq<char>) -> Option<
    JsonFieldView,
> {
    if members.contains_key(key) {
        Some(members[key])
    } else {
        None
    }
}

/// How an optional string is written as a JSON value: the string, or `null`.
pub open spec fn field_of(value: Option<Seq<char>>) -> JsonFieldView {
    match value {
        Some(text) => JsonFieldView::Text(text),
        None => JsonFieldView::Null,
    }
}

/// The object that a list of members makes: each key with its value; where a key comes
/// twice, the later value stands.
pub open spec fn object_of(members: Seq<(Seq<char>, Option<Seq<char>>)>) -> Map<
    Seq<char>,
    JsonFieldView,
>
    decreases members.len(),
{
    if members.len() == 0 {
        Map::empty()
    } else {
        object_of(members.drop_last()).insert(members.last().0, field_of(members.last().1))
    }
}

/// In the object that a list of members makes, a key whose later members all have other
/// keys holds the value it was listed with.
pub proof fn lemma_object_of_holds(members: Seq<(Seq<char>, Option<Seq<char>>)>, i: int)
    requires
        0 <= i < members.len(),
        forall|j: int| i < j < members.len() ==> members[j].0 != members[i].0,
    ensures
        lookup(object_of(members), members[i].0) == Some(field_of(members[i].1)),
    decreases members.len(),
{
    if i < members.len() - 1 {
        let front = members.drop_last();
        assert(front[i] == members[i]);
        assert forall|j: int| i < j < front.len() implies front[j].0 != front[i].0 by {
            assert(front[j] == members[j]);
        }
        lemma_object_of_holds(front, i);
        assert(members.last().0 != members[i].0);
    }
}

/// The view of a list of members: keys and values as sequences of characters.
pub open spec fn members_view(members: Seq<(String, Option<String>)>) -> Seq<
    (Seq<char>, Option<Seq<char>>),
> {
    Seq::new(members.len(), |i: int| (members[i].0@, crate::text::opt_view(members[i].1)))
}

/// The members of a parsed document: for a JSON object, each key with what it holds;
/// for any other document, no member at all.
pub uninterp spec fn json_members(doc: serde_json::Value) -> Map<Seq<char>, JsonFieldView>;

/// What `serde_json` reads from a text: the members of the document, or nothing where
/// the text is not JSON.
pub uninterp spec fn json_document(text: Seq<char>) -> Option<Map<Seq<char>, JsonFieldView>>;

/// The text that `serde_json` writes for an object with the given members, or nothing
/// where it refuses.
pub uninterp spec fn json_object_text(members: Seq<(Seq<char>, Option<Seq<char>>)>) -> Option<
    Seq<char>,
>;

/// Calls `serde_json::from_str` for a `serde_json::Value`. Trusted: the call succeeds
/// exactly on the texts that `json_document` reads, and the value it returns has the
/// members that `json_document` gives.
#[verifier::external_body]
pub(crate) fn parse_document(text: &str) -> (res: Result<serde_json::Value, serde_json::Error>)
    ensures
        res is Ok <==> json_document(text@) is Some,
        res matches Ok(doc) ==> json_document(text@) == Some(json_members(doc)),
{
    serde_json::from_str::<serde_json::Value>(text)
}

/// Calls `serde_json::Value::get` with a string key. Trusted: it finds the member of an
/// object under that key and nothing in any other document; `null` and strings come back
/// as they are, every other kind of value as `Other`.
#[verifier::external_body]
pub(crate) fn member(doc: &serde_json::Value, key: &str) -> (res: Option<JsonField>)
    ensures
        member_view(res) == lookup(json_members(*doc), key@),
{
    match doc.get(key) {
        None => None,
        Some(serde_json::Value::Null) => Some(JsonField::Null),
        Some(serde_json::Value::String(s)) => Some(JsonField::Text(s.clone())),
        Some(serde_json::Value::Bool(_)) => Some(JsonField::Other),
        Some(serde_json::Value::Number(_)) => Some(JsonField::Other),
        Some(serde_json::Value::Array(_)) => Some(JsonField::Other),
        Some(serde_json::Value::Object(_)) => Some(JsonField::Other),
    }
}

/// Calls `serde_json::to_string` on a `serde_json::Value::Object` filled, in order, with
/// the given members (a missing value as `null`). Trusted: the text is the one that
/// `json_object_text` names, and `serde_json` reads that text back as the same object.
#[verifier::external_body]
pub(crate) fn object_text(members: &Vec<(String, Option<String>)>) -> (res: Result<
    String,
    serde_json::Error,
>)
    ensures
        res is Ok <==> json_object_text(members_view(members@)) is Some,
        res matches Ok(text) ==> {
            &&& json_object_text(members_view(members@)) == Some(text@)
            &&& json_document(text@) == Some(object_of(members_view(members@)))
        },
{
    let mut object = serde_json::Map::new();
    for (key, value) in members.iter() {
        let field = match value {
            Some(text) => serde_json::Value::String(text.clone()),
            None => serde_json::Value::Null,
        };
        object.insert(key.clone(), field);
    }
    serde_json::to_string(&serde_json::Value::Object(object))
}

} // verus!
