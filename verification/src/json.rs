//! JSON documents as the service and the release index send them.
//!
//! [`Json`] is a tree of plain values that the rest of the library reads and
//! builds. Turning bytes into a tree and a tree into text is `serde_json`'s
//! work: the functions that call it are trusted, and what they return is
//! named by [`json_document`], [`json_text`] and [`json_pretty_text`].

use crate::text::same_text;
use vstd::prelude::*;

verus! {

/// `serde_json::Number`, carried through unread.
#[verifier::external_type_specification]
#[verifier::external_body]
pub struct ExNumber(serde_json::Number);

/// `serde_json::Value`, which only the conversions below handle.
#[verifier::external_type_specification]
#[verifier::external_body]
pub struct ExValue(serde_json::Value);

/// `serde_json::Error`, carried through unread.
#[verifier::external_type_specification]
#[verifier::external_body]
pub struct ExError(serde_json::Error);

/// A JSON value. An object keeps its members as a list.
#[derive(Debug, PartialEq)]
pub enum Json {
    Null,
    Bool(bool),
    Number(serde_json::Number),
    Text(String),
    Array(Vec<Json>),
    Object(Vec<Member>),
}

/// A member of a JSON object.
#[derive(Debug, PartialEq)]
pub struct Member {
    pub key: String,
    pub value: Json,
}

/// The mathematical value of a [`Json`] tree.
pub enum JsonView {
    Null,
    Bool(bool),
    Number(serde_json::Number),
    Text(Seq<char>),
    Array(Seq<JsonView>),
    Object(Seq<MemberView>),
}

/// The mathematical value of a [`Member`].
pub struct MemberView {
    pub key: Seq<char>,
    pub value: JsonView,
}

impl View for Json {
    type V = JsonView;

    open spec fn view(&self) -> JsonView
        decreases self,
    {
        match self {
            Json::Null => JsonView::Null,
            Json::Bool(b) => JsonView::Bool(*b),
            Json::Number(n) => JsonView::Number(*n),
            Json::Text(s) => JsonView::Text(s@),
            Json::Array(items) => JsonView::Array(
                Seq::new(
                    items@.len(),
                    |i: int|
                        if 0 <= i < items@.len() {
                            items@[i]@
                        } else {
                            JsonView::Null
                        },
                ),
            ),
            Json::Object(members) => JsonView::Object(
                Seq::new(
                    members@.len(),
                    |i: int|
                        if 0 <= i < members@.len() {
                            MemberView { key: members@[i].key@, value: members@[i].value@ }
                        } else {
                            MemberView { key: Seq::empty(), value: JsonView::Null }
                        },
                ),
            ),
        }
    }
}

impl View for Member {
    type V = MemberView;

    open spec fn view(&self) -> MemberView {
        MemberView { key: self.key@, value: self.value@ }
    }
}

impl Member {
    /// The member that gives `value` the name `key`.
    pub fn new(key: &str, value: Json) -> (r: Member)
        ensures
            r@ == (MemberView { key: key@, value: value@ }),
    {
        Member { key: key.to_owned(), value }
    }
}

/// The values of a list of trees.
pub open spec fn views(items: Seq<Json>) -> Seq<JsonView> {
    Seq::new(items.len(), |i: int| items[i]@)
}

/// The values of a list of members.
pub open spec fn member_views(members: Seq<Member>) -> Seq<MemberView> {
    Seq::new(members.len(), |i: int| members[i]@)
}

/// The value under the first member named `key`.
pub open spec fn lookup(members: Seq<MemberView>, key: Seq<char>) -> Option<JsonView>
    decreases members.len(),
{
    if members.len() == 0 {
        None
    } else if members[0].key == key {
        Some(members[0].value)
    } else {
        lookup(members.drop_first(), key)
    }
}

impl JsonView {
    /// The characters of a string; `None` for any other value.
    pub open spec fn text(self) -> Option<Seq<char>> {
        match self {
            JsonView::Text(s) => Some(s),
            _ => None,
        }
    }

    /// The truth value of a boolean; `None` for any other value.
    pub open spec fn flag(self) -> Option<bool> {
        match self {
            JsonView::Bool(b) => Some(b),
            _ => None,
        }
    }

    /// The elements of an array; `None` for any other value.
    pub open spec fn items(self) -> Option<Seq<JsonView>> {
        match self {
            JsonView::Array(items) => Some(items),
            _ => None,
        }
    }

    /// The member of an object named `key`; `None` where there is none and for any other value.
    pub open spec fn member(self, key: Seq<char>) -> Option<JsonView> {
        match self {
            JsonView::Object(members) => lookup(members, key),
            _ => None,
        }
    }

    /// What indexing by `key` yields: the member, or `Null` in its absence.
    pub open spec fn at(self, key: Seq<char>) -> JsonView {
        match self.member(key) {
            Some(v) => v,
            None => JsonView::Null,
        }
    }
}

/// The view of an array is the list of its elements' views, that of an object the list of its
/// members' views.
pub proof fn lemma_view(j: Json)
    ensures
        j matches Json::Array(items) ==> j@ == JsonView::Array(views(items@)),
        j matches Json::Object(members) ==> j@ == JsonView::Object(member_views(members@)),
{
    match j {
        Json::Array(items) => {
            assert(j@->Array_0 =~= views(items@));
        },
        Json::Object(members) => {
            assert(j@->Object_0 =~= member_views(members@));
        },
        _ => {},
    }
}

impl Json {
    /// A JSON string.
    pub fn text(s: &str) -> (r: Json)
        ensures
            r@ == JsonView::Text(s@),
    {
        Json::Text(s.to_owned())
    }

    /// A JSON array of these elements.
    pub fn array(items: Vec<Json>) -> (r: Json)
        ensures
            r@ == JsonView::Array(views(items@)),
    {
        let r = Json::Array(items);
        proof {
            lemma_view(r);
        }
        r
    }

    /// A JSON object of these members.
    pub fn object(members: Vec<Member>) -> (r: Json)
        ensures
            r@ == JsonView::Object(member_views(members@)),
    {
        let r = Json::Object(members);
        proof {
            lemma_view(r);
        }
        r
    }

    /// The string that this value is, if it is one.
    pub fn as_str(&self) -> (r: Option<&str>)
        ensures
            match r {
                Some(s) => self@.text() == Some(s@),
                None => self@.text() is None,
            },
    {
        match self {
            Json::Text(s) => Some(s.as_str()),
            _ => None,
        }
    }

    /// The boolean that this value is, if it is one.
    pub fn as_bool(&self) -> (r: Option<bool>)
        ensures
            r == self@.flag(),
    {
        match self {
            Json::Bool(b) => Some(*b),
            _ => None,
        }
    }

    /// The elements of this value, if it is an array.
    pub fn as_array(&self) -> (r: Option<&Vec<Json>>)
        ensures
            match r {
                Some(items) => self@.items() == Some(views(items@)),
                None => self@.items() is None,
            },
    {
        proof {
            lemma_view(*self);
        }
        match self {
            Json::Array(items) => Some(items),
            _ => None,
        }
    }

    /// The member named `key`, if this value is an object that has one.
    pub fn get(&self, key: &str) -> (r: Option<&Json>)
        ensures
            match r {
                Some(v) => self@.member(key@) == Some(v@),
                None => self@.member(key@) is None,
            },
    {
        proof {
            lemma_view(*self);
        }
        match self {
            Json::Object(members) => {
                let ghost all = member_views(members@);
                let mut i: usize = 0;
                assert(all.skip(0) =~= all);
                while i < members.len()
                    invariant
                        i <= members.len(),
                        all == member_views(members@),
                        self@ == JsonView::Object(all),
                        lookup(all, key@) == lookup(all.skip(i as int), key@),
                    decreases members.len() - i,
                {
                    assert(all.skip(i as int).drop_first() =~= all.skip(i + 1));
                    assert(all.skip(i as int)[0] == members@[i as int]@);
                    if same_text(members[i].key.as_str(), key) {
                        return Some(&members[i].value);
                    }
                    i += 1;
                }
                None
            },
            _ => None,
        }
    }
}

/// The document that `serde_json` reads from `body`: `None` where it reports an error.
pub uninterp spec fn json_document(body: Seq<u8>) -> Option<JsonView>;

/// The compact text that `serde_json` writes for a value.
pub uninterp spec fn json_text(value: JsonView) -> Seq<char>;

/// The indented text that `serde_json` writes for a value: `None` where it reports an error.
pub uninterp spec fn json_pretty_text(value: JsonView) -> Option<Seq<char>>;

/// Moves a `serde_json::Value` into a tree, variant by variant; the members of an object come
/// in the order in which `serde_json::Map` hands them out.
#[verifier::external_body]
fn tree_of_value(value: serde_json::Value) -> Json {
    match value {
        serde_json::Value::Null => Json::Null,
        serde_json::Value::Bool(b) => Json::Bool(b),
        serde_json::Value::Number(n) => Json::Number(n),
        serde_json::Value::String(s) => Json::Text(s),
        serde_json::Value::Array(items) => Json::Array(items.into_iter().map(tree_of_value).collect()),
        serde_json::Value::Object(members) => Json::Object(
            members.into_iter().map(|(key, v)| Member { key, value: tree_of_value(v) }).collect(),
        ),
    }
}

/// Copies a tree into a `serde_json::Value`, variant by variant; the members of an object are
/// collected into a `serde_json::Map`.
#[verifier::external_body]
fn value_of_tree(tree: &Json) -> serde_json::Value {
    match tree {
        Json::Null => serde_json::Value::Null,
        Json::Bool(b) => serde_json::Value::Bool(*b),
        Json::Number(n) => serde_json::Value::Number(n.clone()),
        Json::Text(s) => serde_json::Value::String(s.clone()),
        Json::Array(items) => serde_json::Value::Array(items.iter().map(value_of_tree).collect()),
        Json::Object(members) => serde_json::Value::Object(
            members.iter().map(|m| (m.key.clone(), value_of_tree(&m.value))).collect(),
        ),
    }
}

/// `serde_json::from_slice`, read as a `Value`: the document in `body`, or the error that
/// `serde_json` reports for bytes that are no JSON document.
#[verifier::external_body]
fn from_slice(body: &[u8]) -> (r: Result<Json, serde_json::Error>)
    ensures
        match r {
            Ok(doc) => json_document(body@) == Some(doc@),
            Err(_) => json_document(body@) is None,
        },
{
    serde_json::from_slice::<serde_json::Value>(body).map(tree_of_value)
}

/// The `Display` of `serde_json::Value`: the value as compact JSON text.
#[verifier::external_body]
fn display(value: &Json) -> (r: String)
    ensures
        r@ == json_text(value@),
{
    value_of_tree(value).to_string()
}

/// `serde_json::to_string_pretty`: the value as indented JSON text.
#[verifier::external_body]
fn to_string_pretty(value: &Json) -> (r: Result<String, serde_json::Error>)
    ensures
        match r {
            Ok(s) => json_pretty_text(value@) == Some(s@),
            Err(_) => json_pretty_text(value@) is None,
        },
{
    serde_json::to_string_pretty(&value_of_tree(value))
}

/// A body that is no JSON document, with what `serde_json` has to say of it.
#[derive(Debug)]
pub struct ParseFailure {
    pub cause: serde_json::Error,
}

impl Json {
    /// Reads a document from the bytes of a response.
    pub fn parse(body: &[u8]) -> (r: Result<Json, ParseFailure>)
        ensures
            match r {
                Ok(doc) => json_document(body@) == Some(doc@),
                Err(_) => json_document(body@) is None,
            },
    {
        match from_slice(body) {
            Ok(doc) => Ok(doc),
            Err(cause) => Err(ParseFailure { cause }),
        }
    }

    /// The value as compact JSON text.
    pub fn render(&self) -> (r: String)
        ensures
            r@ == json_text(self@),
    {
        display(self)
    }

    /// The value as indented JSON text.
    pub fn render_pretty(&self) -> (r: Result<String, ParseFailure>)
        ensures
            match r {
                Ok(s) => json_pretty_text(self@) == Some(s@),
                Err(_) => json_pretty_text(self@) is None,
            },
    {
        match to_string_pretty(self) {
            Ok(s) => Ok(s),
            Err(cause) => Err(ParseFailure { cause }),
        }
    }
}

} // verus!
