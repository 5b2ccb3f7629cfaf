//! JSON documents as plain data.
//!
//! `serde_json` reads a document; [`Json`] holds what it read, so that the rest of the library
//! can look into it.

use crate::text::{opt_text, same_text};
use serde_json::Value;
use vstd::prelude::*;

verus! {

/// A JSON document.
///
/// A number keeps its text, and its value where that is an integer of 64 bits with sign.
pub enum Json {
    Null,
    Bool(bool),
    Number { integer: Option<i64>, text: String },
    Str(String),
    Array(Vec<Json>),
    Object(Vec<(String, Json)>),
}

/// What a [`Json`] says, with sequences in the place of vectors and strings.
pub enum JsonView {
    Null,
    Bool(bool),
    Number { integer: Option<i64>, text: Seq<char> },
    Str(Seq<char>),
    Array(Seq<JsonView>),
    Object(Seq<(Seq<char>, JsonView)>),
}

/// The view of a document.
pub open spec fn json_view(j: Json) -> JsonView
    decreases j,
{
    match j {
        Json::Null => JsonView::Null,
        Json::Bool(b) => JsonView::Bool(b),
        Json::Number { integer, text } => JsonView::Number { integer, text: text@ },
        Json::Str(s) => JsonView::Str(s@),
        Json::Array(items) => JsonView::Array(
            Seq::new(
                items@.len(),
                |i: int|
                    if 0 <= i < items@.len() {
                        json_view(items@[i])
                    } else {
                        JsonView::Null
                    },
            ),
        ),
        Json::Object(members) => JsonView::Object(
            Seq::new(
                members@.len(),
                |i: int|
                    if 0 <= i < members@.len() {
                        (members@[i].0@, json_view(members@[i].1))
                    } else {
                        (Seq::empty(), JsonView::Null)
                    },
            ),
        ),
    }
}

/// Whether no two members have the same key.
pub open spec fn keys_differ(members: Seq<(Seq<char>, JsonView)>) -> bool {
    forall|i: int, k: int|
        0 <= i < k < members.len() ==> (#[trigger] members[i]).0 != (#[trigger] members[k]).0
}

/// Whether no object in the document has two members with the same key.
pub open spec fn keys_once(j: JsonView) -> bool
    decreases j,
{
    match j {
        JsonView::Array(items) => forall|i: int|
            0 <= i < items.len() ==> keys_once(#[trigger] items[i]),
        JsonView::Object(members) => keys_differ(members) && forall|i: int|
            0 <= i < members.len() ==> keys_once((#[trigger] members[i]).1),
        _ => true,
    }
}

impl View for Json {
    type V = JsonView;

    open spec fn view(&self) -> JsonView {
        json_view(*self)
    }
}

/// `serde_json`'s own document type, carried from its parser to [`Json`].
#[verifier::external_type_specification]
#[verifier::external_body]
pub struct ExValue(Value);

/// One level of a `serde_json` document.
enum Node<'a> {
    Null,
    Bool(bool),
    Number { integer: Option<i64>, text: String },
    Str(&'a String),
    Array(&'a Vec<Value>),
    Object(Vec<(&'a String, &'a Value)>),
}

/// The document that a `serde_json` value holds.
pub uninterp spec fn value_json(v: Value) -> JsonView;

/// The document that `serde_json` reads in a text, or nothing where the text is not JSON.
pub uninterp spec fn json_of_text(text: Seq<char>) -> Option<JsonView>;

/// The document that `serde_json` reads in a run of bytes, or nothing where they are not JSON.
pub uninterp spec fn json_of_bytes(bytes: Seq<u8>) -> Option<JsonView>;

/// The document whose top level is `node`.
spec fn node_json(node: Node) -> JsonView {
    match node {
        Node::Null => JsonView::Null,
        Node::Bool(b) => JsonView::Bool(b),
        Node::Number { integer, text } => JsonView::Number { integer, text: text@ },
        Node::Str(s) => JsonView::Str(s@),
        Node::Array(items) => JsonView::Array(
            Seq::new(items@.len(), |i: int| value_json(items@[i])),
        ),
        Node::Object(members) => JsonView::Object(
            Seq::new(members@.len(), |i: int| (members@[i].0@, value_json(*members@[i].1))),
        ),
    }
}

/// Calls `serde_json::from_str` for a `Value`. It gives a value, which holds the document that
/// is read in the text, exactly where the text is JSON.
#[verifier::external_body]
fn value_of_text(text: &str) -> (r: Option<Value>)
    ensures
        r is Some == json_of_text(text@) is Some,
        r matches Some(v) ==> value_json(v) == json_of_text(text@)->0,
{
    serde_json::from_str::<Value>(text).ok()
}

/// Calls `serde_json::from_slice` for a `Value`. It gives a value, which holds the document
/// that is read in the bytes, exactly where the bytes are JSON.
#[verifier::external_body]
fn value_of_bytes(bytes: &[u8]) -> (r: Option<Value>)
    ensures
        r is Some == json_of_bytes(bytes@) is Some,
        r matches Some(v) ==> value_json(v) == json_of_bytes(bytes@)->0,
{
    serde_json::from_slice::<Value>(bytes).ok()
}

/// Tells the variants of `serde_json::Value` apart, and reads a number through
/// `Number::as_i64` and its `Display`. The level it gives is the top of the document that the
/// value holds; a `Map` holds each of its keys once.
#[verifier::external_body]
fn open_value<'a>(v: &'a Value) -> (node: Node<'a>)
    ensures
        node_json(node) == value_json(*v),
        node_json(node) matches JsonView::Object(members) ==> keys_differ(members),
{
    match v {
        Value::Null => Node::Null,
        Value::Bool(b) => Node::Bool(*b),
        Value::Number(n) => Node::Number { integer: n.as_i64(), text: n.to_string() },
        Value::String(s) => Node::Str(s),
        Value::Array(items) => Node::Array(items),
        Value::Object(members) => Node::Object(members.iter().collect()),
    }
}

/// Copies a `serde_json` document.
fn json_of_value(v: &Value) -> (j: Json)
    ensures
        j@ == value_json(*v),
        keys_once(j@),
    decreases value_json(*v),
{
    match open_value(v) {
        Node::Null => Json::Null,
        Node::Bool(b) => Json::Bool(b),
        Node::Number { integer, text } => Json::Number { integer, text },
        Node::Str(s) => Json::Str(s.clone()),
        Node::Array(items) => {
            let mut out: Vec<Json> = Vec::new();
            let n: usize = items.len();
            for i in 0..n
                invariant
                    n == items@.len(),
                    value_json(*v) == node_json(Node::Array(items)),
                    out@.len() == i,
                    forall|k: int|
                        0 <= k < i ==> (#[trigger] out@[k])@ == value_json(items@[k]) && keys_once(
                            out@[k]@,
                        ),
            {
                let ghost level = value_json(*v)->Array_0;
                assert(level[i as int] == value_json(items@[i as int]));
                out.push(json_of_value(&items[i]));
            }
            let j = Json::Array(out);
            assert(j@->Array_0 =~= value_json(*v)->Array_0);
            j
        },
        Node::Object(members) => {
            let mut out: Vec<(String, Json)> = Vec::new();
            let n: usize = members.len();
            for i in 0..n
                invariant
                    n == members@.len(),
                    value_json(*v) == node_json(Node::Object(members)),
                    keys_differ(value_json(*v)->Object_0),
                    out@.len() == i,
                    forall|k: int|
                        0 <= k < i ==> (#[trigger] out@[k]).0@ == members@[k].0@ && out@[k].1@
                            == value_json(*members@[k].1) && keys_once(out@[k].1@),
            {
                let ghost level = value_json(*v)->Object_0;
                assert(level[i as int] == (members@[i as int].0@, value_json(*members@[i as int].1)));
                assert(decreases_to!(value_json(*v) => level));
                assert(decreases_to!(level => level[i as int]));
                assert(decreases_to!(level[i as int] => level[i as int].1));
                let (key, value) = members[i];
                out.push((key.clone(), json_of_value(value)));
            }
            let j = Json::Object(out);
            assert(j@->Object_0 =~= value_json(*v)->Object_0);
            j
        },
    }
}

/// The view of an optional document.
pub open spec fn opt_json(j: Option<Json>) -> Option<JsonView> {
    match j {
        Some(j) => Some(j@),
        None => None,
    }
}

/// Reads a text as JSON.
pub fn parse_text(text: &str) -> (r: Option<Json>)
    ensures
        opt_json(r) == json_of_text(text@),
        r matches Some(j) ==> keys_once(j@),
{
    match value_of_text(text) {
        Some(v) => Some(json_of_value(&v)),
        None => None,
    }
}

/// Reads a run of bytes as JSON.
pub fn parse_bytes(bytes: &[u8]) -> (r: Option<Json>)
    ensures
        opt_json(r) == json_of_bytes(bytes@),
        r matches Some(j) ==> keys_once(j@),
{
    match value_of_bytes(bytes) {
        Some(v) => Some(json_of_value(&v)),
        None => None,
    }
}

/// The value of the first member with the given key.
pub open spec fn first_member(members: Seq<(Seq<char>, JsonView)>, key: Seq<char>) -> Option<
    JsonView,
>
    decreases members.len(),
{
    if members.len() == 0 {
        None
    } else if members[0].0 == key {
        Some(members[0].1)
    } else {
        first_member(members.drop_first(), key)
    }
}

impl JsonView {
    /// The member of an object with the given key. Other documents have no members.
    pub open spec fn member(self, key: Seq<char>) -> Option<JsonView> {
        match self {
            JsonView::Object(members) => first_member(members, key),
            _ => None,
        }
    }

    /// The text of a string.
    pub open spec fn text(self) -> Option<Seq<char>> {
        match self {
            JsonView::Str(s) => Some(s),
            _ => None,
        }
    }

    /// The value of an integer number.
    pub open spec fn integer(self) -> Option<i64> {
        match self {
            JsonView::Number { integer, .. } => integer,
            _ => None,
        }
    }

    /// The text of the member with the given key, where that member is a string.
    pub open spec fn member_text(self, key: Seq<char>) -> Option<Seq<char>> {
        match self.member(key) {
            Some(j) => j.text(),
            None => None,
        }
    }

    /// The value of the member with the given key, where that member is an integer number.
    pub open spec fn member_integer(self, key: Seq<char>) -> Option<i64> {
        match self.member(key) {
            Some(j) => j.integer(),
            None => None,
        }
    }
}

/// Finds the first member with the given key.
fn find_member(members: &Vec<(String, Json)>, key: &str) -> (r: Option<usize>)
    ensures
        match r {
            Some(i) => i < members@.len() && first_member(
                json_view(Json::Object(*members))->Object_0,
                key@,
            ) == Some(members@[i as int].1@),
            None => first_member(json_view(Json::Object(*members))->Object_0, key@) is None,
        },
{
    let ghost all = json_view(Json::Object(*members))->Object_0;
    let n: usize = members.len();
    let mut i: usize = 0;
    proof {
        assert(all.skip(0) =~= all);
    }
    while i < n
        invariant
            i <= n,
            n == members@.len(),
            all == json_view(Json::Object(*members))->Object_0,
            first_member(all, key@) == first_member(all.skip(i as int), key@),
        decreases n - i,
    {
        assert(all.skip(i as int)[0] == all[i as int]);
        if same_text(members[i].0.as_str(), key) {
            return Some(i);
        }
        assert(all.skip(i as int).drop_first() =~= all.skip(i + 1));
        i += 1;
    }
    None
}

impl Json {
    /// The member of an object with the given key. Other documents have no members.
    pub fn member(&self, key: &str) -> (r: Option<&Json>)
        ensures
            match r {
                Some(j) => self@.member(key@) == Some(j@),
                None => self@.member(key@) is None,
            },
    {
        match self {
            Json::Object(members) => match find_member(members, key) {
                Some(i) => Some(&members[i].1),
                None => None,
            },
            _ => None,
        }
    }

    /// Takes the member with the given key out of an object.
    pub fn take_member(self, key: &str) -> (r: Option<Json>)
        ensures
            opt_json(r) == self@.member(key@),
    {
        match self {
            Json::Object(members) => {
                let mut members = members;
                match find_member(&members, key) {
                    Some(i) => Some(members.swap_remove(i).1),
                    None => None,
                }
            },
            _ => None,
        }
    }

    /// The text of a string.
    pub fn text(&self) -> (r: Option<String>)
        ensures
            opt_text(r) == self@.text(),
    {
        match self {
            Json::Str(s) => Some(s.clone()),
            _ => None,
        }
    }

    /// The text of the member with the given key, where that member is a string.
    pub fn member_text(&self, key: &str) -> (r: Option<String>)
        ensures
            opt_text(r) == self@.member_text(key@),
    {
        match self.member(key) {
            Some(j) => j.text(),
            None => None,
        }
    }

    /// The value of the member with the given key, where that member is an integer number.
    pub fn member_integer(&self, key: &str) -> (r: Option<i64>)
        ensures
            r == self@.member_integer(key@),
    {
        match self.member(key) {
            Some(Json::Number { integer, .. }) => *integer,
            _ => None,
        }
    }
}

} // verus!
