//! JSON documents as a tree of plain values.

use vstd::prelude::*;
use crate::text::same_text;

verus! {

/// `serde_json::Value`, of which nothing is known here: it is only handed
/// from the reader to the copy.
#[verifier::external_type_specification]
#[verifier::external_body]
pub struct ExValue(serde_json::Value);

/// One member of a JSON object.
#[derive(Debug, PartialEq)]
pub struct Member {
    pub key: String,
    pub value: Json,
}

/// A JSON document. A number is kept as its decimal text.
#[derive(Debug, PartialEq)]
pub enum Json {
    Null,
    Bool(bool),
    Number(String),
    Text(String),
    Array(Vec<Json>),
    Object(Vec<Member>),
}

/// One member of a JSON object as a mathematical value.
pub struct Field {
    pub key: Seq<char>,
    pub value: Document,
}

/// A JSON document as a mathematical value.
pub enum Document {
    Null,
    Bool(bool),
    Number(Seq<char>),
    Text(Seq<char>),
    Array(Seq<Document>),
    Object(Seq<Field>),
}

/// The first of `fields` whose key is `key`, from position `from` on.
pub open spec fn find_field(fields: Seq<Field>, key: Seq<char>, from: int) -> Option<Document>
    decreases fields.len() - from,
{
    if from < 0 || from >= fields.len() {
        None
    } else if fields[from].key == key {
        Some(fields[from].value)
    } else {
        find_field(fields, key, from + 1)
    }
}

impl Document {
    /// The member `key` of an object; `None` for a missing key and for anything
    /// that is not an object.
    pub open spec fn member(self, key: Seq<char>) -> Option<Document> {
        match self {
            Document::Object(fields) => find_field(fields, key, 0),
            _ => None,
        }
    }

    /// The elements of an array; `None` for anything that is not an array.
    pub open spec fn elements(self) -> Option<Seq<Document>> {
        match self {
            Document::Array(items) => Some(items),
            _ => None,
        }
    }

    /// The characters of a string; `None` for anything that is not a string.
    pub open spec fn text(self) -> Option<Seq<char>> {
        match self {
            Document::Text(s) => Some(s),
            _ => None,
        }
    }
}

impl View for Json {
    type V = Document;

    open spec fn view(&self) -> Document
        decreases self,
    {
        match self {
            Json::Null => Document::Null,
            Json::Bool(b) => Document::Bool(*b),
            Json::Number(n) => Document::Number(n@),
            Json::Text(s) => Document::Text(s@),
            Json::Array(items) => Document::Array(
                Seq::new(
                    items@.len(),
                    |i: int|
                        if 0 <= i < items@.len() {
                            items@[i]@
                        } else {
                            Document::Null
                        },
                ),
            ),
            Json::Object(members) => Document::Object(
                Seq::new(
                    members@.len(),
                    |i: int|
                        if 0 <= i < members@.len() {
                            Field { key: members@[i].key@, value: members@[i].value@ }
                        } else {
                            Field { key: Seq::empty(), value: Document::Null }
                        },
                ),
            ),
        }
    }
}

/// The documents that a list of trees stands for.
pub open spec fn documents(items: Seq<Json>) -> Seq<Document> {
    Seq::new(items.len(), |i: int| items[i]@)
}

/// The document that `serde_json::from_slice` reads from `bytes` as a
/// `serde_json::Value`; `None` where it reports an error. A number stands in
/// it as the text that `serde_json::Number` displays, and the members of an
/// object in the order in which `serde_json::Map::iter` yields them.
pub uninterp spec fn json_document(bytes: Seq<u8>) -> Option<Document>;

/// Copies a `serde_json::Value` node by node: each variant becomes the variant
/// of `Json` that stands for it, a number becomes the text that
/// `serde_json::Number` displays, and the members of an object keep the order
/// in which `serde_json::Map::iter` yields them.
#[verifier::external_body]
fn tree_of(value: &serde_json::Value) -> Json {
    match value {
        serde_json::Value::Null => Json::Null,
        serde_json::Value::Bool(b) => Json::Bool(*b),
        serde_json::Value::Number(n) => Json::Number(n.to_string()),
        serde_json::Value::String(s) => Json::Text(s.clone()),
        serde_json::Value::Array(items) => Json::Array(items.iter().map(tree_of).collect()),
        serde_json::Value::Object(map) => Json::Object(
            map.iter().map(|(k, v)| Member { key: k.clone(), value: tree_of(v) }).collect(),
        ),
    }
}

/// Calls `serde_json::from_slice` for a `serde_json::Value`. The contract gives
/// the outcome its name and claims nothing else of it: the same bytes are read
/// as the same document every time.
#[verifier::external_body]
fn read_document(bytes: &[u8]) -> (r: Option<Json>)
    ensures
        match r {
            Some(doc) => json_document(bytes@) == Some(doc@),
            None => json_document(bytes@) is None,
        },
{
    match serde_json::from_slice::<serde_json::Value>(bytes) {
        Ok(value) => Some(tree_of(&value)),
        Err(_) => None,
    }
}

impl Json {
    /// Reads one JSON document from `bytes`; `None` where the bytes are not
    /// one well-formed document.
    pub fn parse(bytes: &[u8]) -> (r: Option<Json>)
        ensures
            match r {
                Some(doc) => json_document(bytes@) == Some(doc@),
                None => json_document(bytes@) is None,
            },
    {
        read_document(bytes)
    }

    /// Looks up a member of an object by key: the first one of that key.
    pub fn get(&self, key: &str) -> (r: Option<&Json>)
        ensures
            match r {
                Some(v) => self@.member(key@) == Some(v@),
                None => self@.member(key@) is None,
            },
    {
        match self {
            Json::Object(members) => {
                let mut i: usize = 0;
                while i < members.len()
                    invariant
                        i <= members.len(),
                        self@ is Object,
                        self@->Object_0.len() == members@.len(),
                        forall|j: int|
                            0 <= j < members@.len() ==> (#[trigger] self@->Object_0[j]) == (Field {
                                key: members@[j].key@,
                                value: members@[j].value@,
                            }),
                        self@.member(key@) == find_field(self@->Object_0, key@, i as int),
                    decreases members.len() - i,
                {
                    assert(self@->Object_0[i as int].key == members@[i as int].key@);
                    if same_text(members[i].key.as_str(), key) {
                        return Some(&members[i].value);
                    }
                    i += 1;
                }
                None
            },
            _ => None,
        }
    }

    /// The elements, if this is an array.
    pub fn as_array(&self) -> (r: Option<&Vec<Json>>)
        ensures
            match r {
                Some(items) => self@.elements() == Some(documents(items@)),
                None => self@.elements() is None,
            },
    {
        match self {
            Json::Array(items) => {
                assert(self@->Array_0 =~= documents(items@));
                Some(items)
            },
            _ => None,
        }
    }

    /// The text, if this is a string.
    pub fn as_str(&self) -> (r: Option<&str>)
        ensures
            match r {
                Some(s) => self@.text() == Some(s@),
                None => self@.text() is None,
            },
    {
        match self {
            Json::Text(s) => Some(s.as_str()),
            _ => None,
        }
    }
}

} // verus!
