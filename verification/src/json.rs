//! A JSON document as a tree of plain values, and the reading of one from
//! bytes.

use vstd::prelude::*;
use vstd::string::StringExecFns;

verus! {

/// One JSON value. An object keeps its members as a list of name and value.
#[derive(Debug, PartialEq, Eq)]
pub enum JsonValue {
    Null,
    Bool(bool),
    /// A number: its value where it is written as an integer from 0 to
    /// 2^64 - 1, nothing for any other number.
    Number(Option<u64>),
    Text(String),
    Array(Vec<JsonValue>),
    Object(Vec<(String, JsonValue)>),
}

/// What a `JsonValue` holds, with sequences for its texts and lists.
pub enum JsonTree {
    Null,
    Bool(bool),
    Number(Option<u64>),
    Text(Seq<char>),
    Array(Seq<JsonTree>),
    Object(Seq<(Seq<char>, JsonTree)>),
}

/// The tree that `v` holds.
pub open spec fn tree_of(v: JsonValue) -> JsonTree
    decreases v,
{
    match v {
        JsonValue::Null => JsonTree::Null,
        JsonValue::Bool(b) => JsonTree::Bool(b),
        JsonValue::Number(n) => JsonTree::Number(n),
        JsonValue::Text(s) => JsonTree::Text(s@),
        JsonValue::Array(items) => JsonTree::Array(
            Seq::new(
                items@.len(),
                |i: int|
                    if 0 <= i < items@.len() {
                        tree_of(items@[i])
                    } else {
                        JsonTree::Null
                    },
            ),
        ),
        JsonValue::Object(entries) => JsonTree::Object(
            Seq::new(
                entries@.len(),
                |i: int|
                    if 0 <= i < entries@.len() {
                        (entries@[i].0@, tree_of(entries@[i].1))
                    } else {
                        (Seq::empty(), JsonTree::Null)
                    },
            ),
        ),
    }
}

impl View for JsonValue {
    type V = JsonTree;

    open spec fn view(&self) -> JsonTree {
        tree_of(*self)
    }
}

/// The value of the first member called `name`, if there is one.
pub open spec fn first_named(members: Seq<(Seq<char>, JsonTree)>, name: Seq<char>) -> Option<
    JsonTree,
>
    decreases members.len(),
{
    if members.len() == 0 {
        None
    } else if members[0].0 == name {
        Some(members[0].1)
    } else {
        first_named(members.drop_first(), name)
    }
}

impl JsonTree {
    /// The member `name` of an object; nothing for a missing member and for a
    /// value that is no object.
    pub open spec fn member(self, name: Seq<char>) -> Option<JsonTree> {
        match self {
            JsonTree::Object(members) => first_named(members, name),
            _ => None,
        }
    }

    /// The characters of a text value; nothing for any other value.
    pub open spec fn text(self) -> Option<Seq<char>> {
        match self {
            JsonTree::Text(s) => Some(s),
            _ => None,
        }
    }

    /// The member `name` where it is a text.
    pub open spec fn member_text(self, name: Seq<char>) -> Option<Seq<char>> {
        match self.member(name) {
            Some(v) => v.text(),
            None => None,
        }
    }

    /// The member `name` where it may be left out: a missing member and `null`
    /// both stand for no text. Nothing where the member is of another kind.
    pub open spec fn member_optional_text(self, name: Seq<char>) -> Option<Option<Seq<char>>> {
        match self.member(name) {
            None => Some(None),
            Some(JsonTree::Null) => Some(None),
            Some(JsonTree::Text(s)) => Some(Some(s)),
            Some(_) => None,
        }
    }

    /// The member `name` where it is an integer from 0 to 2^32 - 1.
    pub open spec fn member_count(self, name: Seq<char>) -> Option<u32> {
        match self.member(name) {
            Some(JsonTree::Number(Some(n))) => if n <= u32::MAX {
                Some(n as u32)
            } else {
                None
            },
            _ => None,
        }
    }

    /// The member `name` where it is an array of texts.
    pub open spec fn member_texts(self, name: Seq<char>) -> Option<Seq<Seq<char>>> {
        match self.member(name) {
            Some(JsonTree::Array(items)) => if forall|i: int|
                0 <= i < items.len() ==> (#[trigger] items[i]).text() is Some {
                Some(Seq::new(items.len(), |i: int| items[i].text().unwrap()))
            } else {
                None
            },
            _ => None,
        }
    }
}

/// The members of an object as names and trees.
pub open spec fn member_views(entries: Seq<(String, JsonValue)>) -> Seq<(Seq<char>, JsonTree)> {
    Seq::new(entries.len(), |i: int| (entries[i].0@, entries[i].1@))
}

/// The items of an array as trees.
pub open spec fn item_views(items: Seq<JsonValue>) -> Seq<JsonTree> {
    Seq::new(items.len(), |i: int| items[i]@)
}

/// An object's view holds the views of its members, in their order.
pub proof fn lemma_object_view(entries: Vec<(String, JsonValue)>)
    ensures
        JsonValue::Object(entries)@ == JsonTree::Object(member_views(entries@)),
{
    assert(JsonValue::Object(entries)@->Object_0 =~= member_views(entries@));
}

/// An array's view holds the views of its items, in their order.
pub proof fn lemma_array_view(items: Vec<JsonValue>)
    ensures
        JsonValue::Array(items)@ == JsonTree::Array(item_views(items@)),
{
    assert(JsonValue::Array(items)@->Array_0 =~= item_views(items@));
}

/// Scans `entries` from the front for a member called `name`.
fn find_named<'a>(entries: &'a Vec<(String, JsonValue)>, name: &str) -> (found: Option<
    &'a JsonValue,
>)
    ensures
        match found {
            Some(v) => first_named(member_views(entries@), name@) == Some(v@),
            None => first_named(member_views(entries@), name@) is None,
        },
{
    let wanted = String::from_str(name);
    let ghost members = member_views(entries@);
    let mut i: usize = 0;
    proof {
        assert(members.skip(0) == members);
    }
    while i < entries.len()
        invariant
            i <= entries.len(),
            wanted@ == name@,
            members == member_views(entries@),
            first_named(members, name@) == first_named(members.skip(i as int), name@),
        decreases entries.len() - i,
    {
        proof {
            assert(members.skip(i as int)[0] == members[i as int]);
            assert(members.skip(i as int).drop_first() == members.skip(i as int + 1));
        }
        if entries[i].0 == wanted {
            return Some(&entries[i].1);
        }
        i += 1;
    }
    None
}

impl JsonValue {
    /// Looks up the member `name` of an object.
    pub fn get(&self, name: &str) -> (found: Option<&JsonValue>)
        ensures
            match found {
                Some(v) => self@.member(name@) == Some(v@),
                None => self@.member(name@) is None,
            },
    {
        match self {
            JsonValue::Object(entries) => {
                proof {
                    lemma_object_view(*entries);
                }
                find_named(entries, name)
            },
            _ => None,
        }
    }

    /// Copies the member `name` where it is a text.
    pub fn get_text(&self, name: &str) -> (found: Option<String>)
        ensures
            match found {
                Some(s) => self@.member_text(name@) == Some(s@),
                None => self@.member_text(name@) is None,
            },
    {
        match self.get(name) {
            Some(JsonValue::Text(s)) => Some(s.clone()),
            _ => None,
        }
    }

    /// Copies the member `name` where it may be left out. The outer `None`
    /// says that the member is there and is neither a text nor `null`.
    pub fn get_optional_text(&self, name: &str) -> (found: Option<Option<String>>)
        ensures
            match found {
                Some(Some(s)) => self@.member_optional_text(name@) == Some(Some(s@)),
                Some(None) => self@.member_optional_text(name@) == Some(None::<Seq<char>>),
                None => self@.member_optional_text(name@) is None,
            },
    {
        match self.get(name) {
            None => Some(None),
            Some(JsonValue::Null) => Some(None),
            Some(JsonValue::Text(s)) => Some(Some(s.clone())),
            Some(_) => None,
        }
    }

    /// Reads the member `name` where it is an integer from 0 to 2^32 - 1.
    pub fn get_count(&self, name: &str) -> (found: Option<u32>)
        ensures
            found == self@.member_count(name@),
    {
        match self.get(name) {
            Some(JsonValue::Number(Some(n))) => {
                if *n <= 0xffff_ffff {
                    Some(*n as u32)
                } else {
                    None
                }
            },
            _ => None,
        }
    }

    /// Copies the member `name` where it is an array of texts.
    pub fn get_texts(&self, name: &str) -> (found: Option<Vec<String>>)
        ensures
            match found {
                Some(list) => self@.member_texts(name@) == Some(list.deep_view()),
                None => self@.member_texts(name@) is None,
            },
    {
        match self.get(name) {
            Some(JsonValue::Array(items)) => {
                let ghost trees = item_views(items@);
                proof {
                    lemma_array_view(*items);
                }
                let mut list: Vec<String> = Vec::new();
                let mut i: usize = 0;
                while i < items.len()
                    invariant
                        i <= items.len(),
                        list.len() == i,
                        trees.len() == items@.len(),
                        forall|j: int| 0 <= j < items@.len() ==> trees[j] == (#[trigger] items@[j])@,
                        self@.member(name@) == Some(JsonTree::Array(trees)),
                        forall|j: int| 0 <= j < i ==> (#[trigger] trees[j]).text() == Some(list@[j]@),
                    decreases items.len() - i,
                {
                    match &items[i] {
                        JsonValue::Text(s) => {
                            list.push(s.clone());
                        },
                        _ => {
                            assert(trees[i as int].text() is None);
                            return None;
                        },
                    }
                    i += 1;
                }
                proof {
                    assert(list.deep_view() =~= Seq::new(
                        trees.len(),
                        |i: int| trees[i].text().unwrap(),
                    ));
                }
                Some(list)
            },
            _ => None,
        }
    }

    /// Reads one JSON document from `body`.
    pub fn parse(body: &[u8]) -> (doc: Option<JsonValue>)
        ensures
            match doc {
                Some(v) => json_document(body@) == Some(v@),
                None => json_document(body@) is None,
            },
    {
        match read_value(body) {
            Ok(value) => Some(copy_of(value)),
            Err(_) => None,
        }
    }
}

#[verifier::external_type_specification]
#[verifier::external_body]
pub struct ExJsonError(serde_json::Error);

#[verifier::external_type_specification]
#[verifier::external_body]
pub struct ExJsonTree(serde_json::Value);

/// The document that serde_json reads from `body`, where `body` is one
/// well-formed JSON text.
pub uninterp spec fn json_document(body: Seq<u8>) -> Option<JsonTree>;

/// What a `serde_json::Value` holds: its variants one for one, with a
/// number as `Number::as_u64` gives it and an object's members in the order
/// in which its map hands them out.
pub uninterp spec fn value_tree(value: serde_json::Value) -> JsonTree;

/// Calls `serde_json::from_slice` for a `serde_json::Value`. The contract
/// only names the outcome: `body` either is the document that the value
/// returned holds, or is no JSON document.
#[verifier::external_body]
fn read_value(body: &[u8]) -> (r: Result<serde_json::Value, serde_json::Error>)
    ensures
        match r {
            Ok(value) => json_document(body@) == Some(value_tree(value)),
            Err(_) => json_document(body@) is None,
        },
{
    serde_json::from_slice::<serde_json::Value>(body)
}

/// Copies a `serde_json::Value` variant by variant, a number through
/// `Number::as_u64` and the members of an object as its map's `into_iter`
/// hands them out. The contract says that the copy holds what the value
/// held.
#[verifier::external_body]
fn copy_of(value: serde_json::Value) -> (tree: JsonValue)
    ensures
        tree@ == value_tree(value),
{
    match value {
        serde_json::Value::Null => JsonValue::Null,
        serde_json::Value::Bool(b) => JsonValue::Bool(b),
        serde_json::Value::Number(n) => JsonValue::Number(n.as_u64()),
        serde_json::Value::String(s) => JsonValue::Text(s),
        serde_json::Value::Array(items) => JsonValue::Array(
            items.into_iter().map(copy_of).collect(),
        ),
        serde_json::Value::Object(members) => JsonValue::Object(
            members.into_iter().map(|(name, v)| (name, copy_of(v))).collect(),
        ),
    }
}

} // verus!
