//! JSON documents: the tree that `serde_json` reads out of a text.
use vstd::prelude::*;

use crate::text::same;

verus! {

/// A JSON document, mathematically.
pub enum JsonTree {
    Null,
    Bool(bool),
    /// A number, by its text.
    Number(Seq<char>),
    Text(Seq<char>),
    Array(Seq<JsonTree>),
    /// The members in the order in which they are stored.
    Object(Seq<(Seq<char>, JsonTree)>),
}

/// A JSON document.
#[derive(Debug)]
pub enum JsonValue {
    Null,
    Bool(bool),
    Number(String),
    Text(String),
    Array(Vec<JsonValue>),
    Object(Vec<(String, JsonValue)>),
}

impl JsonValue {
    /// The document that the value holds.
    pub open spec fn tree(self) -> JsonTree
        decreases self,
    {
        match self {
            JsonValue::Null => JsonTree::Null,
            JsonValue::Bool(b) => JsonTree::Bool(b),
            JsonValue::Number(n) => JsonTree::Number(n@),
            JsonValue::Text(t) => JsonTree::Text(t@),
            JsonValue::Array(items) => JsonTree::Array(
                Seq::new(
                    items@.len(),
                    |i: int|
                        if 0 <= i < items@.len() {
                            items@[i].tree()
                        } else {
                            JsonTree::Null
                        },
                ),
            ),
            JsonValue::Object(members) => JsonTree::Object(
                Seq::new(
                    members@.len(),
                    |i: int|
                        if 0 <= i < members@.len() {
                            (members@[i].0@, members@[i].1.tree())
                        } else {
                            (Seq::empty(), JsonTree::Null)
                        },
                ),
            ),
        }
    }
}

/// The member of an object that has the given key; the first, where several had it.
pub open spec fn member_from(
    members: Seq<(Seq<char>, JsonTree)>,
    key: Seq<char>,
    from: int,
) -> Option<JsonTree>
    decreases members.len() - from,
{
    if from >= members.len() {
        None
    } else if members[from].0 == key {
        Some(members[from].1)
    } else {
        member_from(members, key, from + 1)
    }
}

/// The member of a document that has the given key.
pub open spec fn member(doc: JsonTree, key: Seq<char>) -> Option<JsonTree> {
    match doc {
        JsonTree::Object(members) => member_from(members, key, 0),
        _ => None,
    }
}

/// The item of a document at the given index.
pub open spec fn item(doc: JsonTree, index: int) -> Option<JsonTree> {
    match doc {
        JsonTree::Array(items) => if 0 <= index < items.len() {
            Some(items[index])
        } else {
            None
        },
        _ => None,
    }
}

/// The tree behind an optional reference.
pub open spec fn opt_tree(v: Option<&JsonValue>) -> Option<JsonTree> {
    match v {
        Some(j) => Some(j.tree()),
        None => None,
    }
}

impl JsonValue {
    /// The member with the given key, where the value is an object that has one.
    pub fn get(&self, key: &str) -> (r: Option<&JsonValue>)
        ensures
            opt_tree(r) == member(self.tree(), key@),
    {
        match self {
            JsonValue::Object(members) => {
                let ghost all = self.tree()->Object_0;
                let mut i: usize = 0;
                while i < members.len()
                    invariant
                        i <= members@.len(),
                        self.tree() == JsonTree::Object(all),
                        all.len() == members@.len(),
                        forall|k: int|
                            0 <= k < members@.len() ==> #[trigger] all[k] == (
                                members@[k].0@,
                                members@[k].1.tree(),
                            ),
                        member(self.tree(), key@) == member_from(all, key@, i as int),
                    decreases members@.len() - i,
                {
                    assert(all[i as int] == (members@[i as int].0@, members@[i as int].1.tree()));
                    if same(members[i].0.as_str(), key) {
                        return Some(&members[i].1);
                    }
                    i = i + 1;
                }
                None
            },
            _ => None,
        }
    }

    /// The item at the given index, where the value is an array that reaches so far.
    pub fn at(&self, index: usize) -> (r: Option<&JsonValue>)
        ensures
            opt_tree(r) == item(self.tree(), index as int),
    {
        match self {
            JsonValue::Array(items) => {
                if index < items.len() {
                    Some(&items[index])
                } else {
                    None
                }
            },
            _ => None,
        }
    }

    /// The text, where the value is one.
    pub fn as_text(&self) -> (r: Option<&str>)
        ensures
            match r {
                Some(t) => self.tree() == JsonTree::Text(t@),
                None => !(self.tree() is Text),
            },
    {
        match self {
            JsonValue::Text(t) => Some(t.as_str()),
            _ => None,
        }
    }
}

/// The document that `serde_json::from_str` reads out of a text; `None` where the text is
/// not JSON.
pub uninterp spec fn json_document(text: Seq<char>) -> Option<JsonTree>;

/// The tree of a parse result.
pub open spec fn parsed_tree(r: Option<JsonValue>) -> Option<JsonTree> {
    match r {
        Some(v) => Some(v.tree()),
        None => None,
    }
}

/// The type of a JSON document in `serde_json`. It is opaque here: only `from_serde` looks
/// inside.
#[verifier::external_type_specification]
#[verifier::external_body]
pub struct ExSerdeValue(serde_json::Value);

/// Turns a `serde_json::Value` into a value of this module, part by part: each array item and
/// each member becomes one of the same place, a number becomes its text. Nothing is claimed
/// of the result here; `parse_json` names it.
#[verifier::external_body]
fn from_serde(value: serde_json::Value) -> (r: JsonValue)
{
    match value {
        serde_json::Value::Null => JsonValue::Null,
        serde_json::Value::Bool(b) => JsonValue::Bool(b),
        serde_json::Value::Number(n) => JsonValue::Number(n.to_string()),
        serde_json::Value::String(s) => JsonValue::Text(s),
        serde_json::Value::Array(a) => JsonValue::Array(a.into_iter().map(from_serde).collect()),
        serde_json::Value::Object(o) => {
            JsonValue::Object(o.into_iter().map(|(k, v)| (k, from_serde(v))).collect())
        },
    }
}

/// Reads a JSON document.
///
/// Calls `serde_json::from_str` into a `serde_json::Value` and converts that. The contract
/// names the document; it is a function of the text alone.
#[verifier::external_body]
pub(crate) fn parse_json(text: &str) -> (r: Option<JsonValue>)
    ensures
        parsed_tree(r) == json_document(text@),
{
    match serde_json::from_str::<serde_json::Value>(text) {
        Ok(value) => Some(from_serde(value)),
        Err(_) => None,
    }
}

/// A member that an object has is found by its key, the first of that key; a key that it has not
/// is not found, and nothing but an object has members.
pub proof fn law_members_are_found_by_key(members: Seq<(Seq<char>, JsonTree)>, at: int, key: Seq<char>)
    requires
        0 <= at < members.len(),
        forall|i: int| 0 <= i < at ==> (#[trigger] members[i]).0 != members[at].0,
    ensures
        member(JsonTree::Object(members), members[at].0) == Some(members[at].1),
        (forall|i: int| 0 <= i < members.len() ==> (#[trigger] members[i]).0 != key) ==> member(
            JsonTree::Object(members),
            key,
        ) is None,
        member(JsonTree::Null, key) is None,
        forall|t: Seq<char>| member(JsonTree::Text(t), key) is None,
        forall|a: Seq<JsonTree>| member(JsonTree::Array(a), key) is None,
{
    lemma_member_here(members, 0, at);
    if forall|i: int| 0 <= i < members.len() ==> (#[trigger] members[i]).0 != key {
        lemma_no_member(members, key, 0);
    }
}

proof fn lemma_member_here(members: Seq<(Seq<char>, JsonTree)>, from: int, at: int)
    requires
        0 <= from <= at < members.len(),
        forall|i: int| from <= i < at ==> (#[trigger] members[i]).0 != members[at].0,
    ensures
        member_from(members, members[at].0, from) == Some(members[at].1),
    decreases at - from,
{
    if from < at {
        lemma_member_here(members, from + 1, at);
    }
}

proof fn lemma_no_member(members: Seq<(Seq<char>, JsonTree)>, key: Seq<char>, from: int)
    requires
        0 <= from,
        forall|i: int| 0 <= i < members.len() ==> (#[trigger] members[i]).0 != key,
    ensures
        member_from(members, key, from) is None,
    decreases members.len() - from,
{
    if from < members.len() {
        lemma_no_member(members, key, from + 1);
    }
}

/// The items of an array are found by their index.
pub proof fn law_items_are_found_by_index(items: Seq<JsonTree>, index: int)
    ensures
        0 <= index < items.len() ==> item(JsonTree::Array(items), index) == Some(items[index]),
        index >= items.len() ==> item(JsonTree::Array(items), index) is None,
{
}

} // verus!
