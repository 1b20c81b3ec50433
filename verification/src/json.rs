//! JSON values: the settings of a provider, the body of a request, and what a
//! line of a response holds.
use vstd::prelude::*;

use crate::laws::json::law_inserted_is_well_formed;
use crate::text;

verus! {

/// A JSON value. An object lists its members in the order in which the map that
/// it came from is walked; no key occurs twice (see [`JsonTree::well_formed`]).
#[derive(Debug, PartialEq)]
pub enum Json {
    Null,
    Bool(bool),
    /// A number, as it is written in JSON text.
    Number(String),
    String(String),
    Array(Vec<Json>),
    Object(Vec<(String, Json)>),
}

/// What a [`Json`] stands for.
pub enum JsonTree {
    Null,
    Bool(bool),
    Number(Seq<char>),
    String(Seq<char>),
    Array(Seq<JsonTree>),
    Object(Seq<(Seq<char>, JsonTree)>),
}

/// The first member of `entries` under `key`.
pub open spec fn lookup(entries: Seq<(Seq<char>, JsonTree)>, key: Seq<char>) -> Option<JsonTree>
    decreases entries.len(),
{
    if entries.len() == 0 {
        None
    } else if entries.first().0 == key {
        Some(entries.first().1)
    } else {
        lookup(entries.drop_first(), key)
    }
}

/// No key occurs twice.
pub open spec fn distinct_keys(entries: Seq<(Seq<char>, JsonTree)>) -> bool {
    forall|i: int, j: int|
        0 <= i < j < entries.len() ==> #[trigger] entries[i].0 != #[trigger] entries[j].0
}

impl JsonTree {
    /// Every object in the tree has each key once.
    pub open spec fn well_formed(self) -> bool
        decreases self,
    {
        match self {
            JsonTree::Array(items) => forall|i: int|
                0 <= i < items.len() ==> (#[trigger] items[i]).well_formed(),
            JsonTree::Object(entries) => {
                &&& distinct_keys(entries)
                &&& forall|i: int|
                    0 <= i < entries.len() ==> (#[trigger] entries[i]).1.well_formed()
            },
            _ => true,
        }
    }

    /// The member under `key`, where the tree is an object that has it.
    pub open spec fn get(self, key: Seq<char>) -> Option<JsonTree> {
        match self {
            JsonTree::Object(entries) => lookup(entries, key),
            _ => None,
        }
    }

    /// The characters of a JSON string.
    pub open spec fn as_str(self) -> Option<Seq<char>> {
        match self {
            JsonTree::String(s) => Some(s),
            _ => None,
        }
    }

    /// The value of a JSON boolean.
    pub open spec fn as_bool(self) -> Option<bool> {
        match self {
            JsonTree::Bool(b) => Some(b),
            _ => None,
        }
    }

    /// The members of a JSON object.
    pub open spec fn as_object(self) -> Option<Seq<(Seq<char>, JsonTree)>> {
        match self {
            JsonTree::Object(entries) => Some(entries),
            _ => None,
        }
    }
}

/// The tree of a JSON value.
pub open spec fn json_tree(value: Json) -> JsonTree
    decreases value,
{
    match value {
        Json::Null => JsonTree::Null,
        Json::Bool(b) => JsonTree::Bool(b),
        Json::Number(n) => JsonTree::Number(n@),
        Json::String(s) => JsonTree::String(s@),
        Json::Array(items) => JsonTree::Array(
            Seq::new(
                items@.len(),
                |i: int|
                    if 0 <= i < items@.len() {
                        json_tree(items@[i])
                    } else {
                        JsonTree::Null
                    },
            ),
        ),
        Json::Object(entries) => JsonTree::Object(
            Seq::new(
                entries@.len(),
                |i: int|
                    if 0 <= i < entries@.len() {
                        (entries@[i].0@, json_tree(entries@[i].1))
                    } else {
                        (seq![], JsonTree::Null)
                    },
            ),
        ),
    }
}

impl View for Json {
    type V = JsonTree;

    open spec fn view(&self) -> JsonTree {
        json_tree(*self)
    }
}

/// The trees of the members of an object.
pub open spec fn entries_tree(entries: Seq<(String, Json)>) -> Seq<(Seq<char>, JsonTree)> {
    Seq::new(entries.len(), |i: int| (entries[i].0@, entries[i].1@))
}

/// `entries` with `value` under `key`: in the place of the first member that is
/// there already, else at the end.
pub open spec fn inserted(
    entries: Seq<(Seq<char>, JsonTree)>,
    key: Seq<char>,
    value: JsonTree,
) -> Seq<(Seq<char>, JsonTree)>
    decreases entries.len(),
{
    if entries.len() == 0 {
        seq![(key, value)]
    } else if entries.first().0 == key {
        seq![(key, value)] + entries.drop_first()
    } else {
        seq![entries.first()] + inserted(entries.drop_first(), key, value)
    }
}

/// An absent value, or the tree of the one that is there.
pub open spec fn tree_of(value: Option<Json>) -> Option<JsonTree> {
    match value {
        Some(json) => Some(json@),
        None => None,
    }
}

/// An absent reference, or the tree of what it points to.
pub open spec fn tree_of_ref(value: Option<&Json>) -> Option<JsonTree> {
    match value {
        Some(json) => Some(json@),
        None => None,
    }
}

impl Json {
    /// The member under `key`, where this is an object that has it.
    pub fn get(&self, key: &str) -> (r: Option<&Json>)
        ensures
            tree_of_ref(r) == self@.get(key@),
    {
        match self {
            Json::Object(entries) => {
                let ghost tree = entries_tree(entries@);
                assert(self@ == JsonTree::Object(tree)) by {
                    assert(self@->Object_0 =~= tree);
                }
                let mut i: usize = 0;
                assert(tree.skip(0) == tree);
                while i < entries.len()
                    invariant
                        i <= entries@.len(),
                        self@ == JsonTree::Object(tree),
                        tree == entries_tree(entries@),
                        lookup(tree, key@) == lookup(tree.skip(i as int), key@),
                    decreases entries@.len() - i,
                {
                    assert(tree.skip(i as int).first() == tree[i as int]);
                    if text::same(entries[i].0.as_str(), key) {
                        return Some(&entries[i].1);
                    }
                    assert(tree.skip(i as int).drop_first() == tree.skip(i + 1));
                    i += 1;
                }
                None
            },
            _ => None,
        }
    }

    /// The characters of a JSON string.
    pub fn as_str(&self) -> (r: Option<&str>)
        ensures
            r is Some <==> self@.as_str() is Some,
            r matches Some(s) ==> self@.as_str() == Some(s@),
    {
        match self {
            Json::String(s) => Some(s.as_str()),
            _ => None,
        }
    }

    /// The value of a JSON boolean.
    pub fn as_bool(&self) -> (r: Option<bool>)
        ensures
            r == self@.as_bool(),
    {
        match self {
            Json::Bool(b) => Some(*b),
            _ => None,
        }
    }

    /// Whether this is `null`.
    pub fn is_null(&self) -> (r: bool)
        ensures
            r == (self@ is Null),
    {
        match self {
            Json::Null => true,
            _ => false,
        }
    }

    /// The members of a JSON object.
    pub fn as_object(&self) -> (r: Option<&Vec<(String, Json)>>)
        ensures
            r is Some <==> self@.as_object() is Some,
            r matches Some(entries) ==> self@.as_object() == Some(entries_tree(entries@)),
    {
        match self {
            Json::Object(entries) => {
                assert(self@->Object_0 =~= entries_tree(entries@));
                Some(entries)
            },
            _ => None,
        }
    }

    /// The object with `value` under `key`; `null` counts as an object without
    /// members.
    pub fn with(self, key: &str, value: Json) -> (r: Json)
        requires
            self@ is Object || self@ is Null,
        ensures
            self@ is Null ==> r@ == JsonTree::Object(seq![(key@, value@)]),
            self@ matches JsonTree::Object(entries) ==> r@ == JsonTree::Object(
                inserted(entries, key@, value@),
            ),
            self@.well_formed() && value@.well_formed() ==> r@.well_formed(),
    {
        proof {
            if self@ is Object && self@.well_formed() && value@.well_formed() {
                law_inserted_is_well_formed(self@->Object_0, key@, value@);
            }
        }
        let ghost before = self@;
        let mut entries: Vec<(String, Json)> = match self {
            Json::Object(entries) => entries,
            _ => Vec::new(),
        };
        let ghost tree = entries_tree(entries@);
        proof {
            match before {
                JsonTree::Object(members) => {
                    assert(members =~= tree);
                },
                _ => {},
            }
        }
        let mut i: usize = 0;
        assert(tree.skip(0) == tree);
        assert(tree.take(0) + inserted(tree, key@, value@) =~= inserted(tree, key@, value@));
        while i < entries.len()
            invariant
                i <= entries@.len(),
                tree == entries_tree(entries@),
                inserted(tree, key@, value@) == tree.take(i as int) + inserted(
                    tree.skip(i as int),
                    key@,
                    value@,
                ),
                before == self@,
                before is Null ==> tree.len() == 0,
                before matches JsonTree::Object(members) ==> members == tree,
                before is Object || before is Null,
            decreases entries@.len() - i,
        {
            assert(tree.skip(i as int).first() == tree[i as int]);
            assert(tree.skip(i as int).drop_first() == tree.skip(i + 1));
            if text::same(entries[i].0.as_str(), key) {
                entries.set(i, (key.to_string(), value));
                let r = Json::Object(entries);
                proof {
                    let after = tree.take(i as int) + (seq![(key@, value@)] + tree.skip(i + 1));
                    assert(r@->Object_0 =~= after);
                }
                return r;
            }
            assert(tree.take(i + 1) == tree.take(i as int).push(tree[i as int]));
            assert(tree.take(i as int) + (seq![tree[i as int]] + inserted(
                tree.skip(i + 1),
                key@,
                value@,
            )) =~= tree.take(i + 1) + inserted(tree.skip(i + 1), key@, value@));
            i += 1;
        }
        entries.push((key.to_string(), value));
        let r = Json::Object(entries);
        proof {
            assert(tree.take(i as int) =~= tree);
            assert(r@->Object_0 =~= tree + seq![(key@, value@)]);
        }
        r
    }
}

/// The outside type that JSON text is first read into.
#[verifier::external_type_specification]
#[verifier::external_body]
pub struct ExJsonValue(serde_json::Value);

/// What a `serde_json::Value` holds.
pub uninterp spec fn value_tree(value: serde_json::Value) -> JsonTree;

/// What `serde_json::from_str` reads out of a text; `None` where the text is no
/// JSON value.
pub uninterp spec fn json_text(text: Seq<char>) -> Option<JsonTree>;

/// One level of a `serde_json::Value`.
pub enum ValueParts<'a> {
    Null,
    Bool(bool),
    Number(String),
    String(&'a str),
    Array(&'a Vec<serde_json::Value>),
    Object(Vec<(&'a String, &'a serde_json::Value)>),
}

/// The tree whose top level is `parts`.
pub open spec fn parts_tree(parts: ValueParts) -> JsonTree {
    match parts {
        ValueParts::Null => JsonTree::Null,
        ValueParts::Bool(b) => JsonTree::Bool(b),
        ValueParts::Number(n) => JsonTree::Number(n@),
        ValueParts::String(s) => JsonTree::String(s@),
        ValueParts::Array(items) => JsonTree::Array(
            Seq::new(items@.len(), |i: int| value_tree(items@[i])),
        ),
        ValueParts::Object(entries) => JsonTree::Object(
            Seq::new(entries@.len(), |i: int| (entries@[i].0@, value_tree(*entries@[i].1))),
        ),
    }
}

/// Calls `serde_json::from_str::<serde_json::Value>`: the value that the text is
/// read into, or `None` for its error. Which texts are read, and into what, is
/// left to the name `json_text`.
#[verifier::external_body]
fn value_from_str(text: &str) -> (r: Option<serde_json::Value>)
    ensures
        r is Some <==> json_text(text@) is Some,
        r matches Some(value) ==> json_text(text@) == Some(value_tree(value)),
{
    serde_json::from_str::<serde_json::Value>(text).ok()
}

/// Tells the variants of a `serde_json::Value` apart and hands out what each
/// holds: the parts make up the value's tree, and the keys of an object, which
/// `serde_json::Map` keeps apart, differ. A number is handed out as the text that
/// its `Display` writes; which text that is stays with the name `value_tree`.
#[verifier::external_body]
fn value_parts<'a>(value: &'a serde_json::Value) -> (parts: ValueParts<'a>)
    ensures
        parts_tree(parts) == value_tree(*value),
        parts is Object ==> distinct_keys(parts_tree(parts)->Object_0),
{
    match value {
        serde_json::Value::Null => ValueParts::Null,
        serde_json::Value::Bool(b) => ValueParts::Bool(*b),
        serde_json::Value::Number(n) => ValueParts::Number(n.to_string()),
        serde_json::Value::String(s) => ValueParts::String(s.as_str()),
        serde_json::Value::Array(items) => ValueParts::Array(items),
        serde_json::Value::Object(members) => ValueParts::Object(members.iter().collect()),
    }
}

impl Json {
    /// The JSON value that a `serde_json::Value` holds.
    pub fn from_value(value: &serde_json::Value) -> (r: Json)
        ensures
            r@ == value_tree(*value),
            r@.well_formed(),
        decreases value_tree(*value),
    {
        match value_parts(value) {
            ValueParts::Null => Json::Null,
            ValueParts::Bool(b) => Json::Bool(b),
            ValueParts::Number(n) => Json::Number(n),
            ValueParts::String(s) => Json::String(s.to_string()),
            ValueParts::Array(items) => {
                let ghost trees = Seq::new(items@.len(), |i: int| value_tree(items@[i]));
                let mut out: Vec<Json> = Vec::new();
                let mut i: usize = 0;
                while i < items.len()
                    invariant
                        i <= items@.len(),
                        out@.len() == i,
                        trees == Seq::new(items@.len(), |i: int| value_tree(items@[i])),
                        value_tree(*value) == JsonTree::Array(trees),
                        forall|j: int|
                            0 <= j < i ==> (#[trigger] out@[j])@ == trees[j] && out@[j]@.well_formed(),
                    decreases items@.len() - i,
                {
                    assert(trees[i as int] == value_tree(items@[i as int]));
                    assert(decreases_to!(value_tree(*value) => value_tree(*value)->Array_0[i as int]));
                    out.push(Json::from_value(&items[i]));
                    i += 1;
                }
                let r = Json::Array(out);
                assert(r@->Array_0 =~= trees);
                assert forall|j: int| 0 <= j < trees.len() implies (#[trigger] trees[j]).well_formed() by {
                    assert(out@[j]@ == trees[j]);
                }
                r
            },
            ValueParts::Object(entries) => {
                let ghost trees = Seq::new(
                    entries@.len(),
                    |i: int| (entries@[i].0@, value_tree(*entries@[i].1)),
                );
                let mut out: Vec<(String, Json)> = Vec::new();
                let mut i: usize = 0;
                while i < entries.len()
                    invariant
                        i <= entries@.len(),
                        out@.len() == i,
                        trees == Seq::new(
                            entries@.len(),
                            |i: int| (entries@[i].0@, value_tree(*entries@[i].1)),
                        ),
                        value_tree(*value) == JsonTree::Object(trees),
                        forall|j: int|
                            0 <= j < i ==> (#[trigger] out@[j]).0@ == trees[j].0 && out@[j].1@
                                == trees[j].1 && out@[j].1@.well_formed(),
                    decreases entries@.len() - i,
                {
                    assert(trees[i as int].1 == value_tree(*entries@[i as int].1));
                    assert(decreases_to!(value_tree(*value) => value_tree(*value)->Object_0[i as int].1));
                    out.push((entries[i].0.clone(), Json::from_value(entries[i].1)));
                    i += 1;
                }
                let r = Json::Object(out);
                assert(r@->Object_0 =~= trees);
                assert forall|j: int| 0 <= j < trees.len() implies (
                #[trigger] trees[j]).1.well_formed() by {
                    assert(out@[j].1@ == trees[j].1);
                }
                r
            },
        }
    }
}

/// The JSON value that `text` is, or `None` where it is none.
pub fn parse_json(text: &str) -> (r: Option<Json>)
    ensures
        tree_of(r) == json_text(text@),
        r matches Some(json) ==> json@.well_formed(),
{
    match value_from_str(text) {
        Some(value) => Some(Json::from_value(&value)),
        None => None,
    }
}

} // verus!
