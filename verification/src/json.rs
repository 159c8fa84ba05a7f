//! A JSON document as a tree of plain values, and the reading of JSON text
//! into such a tree.
//!
//! The text itself is read by `serde_json`; what this module proves starts at
//! the tree that comes back.

use vstd::prelude::*;

verus! {

/// A JSON document, as executable code holds it.
#[derive(Debug, PartialEq, Eq)]
pub enum Json {
    Null,
    Bool(bool),
    /// A number: `Some(n)` when it is a non-negative integer below 2^64,
    /// `None` for every other number (negative, fractional, or too large).
    Number(Option<u64>),
    Text(String),
    Array(Vec<Json>),
    /// The members of an object, each a key with its value.
    Object(Vec<(String, Json)>),
}

/// A JSON document as a mathematical value.
pub enum JsonModel {
    Null,
    Bool(bool),
    Number(Option<u64>),
    Text(Seq<char>),
    Array(Seq<JsonModel>),
    Object(Seq<(Seq<char>, JsonModel)>),
}

impl View for Json {
    type V = JsonModel;

    open spec fn view(&self) -> JsonModel
        decreases self,
    {
        match self {
            Json::Null => JsonModel::Null,
            Json::Bool(b) => JsonModel::Bool(*b),
            Json::Number(n) => JsonModel::Number(*n),
            Json::Text(s) => JsonModel::Text(s@),
            Json::Array(items) => JsonModel::Array(
                Seq::new(
                    items@.len(),
                    |i: int|
                        if 0 <= i < items@.len() {
                            items@[i]@
                        } else {
                            JsonModel::Null
                        },
                ),
            ),
            Json::Object(members) => JsonModel::Object(
                Seq::new(
                    members@.len(),
                    |i: int|
                        if 0 <= i < members@.len() {
                            (members@[i].0@, members@[i].1@)
                        } else {
                            (Seq::empty(), JsonModel::Null)
                        },
                ),
            ),
        }
    }
}

/// The value of the first member at or after position `from` whose key is
/// `key`, if there is one.
pub open spec fn lookup_from(
    members: Seq<(Seq<char>, JsonModel)>,
    key: Seq<char>,
    from: int,
) -> Option<JsonModel>
    decreases members.len() - from,
{
    if from < 0 || from >= members.len() {
        None
    } else if members[from].0 == key {
        Some(members[from].1)
    } else {
        lookup_from(members, key, from + 1)
    }
}

impl JsonModel {
    /// The value under `key` where this is an object that has such a member:
    /// that of the first member with this key.
    pub open spec fn member(self, key: Seq<char>) -> Option<JsonModel> {
        match self {
            JsonModel::Object(members) => lookup_from(members, key, 0),
            _ => None,
        }
    }

    /// The integer that this document is, where it is a non-negative integer
    /// below 2^64.
    pub open spec fn number(self) -> Option<u64> {
        match self {
            JsonModel::Number(n) => n,
            _ => None,
        }
    }

    /// The string that this document is, where it is one.
    pub open spec fn text(self) -> Option<Seq<char>> {
        match self {
            JsonModel::Text(s) => Some(s),
            _ => None,
        }
    }

    /// The boolean that this document is, where it is one.
    pub open spec fn flag(self) -> Option<bool> {
        match self {
            JsonModel::Bool(b) => Some(b),
            _ => None,
        }
    }

    /// The elements of this document, where it is an array.
    pub open spec fn items(self) -> Option<Seq<JsonModel>> {
        match self {
            JsonModel::Array(items) => Some(items),
            _ => None,
        }
    }
}

/// `member` finds the first member that has the key: a member at position `i`
/// is found exactly when no earlier member has its key.
pub proof fn lemma_member_is_first(members: Seq<(Seq<char>, JsonModel)>, key: Seq<char>, i: int)
    requires
        0 <= i < members.len(),
        members[i].0 == key,
        forall|j: int| 0 <= j < i ==> members[j].0 != key,
    ensures
        JsonModel::Object(members).member(key) == Some(members[i].1),
{
    lemma_lookup_skips(members, key, 0, i);
}

/// `member` finds nothing exactly when no member has the key.
pub proof fn lemma_member_absent(members: Seq<(Seq<char>, JsonModel)>, key: Seq<char>)
    ensures
        JsonModel::Object(members).member(key) is None <==> forall|j: int|
            0 <= j < members.len() ==> members[j].0 != key,
{
    lemma_lookup_absent(members, key, 0);
}

proof fn lemma_lookup_skips(
    members: Seq<(Seq<char>, JsonModel)>,
    key: Seq<char>,
    from: int,
    i: int,
)
    requires
        0 <= from <= i < members.len(),
        members[i].0 == key,
        forall|j: int| from <= j < i ==> members[j].0 != key,
    ensures
        lookup_from(members, key, from) == Some(members[i].1),
    decreases i - from,
{
    if from < i {
        lemma_lookup_skips(members, key, from + 1, i);
    }
}

proof fn lemma_lookup_absent(members: Seq<(Seq<char>, JsonModel)>, key: Seq<char>, from: int)
    requires
        0 <= from,
    ensures
        lookup_from(members, key, from) is None <==> forall|j: int|
            from <= j < members.len() ==> members[j].0 != key,
    decreases members.len() - from,
{
    if from < members.len() {
        lemma_lookup_absent(members, key, from + 1);
        if members[from].0 != key {
            assert forall|j: int| from <= j < members.len() && (forall|k: int|
                from + 1 <= k < members.len() ==> members[k].0 != key) implies members[j].0
                != key by {}
        }
    }
}

impl Json {
    /// The value under `key` where this is an object that has such a member.
    pub fn member(&self, key: &str) -> (r: Option<&Json>)
        ensures
            match r {
                Some(j) => self@.member(key@) == Some(j@),
                None => self@.member(key@) is None,
            },
    {
        match self {
            Json::Object(members) => {
                let wanted = key.to_owned();
                let mut i: usize = 0;
                proof {
                    reveal_with_fuel(<Json as View>::view, 2);
                }
                while i < members.len()
                    invariant
                        i <= members.len(),
                        wanted@ == key@,
                        self@ matches JsonModel::Object(m) && m.len() == members.len() && (forall|
                            k: int,
                        |
                            0 <= k < m.len() ==> m[k] == (members@[k].0@, members@[k].1@))
                            && lookup_from(m, key@, 0) == lookup_from(m, key@, i as int),
                    decreases members.len() - i,
                {
                    if members[i].0 == wanted {
                        return Some(&members[i].1);
                    }
                    i += 1;
                }
                None
            },
            _ => None,
        }
    }

    /// The integer that this document is, where it is a non-negative integer
    /// below 2^64.
    pub fn as_u64(&self) -> (r: Option<u64>)
        ensures
            r == self@.number(),
    {
        match self {
            Json::Number(n) => *n,
            _ => None,
        }
    }

    /// The string that this document is, where it is one.
    pub fn as_text(&self) -> (r: Option<&String>)
        ensures
            match r {
                Some(s) => self@.text() == Some(s@),
                None => self@.text() is None,
            },
    {
        match self {
            Json::Text(s) => Some(s),
            _ => None,
        }
    }

    /// The boolean that this document is, where it is one.
    pub fn as_bool(&self) -> (r: Option<bool>)
        ensures
            r == self@.flag(),
    {
        match self {
            Json::Bool(b) => Some(*b),
            _ => None,
        }
    }

    /// The elements of this document, where it is an array.
    pub fn as_array(&self) -> (r: Option<&Vec<Json>>)
        ensures
            match r {
                Some(items) => self@.items() == Some(views(items@)),
                None => self@.items() is None,
            },
    {
        match self {
            Json::Array(items) => {
                proof {
                    reveal_with_fuel(<Json as View>::view, 2);
                    assert(views(items@) =~= self@->Array_0);
                }
                Some(items)
            },
            _ => None,
        }
    }
}

/// The documents that a sequence of trees stands for, one for one.
pub open spec fn views(items: Seq<Json>) -> Seq<JsonModel> {
    Seq::new(items.len(), |i: int| items[i]@)
}

/// The members that a sequence of keys with their trees stands for, one for
/// one.
pub open spec fn member_views(members: Seq<(String, Json)>) -> Seq<(Seq<char>, JsonModel)> {
    Seq::new(members.len(), |i: int| (members[i].0@, members[i].1@))
}

impl Json {
    /// The array of `items`, in their order.
    pub fn array(items: Vec<Json>) -> (j: Json)
        ensures
            j@ == JsonModel::Array(views(items@)),
    {
        proof {
            reveal_with_fuel(<Json as View>::view, 2);
            assert(Json::Array(items)@->Array_0 =~= views(items@));
        }
        Json::Array(items)
    }

    /// The object of `members`, in their order.
    pub fn object(members: Vec<(String, Json)>) -> (j: Json)
        ensures
            j@ == JsonModel::Object(member_views(members@)),
    {
        proof {
            reveal_with_fuel(<Json as View>::view, 2);
            assert(Json::Object(members)@->Object_0 =~= member_views(members@));
        }
        Json::Object(members)
    }

    /// The string `text`.
    pub fn text(text: &str) -> (j: Json)
        ensures
            j@ == JsonModel::Text(text@),
    {
        Json::Text(text.to_owned())
    }

    /// The number `n`.
    pub fn number(n: u64) -> (j: Json)
        ensures
            j@ == JsonModel::Number(Some(n)),
    {
        Json::Number(Some(n))
    }

    /// The boolean `b`.
    pub fn flag(b: bool) -> (j: Json)
        ensures
            j@ == JsonModel::Bool(b),
    {
        Json::Bool(b)
    }
}

/// `serde_json::Value`, the tree that `serde_json` reads JSON text into.
#[verifier::external_type_specification]
#[verifier::external_body]
pub struct ExValue(serde_json::Value);

/// The document that `serde_json::from_slice` reads from `text` as a
/// `serde_json::Value`, or `None` where it reports an error: `text` is no
/// JSON, holds more than one document, or nests deeper than `serde_json`
/// follows.
pub uninterp spec fn json_text(text: Seq<u8>) -> Option<JsonModel>;

/// The document that a `serde_json::Value` holds.
pub uninterp spec fn value_tree(value: serde_json::Value) -> JsonModel;

/// Calls `serde_json::from_slice` for a `serde_json::Value`. Trusted: the
/// value that comes back holds the document that `json_text` names, and an
/// error comes back exactly where `json_text` names none.
#[verifier::external_body]
fn read_value(text: &[u8]) -> (r: Option<serde_json::Value>)
    ensures
        match r {
            Some(value) => json_text(text@) == Some(value_tree(value)),
            None => json_text(text@) is None,
        },
{
    match serde_json::from_slice::<serde_json::Value>(text) {
        Ok(value) => Some(value),
        Err(_) => None,
    }
}

/// What a `serde_json::Value` is at its top: which of the six kinds of
/// document, with what it holds of that kind. What an array or an object
/// holds stays a `serde_json::Value`.
enum Shape<'a> {
    Null,
    Bool(bool),
    /// What `serde_json::Number::as_u64` gives of the number.
    Number(Option<u64>),
    Text(&'a String),
    Array(&'a Vec<serde_json::Value>),
    /// The members in the order in which `serde_json::Map::iter` walks them.
    Object(Vec<(&'a String, &'a serde_json::Value)>),
}

impl<'a> Shape<'a> {
    /// The document that a value of this shape holds.
    spec fn tree(self) -> JsonModel {
        match self {
            Shape::Null => JsonModel::Null,
            Shape::Bool(b) => JsonModel::Bool(b),
            Shape::Number(n) => JsonModel::Number(n),
            Shape::Text(s) => JsonModel::Text(s@),
            Shape::Array(items) => JsonModel::Array(
                Seq::new(items@.len(), |i: int| value_tree(items@[i])),
            ),
            Shape::Object(members) => JsonModel::Object(
                Seq::new(members@.len(), |i: int| (members@[i].0@, value_tree(*members@[i].1))),
            ),
        }
    }
}

/// Tells the variants of a `serde_json::Value` apart, and takes of a number
/// what `serde_json::Number::as_u64` gives and of an object the members that
/// `serde_json::Map::iter` walks. Trusted: the document that the value holds
/// is the one that its shape gives, made of the documents that its elements
/// or members hold.
#[verifier::external_body]
fn shape_of(value: &serde_json::Value) -> (shape: Shape<'_>)
    ensures
        shape.tree() == value_tree(*value),
{
    match value {
        serde_json::Value::Null => Shape::Null,
        serde_json::Value::Bool(b) => Shape::Bool(*b),
        serde_json::Value::Number(n) => Shape::Number(n.as_u64()),
        serde_json::Value::String(s) => Shape::Text(s),
        serde_json::Value::Array(items) => Shape::Array(items),
        serde_json::Value::Object(members) => Shape::Object(members.iter().collect()),
    }
}

/// Copies a `serde_json::Value` into a tree, level by level.
fn lift_value(value: &serde_json::Value) -> (r: Json)
    ensures
        r@ == value_tree(*value),
    decreases value_tree(*value),
{
    match shape_of(value) {
        Shape::Null => Json::Null,
        Shape::Bool(b) => Json::Bool(b),
        Shape::Number(n) => Json::Number(n),
        Shape::Text(s) => Json::Text(s.clone()),
        Shape::Array(items) => {
            let ghost trees = Seq::new(items@.len(), |i: int| value_tree(items@[i]));
            let mut lifted: Vec<Json> = Vec::new();
            let mut i: usize = 0;
            while i < items.len()
                invariant
                    i <= items.len(),
                    lifted.len() == i,
                    value_tree(*value) == JsonModel::Array(trees),
                    trees == Seq::new(items@.len(), |i: int| value_tree(items@[i])),
                    forall|k: int| 0 <= k < i ==> (#[trigger] lifted@[k])@ == trees[k],
                decreases items.len() - i,
            {
                proof {
                    assert(trees[i as int] == value_tree(items@[i as int]));
                    let whole = value_tree(*value);
                    assert(decreases_to!(whole => whole->Array_0));
                    assert(decreases_to!(whole->Array_0 => whole->Array_0[i as int]));
                }
                lifted.push(lift_value(&items[i]));
                i += 1;
            }
            let j = Json::array(lifted);
            proof {
                assert(j@->Array_0 =~= trees);
            }
            j
        },
        Shape::Object(members) => {
            let ghost trees = Seq::new(
                members@.len(),
                |i: int| (members@[i].0@, value_tree(*members@[i].1)),
            );
            let mut lifted: Vec<(String, Json)> = Vec::new();
            let mut i: usize = 0;
            while i < members.len()
                invariant
                    i <= members.len(),
                    lifted.len() == i,
                    value_tree(*value) == JsonModel::Object(trees),
                    trees == Seq::new(
                        members@.len(),
                        |i: int| (members@[i].0@, value_tree(*members@[i].1)),
                    ),
                    forall|k: int|
                        0 <= k < i ==> ((#[trigger] lifted@[k]).0@, lifted@[k].1@) == trees[k],
                decreases members.len() - i,
            {
                proof {
                    assert(trees[i as int] == (
                        members@[i as int].0@,
                        value_tree(*members@[i as int].1),
                    ));
                    let whole = value_tree(*value);
                    assert(decreases_to!(whole => whole->Object_0));
                    assert(decreases_to!(whole->Object_0 => whole->Object_0[i as int]));
                    assert(decreases_to!(whole->Object_0[i as int] => whole->Object_0[i as int].1));
                }
                let key = members[i].0.clone();
                let held = lift_value(members[i].1);
                lifted.push((key, held));
                i += 1;
            }
            let j = Json::object(lifted);
            proof {
                assert(j@->Object_0 =~= trees);
            }
            j
        },
    }
}

/// Reads JSON text into a tree. Where the text gives one object the same key
/// twice, `serde_json` keeps the later member only, so no object of a tree
/// that was read has a key twice.
pub fn parse_json(text: &[u8]) -> (r: Option<Json>)
    ensures
        match r {
            Some(j) => json_text(text@) == Some(j@),
            None => json_text(text@) is None,
        },
{
    match read_value(text) {
        Some(value) => Some(lift_value(&value)),
        None => None,
    }
}

} // verus!
