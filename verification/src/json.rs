//! A JSON document model: the values that the client reads out of settings,
//! provider configuration and provider replies, and that it sends in request
//! bodies and UI events.

use vstd::prelude::*;
use crate::text::str_eq;

verus! {

/// A JSON number as the client keeps it: non-negative integers, negative
/// integers, and other numbers, whose value the client never reads.
#[derive(Clone, Copy, Debug, PartialEq, Eq)]
pub enum JsonNumber {
    PosInt(u64),
    NegInt(i64),
    Float,
}

/// A JSON value. An object keeps its members in order; a lookup finds the
/// first member with the key.
#[derive(Debug)]
pub enum Json {
    Null,
    Bool(bool),
    Number(JsonNumber),
    Str(String),
    Array(Vec<Json>),
    Object(Vec<(String, Json)>),
}

/// The mathematical value of a `Json`: strings as character sequences.
pub enum JsonValue {
    Null,
    Bool(bool),
    Number(JsonNumber),
    Str(Seq<char>),
    Array(Seq<JsonValue>),
    Object(Seq<(Seq<char>, JsonValue)>),
}

pub open spec fn json_view(j: Json) -> JsonValue
    decreases j,
{
    match j {
        Json::Null => JsonValue::Null,
        Json::Bool(b) => JsonValue::Bool(b),
        Json::Number(n) => JsonValue::Number(n),
        Json::Str(s) => JsonValue::Str(s@),
        Json::Array(items) => JsonValue::Array(items_view(items@)),
        Json::Object(members) => JsonValue::Object(members_view(members@)),
    }
}

pub open spec fn items_view(items: Seq<Json>) -> Seq<JsonValue>
    decreases items,
{
    if items.len() == 0 {
        Seq::empty()
    } else {
        items_view(items.drop_last()).push(json_view(items.last()))
    }
}

pub open spec fn members_view(members: Seq<(String, Json)>) -> Seq<(Seq<char>, JsonValue)>
    decreases members,
{
    if members.len() == 0 {
        Seq::empty()
    } else {
        members_view(members.drop_last()).push(
            (members.last().0@, json_view(members.last().1)),
        )
    }
}

impl View for Json {
    type V = JsonValue;

    open spec fn view(&self) -> JsonValue {
        json_view(*self)
    }
}

/// The value of the first member named `key`, if any.
pub open spec fn member_lookup(members: Seq<(Seq<char>, JsonValue)>, key: Seq<char>) -> Option<
    JsonValue,
>
    decreases members.len(),
{
    if members.len() == 0 {
        None
    } else if members[0].0 == key {
        Some(members[0].1)
    } else {
        member_lookup(members.drop_first(), key)
    }
}

impl JsonValue {
    /// The member `key` of an object; nothing for other values.
    pub open spec fn get_key(self, key: Seq<char>) -> Option<JsonValue> {
        match self {
            JsonValue::Object(members) => member_lookup(members, key),
            _ => None,
        }
    }

    /// The element at `i` of an array; nothing for other values or out of range.
    pub open spec fn get_index(self, i: int) -> Option<JsonValue> {
        match self {
            JsonValue::Array(items) => if 0 <= i < items.len() {
                Some(items[i])
            } else {
                None
            },
            _ => None,
        }
    }

    pub open spec fn as_str(self) -> Option<Seq<char>> {
        match self {
            JsonValue::Str(s) => Some(s),
            _ => None,
        }
    }

    pub open spec fn as_bool(self) -> Option<bool> {
        match self {
            JsonValue::Bool(b) => Some(b),
            _ => None,
        }
    }

    /// A non-negative integer; nothing for negative or fractional numbers and other values.
    pub open spec fn as_u64(self) -> Option<u64> {
        match self {
            JsonValue::Number(JsonNumber::PosInt(n)) => Some(n),
            _ => None,
        }
    }
}

pub proof fn lemma_items_view(items: Seq<Json>)
    ensures
        items_view(items).len() == items.len(),
        forall|i: int| 0 <= i < items.len() ==> #[trigger] items_view(items)[i] == json_view(items[i]),
    decreases items.len(),
{
    if items.len() > 0 {
        lemma_items_view(items.drop_last());
    }
}

pub proof fn lemma_members_view(members: Seq<(String, Json)>)
    ensures
        members_view(members).len() == members.len(),
        forall|i: int|
            0 <= i < members.len() ==> #[trigger] members_view(members)[i] == (
                members[i].0@,
                json_view(members[i].1),
            ),
    decreases members.len(),
{
    if members.len() > 0 {
        lemma_members_view(members.drop_last());
    }
}

proof fn lemma_lookup_at(members: Seq<(Seq<char>, JsonValue)>, key: Seq<char>, i: int)
    requires
        0 <= i <= members.len(),
        forall|j: int| 0 <= j < i ==> members[j].0 != key,
    ensures
        i < members.len() && members[i].0 == key ==> member_lookup(members, key) == Some(
            members[i].1,
        ),
        i == members.len() ==> member_lookup(members, key) is None,
    decreases i,
{
    if i > 0 {
        lemma_lookup_at(members.drop_first(), key, i - 1);
    }
}

impl Json {
    /// The member `key` of an object; `None` for other values.
    pub fn get(&self, key: &str) -> (r: Option<&Json>)
        ensures
            match r {
                Some(v) => self@.get_key(key@) == Some(v@),
                None => self@.get_key(key@) is None,
            },
    {
        match self {
            Json::Object(members) => {
                proof {
                    lemma_members_view(members@);
                }
                let ghost mv = members_view(members@);
                assert(self@ == JsonValue::Object(mv));
                let mut i: usize = 0;
                while i < members.len()
                    invariant
                        i <= members@.len(),
                        mv == members_view(members@),
                        self@ == JsonValue::Object(mv),
                        mv.len() == members@.len(),
                        forall|j: int| 0 <= j < members@.len() ==> #[trigger] mv[j] == (
                            members@[j].0@,
                            json_view(members@[j].1),
                        ),
                        forall|j: int| 0 <= j < i ==> mv[j].0 != key@,
                    decreases members@.len() - i,
                {
                    if str_eq(members[i].0.as_str(), key) {
                        proof {
                            assert(mv[i as int] == (members@[i as int].0@, json_view(members@[i as int].1)));
                            lemma_lookup_at(mv, key@, i as int);
                            assert(self@ == JsonValue::Object(mv));
                        }
                        return Some(&members[i].1);
                    }
                    i = i + 1;
                }
                proof {
                    lemma_lookup_at(mv, key@, i as int);
                    assert(self@ == JsonValue::Object(mv));
                }
                None
            },
            _ => None,
        }
    }

    /// The element at `i` of an array; `None` for other values or out of range.
    pub fn get_index(&self, i: usize) -> (r: Option<&Json>)
        ensures
            match r {
                Some(v) => self@.get_index(i as int) == Some(v@),
                None => self@.get_index(i as int) is None,
            },
    {
        match self {
            Json::Array(items) => {
                proof {
                    lemma_items_view(items@);
                }
                if i < items.len() {
                    Some(&items[i])
                } else {
                    None
                }
            },
            _ => None,
        }
    }

    pub fn as_str(&self) -> (r: Option<&str>)
        ensures
            match r {
                Some(s) => self@.as_str() == Some(s@),
                None => self@.as_str() is None,
            },
    {
        match self {
            Json::Str(s) => Some(s.as_str()),
            _ => None,
        }
    }

    pub fn as_bool(&self) -> (r: Option<bool>)
        ensures
            r == self@.as_bool(),
    {
        match self {
            Json::Bool(b) => Some(*b),
            _ => None,
        }
    }

    pub fn as_u64(&self) -> (r: Option<u64>)
        ensures
            r == self@.as_u64(),
    {
        match self {
            Json::Number(JsonNumber::PosInt(n)) => Some(*n),
            _ => None,
        }
    }
}

impl Json {
    /// A JSON string.
    pub fn text(s: &str) -> (j: Json)
        ensures
            j@ == JsonValue::Str(s@),
    {
        Json::Str(s.to_owned())
    }

    /// A JSON number holding a signed integer, as `serde_json` stores one.
    pub fn signed(i: i64) -> (j: Json)
        ensures
            j@ == JsonValue::Number(
                if i < 0 {
                    JsonNumber::NegInt(i)
                } else {
                    JsonNumber::PosInt(i as u64)
                },
            ),
    {
        if i < 0 {
            Json::Number(JsonNumber::NegInt(i))
        } else {
            Json::Number(JsonNumber::PosInt(i as u64))
        }
    }

    /// A JSON number holding an unsigned integer.
    pub fn unsigned(n: u64) -> (j: Json)
        ensures
            j@ == JsonValue::Number(JsonNumber::PosInt(n)),
    {
        Json::Number(JsonNumber::PosInt(n))
    }

    /// An array of one element.
    pub fn array1(a: Json) -> (j: Json)
        ensures
            j@ == JsonValue::Array(seq![a@]),
    {
        let mut items: Vec<Json> = Vec::new();
        items.push(a);
        proof {
            lemma_items_view(items@);
            assert(items_view(items@) =~= seq![a@]);
        }
        Json::Array(items)
    }

    /// An object of one member.
    pub fn object1(k1: &str, v1: Json) -> (j: Json)
        ensures
            j@ == JsonValue::Object(seq![(k1@, v1@)]),
    {
        let mut members: Vec<(String, Json)> = Vec::new();
        members.push((k1.to_owned(), v1));
        proof {
            lemma_members_view(members@);
            assert(members_view(members@) =~= seq![(k1@, v1@)]);
        }
        Json::Object(members)
    }

    /// An object of two members, in order.
    pub fn object2(k1: &str, v1: Json, k2: &str, v2: Json) -> (j: Json)
        ensures
            j@ == JsonValue::Object(seq![(k1@, v1@), (k2@, v2@)]),
    {
        let mut members: Vec<(String, Json)> = Vec::new();
        members.push((k1.to_owned(), v1));
        members.push((k2.to_owned(), v2));
        proof {
            lemma_members_view(members@);
            assert(members_view(members@) =~= seq![(k1@, v1@), (k2@, v2@)]);
        }
        Json::Object(members)
    }

    /// An object of three members, in order.
    pub fn object3(k1: &str, v1: Json, k2: &str, v2: Json, k3: &str, v3: Json) -> (j: Json)
        ensures
            j@ == JsonValue::Object(seq![(k1@, v1@), (k2@, v2@), (k3@, v3@)]),
    {
        let mut members: Vec<(String, Json)> = Vec::new();
        members.push((k1.to_owned(), v1));
        members.push((k2.to_owned(), v2));
        members.push((k3.to_owned(), v3));
        proof {
            lemma_members_view(members@);
            assert(members_view(members@) =~= seq![(k1@, v1@), (k2@, v2@), (k3@, v3@)]);
        }
        Json::Object(members)
    }
}

} // verus!
