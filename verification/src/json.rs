//! The JSON values that the platform answers with.

use vstd::prelude::*;

use crate::text;

verus! {

/// A JSON value. An object lists its members; no name occurs twice in it.
#[derive(Debug)]
pub enum Json {
    Null,
    Bool(bool),
    /// A number, with its value where that is an integer of 64 bits.
    Number(Option<i64>),
    Text(String),
    Array(Vec<Json>),
    Object(Vec<(String, Json)>),
}

/// The value of the first member from `from` on that is called `key`.
pub open spec fn member_from(members: Seq<(String, Json)>, key: Seq<char>, from: int) -> Option<
    Json,
>
    decreases members.len() - from,
{
    if from < 0 || from >= members.len() {
        None
    } else if members[from].0@ == key {
        Some(members[from].1)
    } else {
        member_from(members, key, from + 1)
    }
}

/// The value that an optional reference refers to.
pub open spec fn referred(value: Option<&Json>) -> Option<Json> {
    match value {
        Some(value) => Some(*value),
        None => None,
    }
}

/// The member `key` of a value that may be absent.
pub open spec fn field_of(value: Option<Json>, key: Seq<char>) -> Option<Json> {
    match value {
        Some(value) => value.field(key),
        None => None,
    }
}

/// The text that an optional value holds.
pub open spec fn text_in(value: Option<Json>) -> Option<Seq<char>> {
    match value {
        Some(value) => value.text(),
        None => None,
    }
}

/// The integer that an optional value holds.
pub open spec fn integer_in(value: Option<Json>) -> Option<i64> {
    match value {
        Some(value) => value.integer(),
        None => None,
    }
}

/// The truth value that an optional value holds.
pub open spec fn bool_in(value: Option<Json>) -> Option<bool> {
    match value {
        Some(Json::Bool(b)) => Some(b),
        _ => None,
    }
}

/// The elements of an optional value, none where it is not an array.
pub open spec fn elements_in(value: Option<Json>) -> Seq<Json> {
    match value {
        Some(Json::Array(items)) => items@,
        _ => Seq::empty(),
    }
}

/// `text`, or the empty text.
pub open spec fn or_empty(text: Option<Seq<char>>) -> Seq<char> {
    match text {
        Some(text) => text,
        None => Seq::empty(),
    }
}

impl Json {
    /// The member `key`, where the value is an object that has one.
    pub open spec fn field(self, key: Seq<char>) -> Option<Json> {
        match self {
            Json::Object(members) => member_from(members@, key, 0),
            _ => None,
        }
    }

    /// The text, where the value is one.
    pub open spec fn text(self) -> Option<Seq<char>> {
        match self {
            Json::Text(text) => Some(text@),
            _ => None,
        }
    }

    /// The integer, where the value is one of 64 bits.
    pub open spec fn integer(self) -> Option<i64> {
        match self {
            Json::Number(n) => n,
            _ => None,
        }
    }

    /// The member `key`, where the value is an object that has one.
    pub fn get(&self, key: &str) -> (value: Option<&Json>)
        ensures
            referred(value) == self.field(key@),
    {
        match self {
            Json::Object(members) => find_member(members, key),
            _ => None,
        }
    }

    /// The integer, where the value is one of 64 bits.
    pub fn as_i64(&self) -> (value: Option<i64>)
        ensures
            value == self.integer(),
    {
        match self {
            Json::Number(n) => *n,
            _ => None,
        }
    }

    /// The text, where the value is one.
    pub fn as_str(&self) -> (value: Option<&str>)
        ensures
            text::opt_str(value) == self.text(),
    {
        match self {
            Json::Text(text) => Some(text.as_str()),
            _ => None,
        }
    }
}

/// The value of the first member that is called `key`.
fn find_member<'a>(members: &'a Vec<(String, Json)>, key: &str) -> (value: Option<&'a Json>)
    ensures
        referred(value) == member_from(members@, key@, 0),
{
    let mut i: usize = 0;
    while i < members.len()
        invariant
            i <= members@.len(),
            member_from(members@, key@, 0) == member_from(members@, key@, i as int),
        decreases members@.len() - i,
    {
        let (name, value) = &members[i];
        if text::same_text(name.as_str(), key) {
            return Some(value);
        }
        i += 1;
    }
    None
}

/// The member `key` of a value that may be absent.
pub fn get_in<'a>(value: Option<&'a Json>, key: &str) -> (member: Option<&'a Json>)
    ensures
        referred(member) == field_of(referred(value), key@),
{
    match value {
        Some(value) => value.get(key),
        None => None,
    }
}

// ---------------------------------------------------------------------------
// Laws
// ---------------------------------------------------------------------------

proof fn lemma_member_from(members: Seq<(String, Json)>, key: Seq<char>, from: int)
    requires
        0 <= from,
    ensures
        member_from(members, key, from) is None <==> forall|i: int|
            from <= i < members.len() ==> (#[trigger] members[i]).0@ != key,
        member_from(members, key, from) matches Some(value) ==> exists|i: int|
            {
                &&& from <= i < members.len()
                &&& (#[trigger] members[i]).0@ == key
                &&& members[i].1 == value
                &&& forall|j: int| from <= j < i ==> (#[trigger] members[j]).0@ != key
            },
    decreases members.len() - from,
{
    if from < members.len() && members[from].0@ != key {
        lemma_member_from(members, key, from + 1);
        if let Some(value) = member_from(members, key, from) {
            let i = choose|i: int|
                {
                    &&& from + 1 <= i < members.len()
                    &&& (#[trigger] members[i]).0@ == key
                    &&& members[i].1 == value
                    &&& forall|j: int| from + 1 <= j < i ==> (#[trigger] members[j]).0@ != key
                };
            assert(members[i].0@ == key);
            assert forall|j: int| from <= j < i implies (#[trigger] members[j]).0@ != key by {}
        }
    } else if from < members.len() {
        assert(members[from].0@ == key && members[from].1 == member_from(members, key, from)->0);
    }
}

/// A member of an object is found by its name: the first one of that name, and none exactly where
/// there is none of that name.
pub proof fn law_members_are_found_by_name(
    members: Vec<(String, Json)>,
    key: &str,
    found: Option<&Json>,
)
    requires
        call_ensures(Json::get, (&Json::Object(members), key), found),
    ensures
        found is None <==> forall|i: int|
            0 <= i < members@.len() ==> (#[trigger] members@[i]).0@ != key@,
        found matches Some(value) ==> exists|i: int|
            {
                &&& 0 <= i < members@.len()
                &&& (#[trigger] members@[i]).0@ == key@
                &&& members@[i].1 == *value
                &&& forall|j: int| 0 <= j < i ==> (#[trigger] members@[j]).0@ != key@
            },
{
    lemma_member_from(members@, key@, 0);
    assert(referred(found) == member_from(members@, key@, 0));
}

/// Only objects have members.
pub proof fn law_only_objects_have_members(value: Json, key: Seq<char>)
    requires
        value.field(key) is Some,
    ensures
        value is Object,
{
}

/// A number is read as an integer exactly where it is one of 64 bits, a text is read as it stands,
/// and neither is read from anything else.
pub proof fn law_scalars(value: Json)
    ensures
        value.integer() matches Some(n) ==> value == Json::Number(Some(n)),
        value matches Json::Number(Some(n)) ==> value.integer() == Some(n),
        value.text() matches Some(words) ==> (value matches Json::Text(text) && text@ == words),
        value matches Json::Text(text) ==> value.text() == Some(text@),
{
}

} // verus!
