//! JSON values, taken apart by one level.
use vstd::prelude::*;

use serde_json::{Number, Value};

verus! {

/// A JSON value whose outermost kind is known. What an array or an object holds
/// stays closed.
#[derive(Debug)]
pub enum JsonValue {
    /// `null`.
    Null,
    /// `true` or `false`.
    Bool(bool),
    /// A number.
    Number(Number),
    /// A string.
    Text(String),
    /// An array.
    Array(Vec<Value>),
    /// The members of an object, in some order.
    Object(Vec<(String, Value)>),
}

/// A [`JsonValue`], by its contents. The members of an object have no order.
pub enum JsonView {
    Null,
    Bool(bool),
    Number(Number),
    Text(Seq<char>),
    Array(Seq<Value>),
    Object(Map<Seq<char>, Value>),
}

/// The members of an object, by their keys.
pub open spec fn by_key(members: Seq<(String, Value)>) -> Map<Seq<char>, Value>
    decreases members.len(),
{
    if members.len() == 0 {
        Map::empty()
    } else {
        by_key(members.drop_last()).insert(members.last().0@, members.last().1)
    }
}

/// Whether no two members have the same key.
pub open spec fn distinct_keys(members: Seq<(String, Value)>) -> bool {
    forall|i: int, j: int|
        0 <= i < j < members.len() ==> (#[trigger] members[i]).0@ != (#[trigger] members[j]).0@
}

impl View for JsonValue {
    type V = JsonView;

    open spec fn view(&self) -> JsonView {
        match *self {
            JsonValue::Null => JsonView::Null,
            JsonValue::Bool(b) => JsonView::Bool(b),
            JsonValue::Number(number) => JsonView::Number(number),
            JsonValue::Text(text) => JsonView::Text(text@),
            JsonValue::Array(items) => JsonView::Array(items@),
            JsonValue::Object(members) => JsonView::Object(by_key(members@)),
        }
    }
}

/// The value of the member with a key, if there is one.
pub open spec fn lookup(members: Map<Seq<char>, Value>, key: Seq<char>) -> Option<Value> {
    if members.dom().contains(key) {
        Some(members[key])
    } else {
        None
    }
}

/// The value of the member with a key, if there is one.
pub fn member(members: &Vec<(String, Value)>, key: &str) -> (value: Option<Value>)
    ensures
        value == lookup(by_key(members@), key@),
        value matches Some(v) ==> exists|i: int|
            {
                &&& 0 <= i < members@.len()
                &&& (#[trigger] members@[i]).0@ == key@
                &&& members@[i].1 == v
                &&& forall|j: int| i < j < members@.len() ==> (#[trigger] members@[j]).0@ != key@
            },
        value is None ==> forall|i: int|
            0 <= i < members@.len() ==> (#[trigger] members@[i]).0@ != key@,
{
    let key = String::from(key);
    let mut found: Option<Value> = None;
    for i in 0..members.len()
        invariant
            found == lookup(by_key(members@.take(i as int)), key@),
            found matches Some(v) ==> exists|k: int|
                {
                    &&& 0 <= k < i
                    &&& (#[trigger] members@[k]).0@ == key@
                    &&& members@[k].1 == v
                    &&& forall|j: int| k < j < i ==> (#[trigger] members@[j]).0@ != key@
                },
            found is None ==> forall|j: int| 0 <= j < i ==> (#[trigger] members@[j]).0@ != key@,
    {
        assert(members@.take(i + 1).drop_last() == members@.take(i as int));
        if members[i].0 == key {
            found = Some(members[i].1.clone());
            assert(members@[i as int].0@ == key@);
        }
    }
    assert(members@.take(members@.len() as int) == members@);
    found
}

proof fn members_are_found_by_key(members: Seq<(String, Value)>, i: int)
    requires
        0 <= i < members.len(),
    ensures
        by_key(members).dom().contains(members[i].0@),
    decreases members.len(),
{
    if i < members.len() - 1 {
        members_are_found_by_key(members.drop_last(), i);
    }
}

/// Give an object one more member.
pub fn attach(members: &mut Vec<(String, Value)>, key: &str, value: Value)
    requires
        distinct_keys(old(members)@),
        !by_key(old(members)@).dom().contains(key@),
    ensures
        distinct_keys(final(members)@),
        by_key(final(members)@) == by_key(old(members)@).insert(key@, value),
        final(members)@.len() == old(members)@.len() + 1,
        final(members)@.drop_last() == old(members)@,
        final(members)@.last().0@ == key@,
        final(members)@.last().1 == value,
{
    let ghost before = members@;
    members.push((String::from(key), value));
    proof {
        assert(members@.drop_last() == before);
        assert forall|i: int| 0 <= i < before.len() implies (#[trigger] members@[i]).0@ != key@ by {
            members_are_found_by_key(before, i);
        }
    }
}

/// The view of a JSON value is what the value holds, of the same kind.
pub proof fn view_is_what_the_value_holds(value: JsonValue)
    ensures
        value is Null <==> value@ is Null,
        value matches JsonValue::Bool(b) ==> value@ == JsonView::Bool(b),
        value matches JsonValue::Number(number) ==> value@ == JsonView::Number(number),
        value matches JsonValue::Text(text) ==> value@ == JsonView::Text(text@),
        value matches JsonValue::Array(items) ==> value@ == JsonView::Array(items@),
        value matches JsonValue::Object(members) ==> value@ == JsonView::Object(by_key(members@)),
{
}

/// Members are found under their own keys, if the keys differ, and nothing else is
/// found.
pub proof fn members_stand_under_their_keys(members: Seq<(String, Value)>)
    requires
        forall|i: int, j: int|
            0 <= i < j < members.len() ==> (#[trigger] members[i]).0@ != (#[trigger] members[j]).0@,
    ensures
        distinct_keys(members),
        forall|i: int|
            0 <= i < members.len() ==> {
                &&& by_key(members).dom().contains((#[trigger] members[i]).0@)
                &&& by_key(members)[members[i].0@] == members[i].1
                &&& lookup(by_key(members), members[i].0@) == Some(members[i].1)
            },
        forall|key: Seq<char>|
            (forall|i: int| 0 <= i < members.len() ==> (#[trigger] members[i]).0@ != key) ==> {
                &&& !(#[trigger] by_key(members).dom().contains(key))
                &&& lookup(by_key(members), key) is None
            },
    decreases members.len(),
{
    if members.len() > 0 {
        let rest = members.drop_last();
        assert forall|i: int, j: int| 0 <= i < j < rest.len() implies (#[trigger] rest[i]).0@ != (
        #[trigger] rest[j]).0@ by {
            assert(rest[i] == members[i] && rest[j] == members[j]);
        }
        members_stand_under_their_keys(rest);
        assert forall|i: int| 0 <= i < members.len() implies {
            &&& by_key(members).dom().contains((#[trigger] members[i]).0@)
            &&& by_key(members)[members[i].0@] == members[i].1
        } by {
            if i < rest.len() {
                assert(rest[i] == members[i]);
            }
        }
        assert forall|key: Seq<char>|
            (forall|i: int| 0 <= i < members.len() ==> (#[trigger] members[i]).0@ != key) implies !(
        #[trigger] by_key(members).dom().contains(key)) by {
            assert(members[members.len() - 1].0@ != key);
            assert forall|i: int| 0 <= i < rest.len() implies (#[trigger] rest[i]).0@ != key by {
                assert(rest[i] == members[i]);
            }
            assert(!by_key(rest).dom().contains(key));
        }
    }
}

/// Members with distinct keys are as many as their keys.
pub proof fn distinct_members_are_counted_by_key(members: Seq<(String, Value)>)
    requires
        distinct_keys(members),
    ensures
        by_key(members).dom().finite(),
        by_key(members).dom().len() == members.len(),
        forall|key: Seq<char>| #[trigger]
            by_key(members).dom().contains(key) ==> exists|i: int|
                0 <= i < members.len() && (#[trigger] members[i]).0@ == key,
    decreases members.len(),
{
    if members.len() > 0 {
        let rest = members.drop_last();
        distinct_members_are_counted_by_key(rest);
        assert forall|key: Seq<char>| #[trigger]
            by_key(members).dom().contains(key) implies exists|i: int|
            0 <= i < members.len() && (#[trigger] members[i]).0@ == key by {
            if by_key(rest).dom().contains(key) {
                let i = choose|i: int| 0 <= i < rest.len() && (#[trigger] rest[i]).0@ == key;
                assert(members[i].0@ == key);
            } else {
                assert(members[members.len() - 1].0@ == key);
            }
        }
    }
}

} // verus!
