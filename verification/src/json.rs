//! JSON values as plain data, and their mathematical model.
use vstd::prelude::*;

use crate::members::{
    first_members, lemma_first_members, lemma_member_of_its_key, lemma_no_member,
};
use crate::text::same_text;

verus! {

broadcast use vstd::string::group_string_axioms;

/// A JSON number: an integer, or the bits of a finite IEEE 754 double.
#[derive(Clone, Copy, Debug, PartialEq, Eq, Structural)]
pub enum Number {
    /// An integer that is not negative.
    PosInt(u64),
    /// A negative integer.
    NegInt(i64),
    /// Any other number, by the bits of its double.
    FloatBits(u64),
}

/// A JSON value.
#[derive(Debug, PartialEq)]
pub enum Value {
    Null,
    Bool(bool),
    Number(Number),
    String(String),
    Array(Vec<Value>),
    /// Members by name. Where a name occurs twice, its first member counts.
    Object(Vec<(String, Value)>),
}

/// The model of a JSON value: texts are sequences of characters and an object is a map.
pub enum Json {
    Null,
    Bool(bool),
    Number(Number),
    String(Seq<char>),
    Array(Seq<Json>),
    Object(Map<Seq<char>, Json>),
}

impl Json {
    /// The member `key` of an object; no other value has members.
    pub open spec fn get(self, key: Seq<char>) -> Option<Json> {
        match self {
            Json::Object(members) => if members.dom().contains(key) {
                Some(members[key])
            } else {
                None
            },
            _ => None,
        }
    }

    /// The text of a string value.
    pub open spec fn as_str(self) -> Option<Seq<char>> {
        match self {
            Json::String(s) => Some(s),
            _ => None,
        }
    }

    /// The items of an array.
    pub open spec fn as_array(self) -> Option<Seq<Json>> {
        match self {
            Json::Array(items) => Some(items),
            _ => None,
        }
    }

    /// The text of the member `key`, where that member is a string.
    pub open spec fn get_str(self, key: Seq<char>) -> Option<Seq<char>> {
        match self.get(key) {
            Some(member) => member.as_str(),
            None => None,
        }
    }
}

/// The model of a list of members, in their order.
pub open spec fn members_view(members: Seq<(String, Value)>) -> Seq<(Seq<char>, Json)>
    decreases members,
{
    Seq::new(
        members.len(),
        |i: int|
            if 0 <= i < members.len() {
                (members[i].0@, members[i].1.view())
            } else {
                arbitrary()
            },
    )
}

/// The models of a list of values, in their order.
pub open spec fn items_view(items: Seq<Value>) -> Seq<Json>
    decreases items,
{
    Seq::new(
        items.len(),
        |i: int|
            if 0 <= i < items.len() {
                items[i].view()
            } else {
                arbitrary()
            },
    )
}

impl View for Value {
    type V = Json;

    open spec fn view(&self) -> Json
        decreases self,
    {
        match self {
            Value::Null => Json::Null,
            Value::Bool(b) => Json::Bool(*b),
            Value::Number(n) => Json::Number(*n),
            Value::String(s) => Json::String(s@),
            Value::Array(items) => Json::Array(items_view(items@)),
            Value::Object(members) => Json::Object(first_members(members_view(members@))),
        }
    }
}

/// The model of a value that may be absent.
pub open spec fn opt_json(v: Option<Value>) -> Option<Json> {
    match v {
        Some(value) => Some(value@),
        None => None,
    }
}

impl Value {
    /// The member `key` of an object; `None` of any other value.
    pub fn get(&self, key: &str) -> (r: Option<&Value>)
        ensures
            match r {
                Some(v) => self@.get(key@) == Some(v@),
                None => self@.get(key@) is None,
            },
    {
        match self {
            Value::Object(members) => {
                let ghost model = members_view(members@);
                let mut i: usize = 0;
                while i < members.len()
                    invariant
                        i <= members@.len(),
                        *self == Value::Object(*members),
                        model == members_view(members@),
                        forall|k: int| 0 <= k < i ==> #[trigger] model[k].0 != key@,
                    decreases members@.len() - i,
                {
                    if same_text(members[i].0.as_str(), key) {
                        proof {
                            lemma_first_members(model, key@, i as int);
                            assert(model.skip(i as int)[0] == model[i as int]);
                            assert(model[i as int].0 == key@);
                        }
                        return Some(&members[i].1);
                    }
                    assert(model[i as int].0 != key@);
                    i = i + 1;
                }
                proof {
                    lemma_first_members(model, key@, i as int);
                    assert(model.skip(i as int).len() == 0);
                }
                None
            },
            _ => None,
        }
    }

    /// The text of a string value.
    pub fn as_str(&self) -> (r: Option<&str>)
        ensures
            match r {
                Some(s) => self@.as_str() == Some(s@),
                None => self@.as_str() is None,
            },
    {
        match self {
            Value::String(s) => Some(s.as_str()),
            _ => None,
        }
    }

    /// The items of an array.
    pub fn as_array(&self) -> (r: Option<&Vec<Value>>)
        ensures
            match r {
                Some(items) => self@.as_array() == Some(items_view(items@)),
                None => self@.as_array() is None,
            },
    {
        match self {
            Value::Array(items) => Some(items),
            _ => None,
        }
    }

    /// The text of the member `key`, where that member is a string.
    pub fn get_str(&self, key: &str) -> (r: Option<&str>)
        ensures
            match r {
                Some(s) => self@.get_str(key@) == Some(s@),
                None => self@.get_str(key@) is None,
            },
    {
        match self.get(key) {
            Some(member) => member.as_str(),
            None => None,
        }
    }
}

impl Clone for Value {
    fn clone(&self) -> (r: Value)
        ensures
            r@ == self@,
        decreases self,
    {
        match self {
            Value::Null => Value::Null,
            Value::Bool(b) => Value::Bool(*b),
            Value::Number(n) => Value::Number(*n),
            Value::String(s) => Value::String(s.clone()),
            Value::Array(items) => {
                let mut copy: Vec<Value> = Vec::new();
                let mut i: usize = 0;
                while i < items.len()
                    invariant
                        i <= items@.len(),
                        copy@.len() == i,
                        *self == Value::Array(*items),
                        forall|k: int| 0 <= k < i ==> (#[trigger] copy@[k])@ == items@[k]@,
                    decreases items@.len() - i,
                {
                    assert(decreases_to!(*self => self->Array_0));
                    assert(decreases_to!(self->Array_0@ => self->Array_0@[i as int]));
                    assert(decreases_to!(*self => items@[i as int]));
                    copy.push(items[i].clone());
                    i = i + 1;
                }
                assert(items_view(copy@) =~= items_view(items@));
                Value::Array(copy)
            },
            Value::Object(members) => {
                let mut copy: Vec<(String, Value)> = Vec::new();
                let mut i: usize = 0;
                while i < members.len()
                    invariant
                        i <= members@.len(),
                        copy@.len() == i,
                        *self == Value::Object(*members),
                        forall|k: int|
                            0 <= k < i ==> (#[trigger] copy@[k]).0@ == members@[k].0@
                                && copy@[k].1@ == members@[k].1@,
                    decreases members@.len() - i,
                {
                    assert(decreases_to!(*self => self->Object_0));
                    assert(decreases_to!(self->Object_0@ => self->Object_0@[i as int]));
                    assert(decreases_to!(*self => members@[i as int].1));
                    copy.push((members[i].0.clone(), members[i].1.clone()));
                    i = i + 1;
                }
                assert(members_view(copy@) =~= members_view(members@));
                Value::Object(copy)
            },
        }
    }
}

// ---------------------------------------------------------------------------------------------
// Laws
// ---------------------------------------------------------------------------------------------

/// The model of a value holds what the value holds.
pub proof fn law_model_holds_the_value(value: Value)
    ensures
        value is Null <==> value@ is Null,
        value matches Value::Bool(b) ==> value@ == Json::Bool(b),
        value matches Value::Number(n) ==> value@ == Json::Number(n),
        value matches Value::String(s) ==> value@ == Json::String(s@),
        value matches Value::Array(items) ==> {
            &&& value@ is Array
            &&& value@->Array_0.len() == items@.len()
            &&& forall|i: int|
                0 <= i < items@.len() ==> #[trigger] value@->Array_0[i] == items@[i]@
        },
        value is Object <==> value@ is Object,
{
    if let Value::Array(items) = value {
        assert(value@ == Json::Array(items_view(items@)));
        assert forall|i: int| 0 <= i < items@.len() implies #[trigger] items_view(items@)[i]
            == items@[i]@ by {}
    }
}

/// Reading a member by its name gives the first member of that name, an object has no other
/// members, and what is no object has none.
pub proof fn law_members_are_read_by_name(value: Value, members: Seq<(String, Value)>, i: int)
    requires
        value matches Value::Object(list) && list@ == members,
        0 <= i < members.len(),
        forall|k: int| 0 <= k < i ==> (#[trigger] members[k]).0@ != members[i].0@,
    ensures
        value@.get(members[i].0@) == Some(members[i].1@),
        members[i].1 matches Value::String(text) ==> value@.get_str(members[i].0@) == Some(text@),
        !(members[i].1 is String) ==> value@.get_str(members[i].0@) is None,
{
    let model = members_view(members);
    assert forall|k: int| 0 <= k < i implies #[trigger] model[k].0 != model[i].0 by {
        assert(members[k].0@ != members[i].0@);
    }
    lemma_member_of_its_key(model, i);
    assert(model[i] == (members[i].0@, members[i].1@));
}

/// A name that no member has gives nothing, and only objects have members.
pub proof fn law_absent_members_are_not_read(value: Value, name: Seq<char>)
    requires
        value matches Value::Object(list) ==> forall|k: int|
            0 <= k < list@.len() ==> (#[trigger] list@[k]).0@ != name,
    ensures
        value@.get(name) is None,
        value@.get_str(name) is None,
{
    if let Value::Object(list) = value {
        let model = members_view(list@);
        assert forall|k: int| 0 <= k < model.len() implies #[trigger] model[k].0 != name by {
            assert(list@[k].0@ != name);
        }
        lemma_no_member(model, name);
    }
}

/// Only a text reads as one, and only an array has items.
pub proof fn law_texts_and_items(json: Json)
    ensures
        json matches Json::String(text) ==> json.as_str() == Some(text),
        !(json is String) ==> json.as_str() is None,
        json matches Json::Array(items) ==> json.as_array() == Some(items),
        !(json is Array) ==> json.as_array() is None,
{
}

} // verus!
