//! The JSON documents that travel across the host boundary, held as a tree.
//!
//! Text is turned into a [`JsonValue`] (and back) at the boundary; everything the bridge
//! decides about a document is decided on this tree, and stated over its model
//! [`JsonModel`].
use vstd::prelude::*;

verus! {

broadcast use vstd::std_specs::vec::group_vec_axioms;

/// Mathematical model of a JSON number.
pub enum NumberModel {
    PosInt(u64),
    NegInt(i64),
    Float(Seq<char>),
}

/// Mathematical model of a JSON document: objects are sequences of members in the
/// order in which they were given.
pub enum JsonModel {
    Null,
    Bool(bool),
    Number(NumberModel),
    Str(Seq<char>),
    Array(Seq<JsonModel>),
    Object(Seq<(Seq<char>, JsonModel)>),
}

/// A JSON number: a non-negative integer, a negative integer, or any other number,
/// which is carried by its JSON text.
#[derive(Debug, PartialEq, Eq)]
pub enum JsonNumber {
    PosInt(u64),
    NegInt(i64),
    Float(String),
}

/// A JSON document.
#[derive(Debug, PartialEq, Eq)]
pub enum JsonValue {
    Null,
    Bool(bool),
    Number(JsonNumber),
    String(String),
    Array(Vec<JsonValue>),
    Object(Vec<(String, JsonValue)>),
}

impl View for JsonNumber {
    type V = NumberModel;

    open spec fn view(&self) -> NumberModel {
        match self {
            JsonNumber::PosInt(n) => NumberModel::PosInt(*n),
            JsonNumber::NegInt(n) => NumberModel::NegInt(*n),
            JsonNumber::Float(s) => NumberModel::Float(s@),
        }
    }
}

pub open spec fn json_model(v: JsonValue) -> JsonModel
    decreases v,
{
    match v {
        JsonValue::Null => JsonModel::Null,
        JsonValue::Bool(b) => JsonModel::Bool(b),
        JsonValue::Number(n) => JsonModel::Number(n@),
        JsonValue::String(s) => JsonModel::Str(s@),
        JsonValue::Array(items) => JsonModel::Array(items_model(items@)),
        JsonValue::Object(members) => JsonModel::Object(members_model(members@)),
    }
}

pub open spec fn items_model(s: Seq<JsonValue>) -> Seq<JsonModel>
    decreases s,
{
    Seq::new(s.len(), |i: int| if 0 <= i < s.len() { json_model(s[i]) } else { JsonModel::Null })
}

pub open spec fn members_model(s: Seq<(String, JsonValue)>) -> Seq<(Seq<char>, JsonModel)>
    decreases s,
{
    Seq::new(
        s.len(),
        |i: int|
            if 0 <= i < s.len() {
                (s[i].0@, json_model(s[i].1))
            } else {
                (Seq::empty(), JsonModel::Null)
            },
    )
}

impl View for JsonValue {
    type V = JsonModel;

    open spec fn view(&self) -> JsonModel {
        json_model(*self)
    }
}

/// The model of an optional document.
pub open spec fn opt_model(v: Option<JsonValue>) -> Option<JsonModel> {
    match v {
        Some(x) => Some(x@),
        None => None,
    }
}

/// The value of the first member named `key`, as `serde_json` finds it in a map.
pub open spec fn lookup(m: Seq<(Seq<char>, JsonModel)>, key: Seq<char>) -> Option<JsonModel>
    decreases m.len(),
{
    if m.len() == 0 {
        None
    } else if m[0].0 == key {
        Some(m[0].1)
    } else {
        lookup(m.drop_first(), key)
    }
}

impl JsonModel {
    /// `value.get(key)`: the member named `key` of an object; nothing for any other value.
    pub open spec fn get(self, key: Seq<char>) -> Option<JsonModel> {
        match self {
            JsonModel::Object(m) => lookup(m, key),
            _ => None,
        }
    }

    /// `value.as_str()`.
    pub open spec fn str_value(self) -> Option<Seq<char>> {
        match self {
            JsonModel::Str(s) => Some(s),
            _ => None,
        }
    }

    /// A string document, or null when there is none.
    pub open spec fn str_or_null(s: Option<Seq<char>>) -> JsonModel {
        match s {
            Some(t) => JsonModel::Str(t),
            None => JsonModel::Null,
        }
    }
}

/// A `String` with the contents of `s`.
pub fn owned(s: &str) -> (r: String)
    ensures
        r@ == s@,
{
    s.to_owned()
}

/// A string document holding the contents of `s`.
pub fn json_str(s: &str) -> (r: JsonValue)
    ensures
        r@ == JsonModel::Str(s@),
{
    JsonValue::String(s.to_owned())
}

impl JsonNumber {
    pub fn deep_clone(&self) -> (r: JsonNumber)
        ensures
            r@ == self@,
    {
        match self {
            JsonNumber::PosInt(x) => JsonNumber::PosInt(*x),
            JsonNumber::NegInt(x) => JsonNumber::NegInt(*x),
            JsonNumber::Float(s) => JsonNumber::Float(s.clone()),
        }
    }
}

impl JsonValue {
    /// A copy of the whole document.
    pub fn deep_clone(&self) -> (r: JsonValue)
        ensures
            r@ == self@,
        decreases self,
    {
        match self {
            JsonValue::Null => JsonValue::Null,
            JsonValue::Bool(b) => JsonValue::Bool(*b),
            JsonValue::Number(n) => JsonValue::Number(n.deep_clone()),
            JsonValue::String(s) => JsonValue::String(s.clone()),
            JsonValue::Array(items) => {
                proof {
                    assert(decreases_to!(*self => *items));
                    assert forall|k: int| 0 <= k < items@.len() implies decreases_to!(*self => #[trigger] items@[k]) by {
                        assert(decreases_to!(*items => items[k]));
                    }
                }
                let mut out: Vec<JsonValue> = Vec::new();
                let mut i: usize = 0;
                while i < items.len()
                    invariant
                        forall|k: int| 0 <= k < items@.len() ==> decreases_to!(*self => #[trigger] items@[k]),
                        i <= items@.len(),
                        out@.len() == i,
                        forall|j: int| 0 <= j < i ==> json_model(#[trigger] out@[j]) == json_model(items@[j]),
                    decreases items@.len() - i,
                {
                    let c = items[i].deep_clone();
                    out.push(c);
                    i = i + 1;
                }
                let r = JsonValue::Array(out);
                assert(items_model(out@) =~= items_model(items@));
                r
            },
            JsonValue::Object(members) => {
                proof {
                    assert(decreases_to!(*self => *members));
                    assert forall|k: int| 0 <= k < members@.len() implies decreases_to!(*self => #[trigger] members@[k].1) by {
                        assert(decreases_to!(*members => members[k]));
                        assert(decreases_to!(members[k] => members[k].1));
                    }
                }
                let mut out: Vec<(String, JsonValue)> = Vec::new();
                let mut i: usize = 0;
                while i < members.len()
                    invariant
                        forall|k: int| 0 <= k < members@.len() ==> decreases_to!(*self => #[trigger] members@[k].1),
                        i <= members@.len(),
                        out@.len() == i,
                        forall|j: int|
                            0 <= j < i ==> (#[trigger] out@[j]).0@ == members@[j].0@ && json_model(
                                out@[j].1,
                            ) == json_model(members@[j].1),
                    decreases members@.len() - i,
                {
                    let k = members[i].0.clone();
                    let c = members[i].1.deep_clone();
                    out.push((k, c));
                    i = i + 1;
                }
                let r = JsonValue::Object(out);
                assert(members_model(out@) =~= members_model(members@));
                r
            },
        }
    }

    /// The member named `key` of an object (the first one, should the name occur twice);
    /// nothing for any other value.
    pub fn get(&self, key: &str) -> (r: Option<&JsonValue>)
        ensures
            match r {
                Some(v) => self@.get(key@) == Some(v@),
                None => self@.get(key@) is None,
            },
    {
        match self {
            JsonValue::Object(members) => {
                let key_owned = owned(key);
                let ghost mm = members_model(members@);
                let mut i: usize = 0;
                assert(mm.subrange(0, mm.len() as int) =~= mm);
                while i < members.len()
                    invariant
                        mm == members_model(members@),
                        self@ == JsonModel::Object(mm),
                        key_owned@ == key@,
                        i <= members@.len(),
                        lookup(mm, key@) == lookup(mm.subrange(i as int, mm.len() as int), key@),
                    decreases members@.len() - i,
                {
                    let ghost rest = mm.subrange(i as int, mm.len() as int);
                    if members[i].0 == key_owned {
                        assert(rest[0] == mm[i as int]);
                        assert(mm[i as int].0 == key@);
                        assert(lookup(rest, key@) == Some(rest[0].1));
                        assert(self@ == JsonModel::Object(mm));
                        return Some(&members[i].1);
                    }
                    assert(rest.drop_first() =~= mm.subrange(i + 1, mm.len() as int));
                    i = i + 1;
                }
                None
            },
            _ => None,
        }
    }

    /// The text of a string document.
    pub fn as_str(&self) -> (r: Option<&String>)
        ensures
            match r {
                Some(s) => self@ == JsonModel::Str(s@),
                None => self@.str_value() is None,
            },
    {
        match self {
            JsonValue::String(s) => Some(s),
            _ => None,
        }
    }
}

impl Clone for JsonValue {
    fn clone(&self) -> (r: Self)
        ensures
            r@ == self@,
    {
        self.deep_clone()
    }
}

impl Clone for JsonNumber {
    fn clone(&self) -> (r: Self)
        ensures
            r@ == self@,
    {
        self.deep_clone()
    }
}

/// Appends the member `key: value` to the members of an object under construction.
pub fn push_member(out: &mut Vec<(String, JsonValue)>, key: &str, value: JsonValue)
    ensures
        members_model(final(out)@) == members_model(old(out)@).push((key@, value@)),
{
    let ghost before = out@;
    out.push((key.to_owned(), value));
    assert(members_model(out@) =~= members_model(before).push((key@, json_model(out@[out@.len() - 1].1))));
}

/// Appends `value` to the elements of an array under construction.
pub fn push_item(out: &mut Vec<JsonValue>, value: JsonValue)
    ensures
        items_model(final(out)@) == items_model(old(out)@).push(value@),
{
    let ghost before = out@;
    out.push(value);
    assert(items_model(out@) =~= items_model(before).push(json_model(out@[out@.len() - 1])));
}

/// A copy of the members of an object.
pub fn clone_members(members: &Vec<(String, JsonValue)>) -> (r: Vec<(String, JsonValue)>)
    ensures
        members_model(r@) == members_model(members@),
{
    let mut out: Vec<(String, JsonValue)> = Vec::new();
    let mut i: usize = 0;
    while i < members.len()
        invariant
            i <= members@.len(),
            out@.len() == i,
            forall|j: int|
                0 <= j < i ==> (#[trigger] out@[j]).0@ == members@[j].0@ && json_model(out@[j].1)
                    == json_model(members@[j].1),
        decreases members@.len() - i,
    {
        let k = members[i].0.clone();
        let c = members[i].1.deep_clone();
        out.push((k, c));
        i = i + 1;
    }
    assert(members_model(out@) =~= members_model(members@));
    out
}

/// A copy of an optional document.
pub fn clone_opt(v: &Option<JsonValue>) -> (r: Option<JsonValue>)
    ensures
        opt_model(r) == opt_model(*v),
{
    match v {
        Some(x) => Some(x.deep_clone()),
        None => None,
    }
}

} // verus!
