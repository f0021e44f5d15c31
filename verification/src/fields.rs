//! How the fields of the bridge's records are read out of a JSON document.
//!
//! A record with `n` fields is written as an object whose members are found by name
//! (other members are ignored), or as an array of at most `n` elements that gives the
//! fields in their declared order. A field that is absent takes its default where it has
//! one; `null` stands for an absent optional value.
use vstd::prelude::*;

use crate::json::json_model;
use crate::json::items_model;
use crate::json::lookup;
use crate::json::members_model;
use crate::json::JsonModel;
use crate::json::JsonValue;
use crate::json::NumberModel;
use crate::json::JsonNumber;

verus! {

broadcast use vstd::std_specs::vec::group_vec_axioms;

/// The model of an optional value that has a view.
pub open spec fn opt_view<T: View>(o: Option<T>) -> Option<T::V> {
    match o {
        Some(x) => Some(x.view()),
        None => None,
    }
}

/// The model of an optional reference to a document.
pub open spec fn ref_model(f: Option<&JsonValue>) -> Option<JsonModel> {
    match f {
        Some(v) => Some(json_model(*v)),
        None => None,
    }
}

/// The texts of a list of strings.
pub open spec fn strings_model(v: Seq<String>) -> Seq<Seq<char>> {
    v.map_values(|s: String| s@)
}

/// The document in which field number `index`, named `name`, is given, if it is given.
pub open spec fn field_of(v: JsonModel, index: nat, name: Seq<char>) -> Option<JsonModel> {
    match v {
        JsonModel::Object(m) => lookup(m, name),
        JsonModel::Array(a) => if index < a.len() {
            Some(a[index as int])
        } else {
            None
        },
        _ => None,
    }
}

/// Whether `v` has the shape of a record with `n` fields.
pub open spec fn record_shape(v: JsonModel, n: nat) -> bool {
    match v {
        JsonModel::Object(_) => true,
        JsonModel::Array(a) => a.len() <= n,
        _ => false,
    }
}

/// The text of a string document (empty for any other document).
pub open spec fn text_of(v: JsonModel) -> Seq<char> {
    match v {
        JsonModel::Str(s) => s,
        _ => Seq::empty(),
    }
}

/// Whether every element is a string document.
pub open spec fn all_strings(items: Seq<JsonModel>) -> bool {
    forall|i: int| 0 <= i < items.len() ==> (#[trigger] items[i]) is Str
}

/// Whether every member's value is a string document.
pub open spec fn all_string_values(m: Seq<(Seq<char>, JsonModel)>) -> bool {
    forall|i: int| 0 <= i < m.len() ==> (#[trigger] m[i]).1 is Str
}

/// A required string field.
pub open spec fn dec_string(f: Option<JsonModel>) -> Option<Seq<char>> {
    match f {
        Some(JsonModel::Str(s)) => Some(s),
        _ => None,
    }
}

/// An optional string field: `Some(None)` when absent or null, `None` when ill-typed.
pub open spec fn dec_opt_string(f: Option<JsonModel>) -> Option<Option<Seq<char>>> {
    match f {
        None => Some(None),
        Some(JsonModel::Null) => Some(None),
        Some(JsonModel::Str(s)) => Some(Some(s)),
        _ => None,
    }
}

/// An optional document field; absent and null both give nothing.
pub open spec fn dec_opt_value(f: Option<JsonModel>) -> Option<JsonModel> {
    match f {
        None => None,
        Some(JsonModel::Null) => None,
        Some(v) => Some(v),
    }
}

/// A list of strings that defaults to the empty list.
pub open spec fn dec_string_list(f: Option<JsonModel>) -> Option<Seq<Seq<char>>> {
    match f {
        None => Some(Seq::empty()),
        Some(JsonModel::Array(items)) => if all_strings(items) {
            Some(items.map_values(|x: JsonModel| text_of(x)))
        } else {
            None
        },
        _ => None,
    }
}

/// Which values the environment of an exec request may hold.
#[derive(Debug, Clone, Copy, PartialEq, Eq)]
pub enum ExecEnv {
    /// Strings only.
    Strings,
    /// Any JSON values.
    AnyValues,
}

/// Whether the members of an environment object are admitted under `rule`.
pub open spec fn env_admits(rule: ExecEnv, m: Seq<(Seq<char>, JsonModel)>) -> bool {
    match rule {
        ExecEnv::Strings => all_string_values(m),
        ExecEnv::AnyValues => true,
    }
}

/// An optional environment: an object whose members `rule` admits, kept as they are.
pub open spec fn dec_opt_env(f: Option<JsonModel>, rule: ExecEnv) -> Option<
    Option<Seq<(Seq<char>, JsonModel)>>,
> {
    match f {
        None => Some(None),
        Some(JsonModel::Null) => Some(None),
        Some(JsonModel::Object(m)) => if env_admits(rule, m) {
            Some(Some(m))
        } else {
            None
        },
        _ => None,
    }
}

/// An optional unsigned 64-bit integer.
pub open spec fn dec_opt_u64(f: Option<JsonModel>) -> Option<Option<u64>> {
    match f {
        None => Some(None),
        Some(JsonModel::Null) => Some(None),
        Some(JsonModel::Number(NumberModel::PosInt(n))) => Some(Some(n)),
        _ => None,
    }
}

/// A required unsigned 16-bit integer.
pub open spec fn dec_u16(f: Option<JsonModel>) -> Option<u16> {
    match f {
        Some(JsonModel::Number(NumberModel::PosInt(n))) => if n <= u16::MAX {
            Some(n as u16)
        } else {
            None
        },
        _ => None,
    }
}

/// A required signed 32-bit integer.
pub open spec fn dec_i32(f: Option<JsonModel>) -> Option<i32> {
    match f {
        Some(JsonModel::Number(NumberModel::PosInt(n))) => if n <= i32::MAX {
            Some(n as i32)
        } else {
            None
        },
        Some(JsonModel::Number(NumberModel::NegInt(n))) => if i32::MIN <= n {
            Some(n as i32)
        } else {
            None
        },
        _ => None,
    }
}

/// An optional boolean.
pub open spec fn dec_opt_bool(f: Option<JsonModel>) -> Option<Option<bool>> {
    match f {
        None => Some(None),
        Some(JsonModel::Null) => Some(None),
        Some(JsonModel::Bool(b)) => Some(Some(b)),
        _ => None,
    }
}

/// A required boolean.
pub open spec fn dec_bool(f: Option<JsonModel>) -> Option<bool> {
    match f {
        Some(JsonModel::Bool(b)) => Some(b),
        _ => None,
    }
}

/// A boolean that defaults to `false`.
pub open spec fn dec_bool_or_false(f: Option<JsonModel>) -> Option<bool> {
    match f {
        None => Some(false),
        Some(JsonModel::Bool(b)) => Some(b),
        _ => None,
    }
}

/// The document in which a record's field is given.
pub fn field_of_exec<'a>(v: &'a JsonValue, index: usize, name: &str) -> (r: Option<&'a JsonValue>)
    ensures
        ref_model(r) == field_of(v@, index as nat, name@),
{
    match v {
        JsonValue::Object(_) => v.get(name),
        JsonValue::Array(items) => {
            if index < items.len() {
                assert(items_model(items@)[index as int] == json_model(items@[index as int]));
                Some(&items[index])
            } else {
                None
            }
        },
        _ => None,
    }
}

/// Whether `v` has the shape of a record with `n` fields.
pub fn record_shape_exec(v: &JsonValue, n: usize) -> (r: bool)
    ensures
        r == record_shape(v@, n as nat),
{
    match v {
        JsonValue::Object(_) => true,
        JsonValue::Array(items) => items.len() <= n,
        _ => false,
    }
}

pub fn decode_string(f: Option<&JsonValue>) -> (r: Option<String>)
    ensures
        opt_view(r) == dec_string(ref_model(f)),
{
    match f {
        Some(JsonValue::String(s)) => Some(s.clone()),
        _ => None,
    }
}

pub fn decode_opt_string(f: Option<&JsonValue>) -> (r: Option<Option<String>>)
    ensures
        match r {
            Some(o) => dec_opt_string(ref_model(f)) == Some(opt_view(o)),
            None => dec_opt_string(ref_model(f)) is None,
        },
{
    match f {
        None => Some(None),
        Some(JsonValue::Null) => Some(None),
        Some(JsonValue::String(s)) => Some(Some(s.clone())),
        _ => None,
    }
}

pub fn decode_opt_value(f: Option<&JsonValue>) -> (r: Option<JsonValue>)
    ensures
        opt_view(r) == dec_opt_value(ref_model(f)),
{
    match f {
        None => None,
        Some(JsonValue::Null) => None,
        Some(v) => Some(v.deep_clone()),
    }
}

pub fn decode_string_list(f: Option<&JsonValue>) -> (r: Option<Vec<String>>)
    ensures
        match r {
            Some(v) => dec_string_list(ref_model(f)) == Some(strings_model(v@)),
            None => dec_string_list(ref_model(f)) is None,
        },
{
    match f {
        None => {
            let v: Vec<String> = Vec::new();
            assert(strings_model(v@) =~= Seq::<Seq<char>>::empty());
            Some(v)
        },
        Some(JsonValue::Array(items)) => {
            let ghost im = items_model(items@);
            let mut out: Vec<String> = Vec::new();
            let mut i: usize = 0;
            while i < items.len()
                invariant
                    im == items_model(items@),
                    ref_model(f) == Some(JsonModel::Array(im)),
                    i <= items@.len(),
                    out@.len() == i,
                    forall|j: int| 0 <= j < i ==> im[j] is Str,
                    forall|j: int| 0 <= j < i ==> (#[trigger] out@[j])@ == text_of(im[j]),
                decreases items@.len() - i,
            {
                match &items[i] {
                    JsonValue::String(s) => {
                        out.push(s.clone());
                    },
                    _ => {
                        assert(!(im[i as int] is Str));
                        assert(!all_strings(im));
                        return None;
                    },
                }
                i = i + 1;
            }
            assert(all_strings(im));
            assert(strings_model(out@) =~= im.map_values(|x: JsonModel| text_of(x)));
            Some(out)
        },
        _ => None,
    }
}

pub fn decode_opt_env(f: Option<&JsonValue>, rule: ExecEnv) -> (r: Option<
    Option<Vec<(String, JsonValue)>>,
>)
    ensures
        match r {
            Some(Some(v)) => dec_opt_env(ref_model(f), rule) == Some(Some(members_model(v@))),
            Some(None) => dec_opt_env(ref_model(f), rule) == Some(
                None::<Seq<(Seq<char>, JsonModel)>>,
            ),
            None => dec_opt_env(ref_model(f), rule) is None,
        },
{
    match f {
        None => Some(None),
        Some(JsonValue::Null) => Some(None),
        Some(v) => match v {
            JsonValue::Object(members) => {
                let ghost mm = members_model(members@);
                match rule {
                    ExecEnv::Strings => {
                        let mut i: usize = 0;
                        while i < members.len()
                            invariant
                                mm == members_model(members@),
                                ref_model(f) == Some(JsonModel::Object(mm)),
                                rule == ExecEnv::Strings,
                                i <= members@.len(),
                                forall|j: int| 0 <= j < i ==> (#[trigger] mm[j]).1 is Str,
                            decreases members@.len() - i,
                        {
                            match &members[i].1 {
                                JsonValue::String(_) => {},
                                _ => {
                                    assert(!(mm[i as int].1 is Str));
                                    assert(!all_string_values(mm));
                                    return None;
                                },
                            }
                            i = i + 1;
                        }
                        assert(all_string_values(mm));
                    },
                    ExecEnv::AnyValues => {},
                }
                match v.deep_clone() {
                    JsonValue::Object(out) => Some(Some(out)),
                    _ => None,
                }
            },
            _ => None,
        },
    }
}


pub fn decode_opt_u64(f: Option<&JsonValue>) -> (r: Option<Option<u64>>)
    ensures
        r == dec_opt_u64(ref_model(f)),
{
    match f {
        None => Some(None),
        Some(JsonValue::Null) => Some(None),
        Some(JsonValue::Number(JsonNumber::PosInt(n))) => Some(Some(*n)),
        _ => None,
    }
}

pub fn decode_u16(f: Option<&JsonValue>) -> (r: Option<u16>)
    ensures
        r == dec_u16(ref_model(f)),
{
    match f {
        Some(JsonValue::Number(JsonNumber::PosInt(n))) => {
            if *n <= 65535 {
                Some(*n as u16)
            } else {
                None
            }
        },
        _ => None,
    }
}

pub fn decode_i32(f: Option<&JsonValue>) -> (r: Option<i32>)
    ensures
        r == dec_i32(ref_model(f)),
{
    match f {
        Some(JsonValue::Number(JsonNumber::PosInt(n))) => {
            if *n <= 2147483647 {
                Some(*n as i32)
            } else {
                None
            }
        },
        Some(JsonValue::Number(JsonNumber::NegInt(n))) => {
            if -2147483648 <= *n {
                Some(*n as i32)
            } else {
                None
            }
        },
        _ => None,
    }
}

pub fn decode_opt_bool(f: Option<&JsonValue>) -> (r: Option<Option<bool>>)
    ensures
        r == dec_opt_bool(ref_model(f)),
{
    match f {
        None => Some(None),
        Some(JsonValue::Null) => Some(None),
        Some(JsonValue::Bool(b)) => Some(Some(*b)),
        _ => None,
    }
}

pub fn decode_bool(f: Option<&JsonValue>) -> (r: Option<bool>)
    ensures
        r == dec_bool(ref_model(f)),
{
    match f {
        Some(JsonValue::Bool(b)) => Some(*b),
        _ => None,
    }
}

pub fn decode_bool_or_false(f: Option<&JsonValue>) -> (r: Option<bool>)
    ensures
        r == dec_bool_or_false(ref_model(f)),
{
    match f {
        None => Some(false),
        Some(JsonValue::Bool(b)) => Some(*b),
        _ => None,
    }
}

} // verus!
