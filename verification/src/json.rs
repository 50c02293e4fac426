use vstd::prelude::*;

use crate::text::signed_decimal;
use crate::text::i64_to_decimal;

verus! {

/// A JSON document as the library reads it.
///
/// A number keeps only what the library asks of it: its value when it is an
/// integer that fits in an `i64`, `None` otherwise. An object keeps its
/// members in order; lookups find the first member of a name.
#[derive(Debug)]
pub enum JsonValue {
    Null,
    Bool(bool),
    Number(Option<i64>),
    Str(String),
    Array(Vec<JsonValue>),
    Object(Vec<(String, JsonValue)>),
}

/// The first member named `key` among `members[from..]`.
pub open spec fn member_from(members: Seq<(String, JsonValue)>, key: Seq<char>, from: int) -> Option<JsonValue>
    decreases members.len() - from,
{
    if from < 0 || from >= members.len() {
        None
    } else if members[from].0@ == key {
        Some(members[from].1)
    } else {
        member_from(members, key, from + 1)
    }
}

/// The value of member `key` of `v`: `None` when `v` is not an object or
/// has no such member.
pub open spec fn member(v: JsonValue, key: Seq<char>) -> Option<JsonValue> {
    match v {
        JsonValue::Object(members) => member_from(members@, key, 0),
        _ => None,
    }
}

/// The text of member `key` of `v` when it is a string, else the empty text.
pub open spec fn text_member(v: JsonValue, key: Seq<char>) -> Seq<char> {
    match member(v, key) {
        Some(JsonValue::Str(s)) => s@,
        _ => Seq::empty(),
    }
}

/// The integer of member `key` of `v` when it is a number that fits in an `i64`.
pub open spec fn int_member(v: JsonValue, key: Seq<char>) -> Option<i64> {
    match member(v, key) {
        Some(JsonValue::Number(Some(i))) => Some(i),
        _ => None,
    }
}

/// The decimal rendering of member `key` of `v` when it is an integer,
/// else the empty text.
pub open spec fn int_text_member(v: JsonValue, key: Seq<char>) -> Seq<char> {
    match int_member(v, key) {
        Some(i) => signed_decimal(i as int),
        None => Seq::empty(),
    }
}

impl JsonValue {
    /// The value of member `key`, when `self` is an object that has one.
    pub fn get(&self, key: &str) -> (r: Option<&JsonValue>)
        ensures
            r matches Some(x) ==> member(*self, key@) == Some(*x),
            r is None ==> member(*self, key@) is None,
    {
        match self {
            JsonValue::Object(members) => {
                let k = key.to_owned();
                let n = members.len();
                let mut i: usize = 0;
                while i < n
                    invariant
                        n == members@.len(),
                        i <= n,
                        k@ == key@,
                        *self == JsonValue::Object(*members),
                        member_from(members@, key@, 0) == member_from(members@, key@, i as int),
                    decreases n - i,
                {
                    if members[i].0 == k {
                        assert(members@[i as int].0@ == key@);
                        assert(member_from(members@, key@, i as int) == Some(members@[i as int].1));
                        return Some(&members[i].1);
                    }
                    i = i + 1;
                }
                None
            },
            _ => None,
        }
    }

    /// The text of `self` when it is a string.
    pub fn as_str(&self) -> (r: Option<&String>)
        ensures
            r matches Some(s) ==> *self == JsonValue::Str(*s),
            r is None ==> !(self is Str),
    {
        match self {
            JsonValue::Str(s) => Some(s),
            _ => None,
        }
    }

    /// The integer value of `self` when it is a number that fits in an `i64`.
    pub fn as_i64(&self) -> (r: Option<i64>)
        ensures
            r == (match *self {
                JsonValue::Number(Some(i)) => Some(i),
                _ => None::<i64>,
            }),
    {
        match self {
            JsonValue::Number(Some(i)) => Some(*i),
            _ => None,
        }
    }
}

/// The text of member `key` of `obj` when it is a string, else the empty text.
pub fn obj_get(obj: &JsonValue, key: &str) -> (s: String)
    ensures
        s@ == text_member(*obj, key@),
{
    match obj.get(key) {
        Some(v) => match v.as_str() {
            Some(s) => s.clone(),
            None => String::new(),
        },
        None => String::new(),
    }
}

/// The decimal rendering of member `key` of `obj` when it is an integer that
/// fits in an `i64`, else the empty text.
pub fn obj_get_int_text(obj: &JsonValue, key: &str) -> (s: String)
    ensures
        s@ == int_text_member(*obj, key@),
{
    match obj.get(key) {
        Some(v) => match v.as_i64() {
            Some(i) => i64_to_decimal(i),
            None => String::new(),
        },
        None => String::new(),
    }
}

} // verus!
