use vstd::prelude::*;

verus! {

/// A number from a JSON document, in the two integer readings that the
/// normaliser uses.
pub struct JsonNumber {
    /// The number itself, when it is an integer that fits in an `i64`.
    pub exact: Option<i64>,
    /// The number rounded to the nearest integer (halves away from zero),
    /// saturated to the `i64` range.
    pub nearest: i64,
}

/// One `"key": value` entry of a JSON object.
pub struct Member {
    pub key: String,
    pub value: Json,
}

/// A parsed JSON document.
pub enum Json {
    Null,
    Bool(bool),
    Number(JsonNumber),
    Str(String),
    Array(Vec<Json>),
    Object(Vec<Member>),
}

/// The value of the first member of `members` named `key`.
pub open spec fn lookup(members: Seq<Member>, key: Seq<char>) -> Option<Json>
    decreases members.len(),
{
    if members.len() == 0 {
        None
    } else if members[0].key@ == key {
        Some(members[0].value)
    } else {
        lookup(members.drop_first(), key)
    }
}

/// The value that an optional reference points to.
pub open spec fn deref(j: Option<&Json>) -> Option<Json> {
    match j {
        Some(v) => Some(*v),
        None => None,
    }
}

/// The member `key` of `j`, when `j` is present and an object that has one.
pub open spec fn get(j: Option<Json>, key: Seq<char>) -> Option<Json> {
    match j {
        Some(Json::Object(members)) => lookup(members@, key),
        _ => None,
    }
}

/// The text of `j` when it is a string, else `default`.
pub open spec fn str_or(j: Option<Json>, default: Seq<char>) -> Seq<char> {
    match j {
        Some(Json::Str(s)) => s@,
        _ => default,
    }
}

/// The integer `j` when it is a number that is an `i64`, else `default`.
pub open spec fn int_or(j: Option<Json>, default: int) -> int {
    match j {
        Some(Json::Number(n)) => match n.exact {
            Some(i) => i as int,
            None => default,
        },
        _ => default,
    }
}

/// The number `j` rounded to an integer when it is a number, else `default`.
pub open spec fn rounded_or(j: Option<Json>, default: int) -> int {
    match j {
        Some(Json::Number(n)) => n.nearest as int,
        _ => default,
    }
}

/// The items of `j` when it is an array, else none.
pub open spec fn items(j: Option<Json>) -> Seq<Json> {
    match j {
        Some(Json::Array(v)) => v@,
        _ => Seq::empty(),
    }
}

impl Json {
    /// The member `key` of this value, when it is an object that has one.
    pub fn member(&self, key: &str) -> (r: Option<&Json>)
        ensures
            deref(r) == get(Some(*self), key@),
    {
        match self {
            Json::Object(members) => {
                let name = String::from_str(key);
                let mut i: usize = 0;
                assert(members@.skip(0) =~= members@);
                while i < members.len()
                    invariant
                        i <= members@.len(),
                        name@ == key@,
                        get(Some(*self), key@) == lookup(members@, key@),
                        lookup(members@, key@) == lookup(members@.skip(i as int), key@),
                    decreases members@.len() - i,
                {
                    proof {
                        assert(members@.skip(i as int).drop_first() =~= members@.skip(i + 1));
                    }
                    if members[i].key.eq(&name) {
                        assert(members@.skip(i as int)[0] == members@[i as int]);
                        return Some(&members[i].value);
                    }
                    i = i + 1;
                }
                None
            },
            _ => None,
        }
    }
}

/// The member `key` of `j`, when `j` is present and an object that has one.
pub fn field<'a>(j: Option<&'a Json>, key: &str) -> (r: Option<&'a Json>)
    ensures
        deref(r) == get(deref(j), key@),
{
    match j {
        Some(v) => v.member(key),
        None => None,
    }
}

/// The text of `j` when it is a string, else `default`.
pub fn text_or(j: Option<&Json>, default: &str) -> (r: String)
    ensures
        r@ == str_or(deref(j), default@),
{
    match j {
        Some(Json::Str(s)) => s.clone(),
        _ => String::from_str(default),
    }
}

/// The integer `j` when it is a number that is an `i64`, else `default`.
pub fn integer_or(j: Option<&Json>, default: i64) -> (r: i64)
    ensures
        r == int_or(deref(j), default as int),
{
    match j {
        Some(Json::Number(n)) => match n.exact {
            Some(i) => i,
            None => default,
        },
        _ => default,
    }
}

/// The number `j` rounded to an integer when it is a number, else `default`.
pub fn nearest_or(j: Option<&Json>, default: i64) -> (r: i64)
    ensures
        r == rounded_or(deref(j), default as int),
{
    match j {
        Some(Json::Number(n)) => n.nearest,
        _ => default,
    }
}

} // verus!
