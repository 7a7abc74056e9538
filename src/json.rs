//! A JSON value as the protocol's headers carry it.
//!
//! Headers travel as JSON text; this module holds the value once the text has
//! been read, so that the request and response schemas can be stated and
//! checked over it.
use vstd::prelude::*;

verus! {

/// A JSON value. Objects keep their members in order, as they were read.
pub enum JsonValue {
    Null,
    Bool(bool),
    Int(i64),
    Str(String),
    Array(Vec<JsonValue>),
    Object(Vec<(String, JsonValue)>),
}

/// The value stored under `key` in an object's members: the first member so
/// named.
pub open spec fn member(fields: Seq<(String, JsonValue)>, key: Seq<char>) -> Option<JsonValue>
    decreases fields.len(),
{
    if fields.len() == 0 {
        None
    } else if fields[0].0@ == key {
        Some(fields[0].1)
    } else {
        member(fields.drop_first(), key)
    }
}

/// The value stored under `key` when `v` is an object.
pub open spec fn get_spec(v: JsonValue, key: Seq<char>) -> Option<JsonValue> {
    match v {
        JsonValue::Object(fields) => member(fields@, key),
        _ => None,
    }
}

/// The text of `v` when it is a string.
pub open spec fn str_spec(v: JsonValue) -> Option<Seq<char>> {
    match v {
        JsonValue::Str(s) => Some(s@),
        _ => None,
    }
}

/// Whether two texts are equal, character by character.
pub fn same_text(a: &str, b: &str) -> (r: bool)
    ensures
        r == (a@ == b@),
{
    let n = a.unicode_len();
    if n != b.unicode_len() {
        return false;
    }
    let mut i: usize = 0;
    while i < n
        invariant
            n == a@.len(),
            n == b@.len(),
            i <= n,
            forall|j: int| 0 <= j < i ==> a@[j] == b@[j],
        decreases n - i,
    {
        if a.get_char(i) != b.get_char(i) {
            return false;
        }
        i = i + 1;
    }
    assert(a@ =~= b@);
    true
}

impl JsonValue {
    /// The member named `key`, when this is an object that has one.
    pub fn get(&self, key: &str) -> (r: Option<&JsonValue>)
        ensures
            get_spec(*self, key@) == match r {
                Some(v) => Some(*v),
                None => None::<JsonValue>,
            },
    {
        match self {
            JsonValue::Object(fields) => {
                let mut i: usize = 0;
                assert(fields@.subrange(0, fields@.len() as int) =~= fields@);
                assert(get_spec(*self, key@) == member(fields@, key@));
                while i < fields.len()
                    invariant
                        i <= fields@.len(),
                        get_spec(*self, key@) == member(fields@, key@),
                        member(fields@, key@) == member(fields@.subrange(i as int, fields@.len() as int), key@),
                    decreases fields@.len() - i,
                {
                    let ghost rest = fields@.subrange(i as int, fields@.len() as int);
                    assert(rest[0] == fields@[i as int]);
                    let entry = &fields[i];
                    assert(*entry == fields@[i as int]);
                    if same_text(entry.0.as_str(), key) {
                        assert(member(rest, key@) == Some(rest[0].1));
                        return Some(&entry.1);
                    }
                    assert(rest.drop_first() =~= fields@.subrange(i + 1, fields@.len() as int));
                    i = i + 1;
                }
                None
            },
            _ => None,
        }
    }

    /// The text of this value, when it is a string.
    pub fn as_text(&self) -> (r: Option<&String>)
        ensures
            str_spec(*self) == match r {
                Some(s) => Some(s@),
                None => None::<Seq<char>>,
            },
    {
        match self {
            JsonValue::Str(s) => Some(s),
            _ => None,
        }
    }

    /// An object of one member.
    pub fn single(key: &str, value: JsonValue) -> (r: JsonValue)
        ensures
            r matches JsonValue::Object(f) && f@.len() == 1 && f@[0].0@ == key@ && f@[0].1 == value,
    {
        let mut fields: Vec<(String, JsonValue)> = Vec::new();
        fields.push((key.to_owned(), value));
        JsonValue::Object(fields)
    }

    /// An object of two members, in this order.
    pub fn pair(k1: &str, v1: JsonValue, k2: &str, v2: JsonValue) -> (r: JsonValue)
        ensures
            r matches JsonValue::Object(f) && f@.len() == 2 && f@[0].0@ == k1@ && f@[0].1 == v1
                && f@[1].0@ == k2@ && f@[1].1 == v2,
    {
        let mut fields: Vec<(String, JsonValue)> = Vec::new();
        fields.push((k1.to_owned(), v1));
        fields.push((k2.to_owned(), v2));
        JsonValue::Object(fields)
    }
}



/// Two texts differ where their characters differ.
pub proof fn lemma_differ_at(a: Seq<char>, b: Seq<char>, i: int)
    requires
        0 <= i < a.len(),
        0 <= i < b.len(),
        a[i] != b[i],
    ensures
        a != b,
{
}

} // verus!
