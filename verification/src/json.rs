//! A JSON document as a tree of plain values.

use vstd::prelude::*;

verus! {

/// One `key: value` entry of a JSON object.
#[derive(Debug, PartialEq)]
pub struct JsonMember {
    pub key: String,
    pub value: Json,
}

/// A JSON value.
///
/// A number keeps its value where it is an integer in the range of `i64`;
/// any other number is `Number(None)`. The client reads integers only.
#[derive(Debug, PartialEq)]
pub enum Json {
    Null,
    Bool(bool),
    Number(Option<i64>),
    Text(String),
    Array(Vec<Json>),
    Object(Vec<JsonMember>),
}

impl View for Json {
    type V = Json;

    open spec fn view(&self) -> Json {
        *self
    }
}

/// The value of what an `Option` holds, if it holds anything.
pub open spec fn option_model<T: View>(r: Option<T>) -> Option<T::V> {
    match r {
        Some(value) => Some(value@),
        None => None,
    }
}

/// The value of the first member of `members` whose key is `key`.
pub open spec fn find_member(members: Seq<JsonMember>, key: Seq<char>) -> Option<Json>
    decreases members.len(),
{
    if members.len() == 0 {
        None
    } else if members[0].key@ == key {
        Some(members[0].value)
    } else {
        find_member(members.drop_first(), key)
    }
}

impl Json {
    /// The member `key` of an object; `None` for a missing key and for any
    /// value that is not an object.
    pub open spec fn member(self, key: Seq<char>) -> Option<Json> {
        match self {
            Json::Object(members) => find_member(members@, key),
            _ => None,
        }
    }

    /// The elements of an array; `None` for any other value.
    pub open spec fn items(self) -> Option<Seq<Json>> {
        match self {
            Json::Array(items) => Some(items@),
            _ => None,
        }
    }

    /// The value of an integer number; `None` for any other value.
    pub open spec fn int_value(self) -> Option<i64> {
        match self {
            Json::Number(n) => n,
            _ => None,
        }
    }

    /// The characters of a string; `None` for any other value.
    pub open spec fn text_value(self) -> Option<Seq<char>> {
        match self {
            Json::Text(s) => Some(s@),
            _ => None,
        }
    }

    /// The characters of the string member `key` of an object.
    pub open spec fn member_text(self, key: Seq<char>) -> Option<Seq<char>> {
        match self.member(key) {
            Some(value) => value.text_value(),
            None => None,
        }
    }

    /// The value of the integer member `key` of an object.
    pub open spec fn member_int(self, key: Seq<char>) -> Option<i64> {
        match self.member(key) {
            Some(value) => value.int_value(),
            None => None,
        }
    }

    /// Looks up a member of an object by its key.
    pub fn get(&self, key: &str) -> (r: Option<&Json>)
        ensures
            option_model(r) == self.member(key@),
    {
        match self {
            Json::Object(members) => {
                let wanted = key.to_owned();
                let mut i: usize = 0;
                assert(members@.skip(0) =~= members@);
                while i < members.len()
                    invariant
                        i <= members.len(),
                        wanted@ == key@,
                        self.member(key@) == find_member(members@, key@),
                        find_member(members@, key@) == find_member(members@.skip(i as int), key@),
                    decreases members.len() - i,
                {
                    assert(members@.skip(i as int)[0] == members@[i as int]);
                    if members[i].key == wanted {
                        return Some(&members[i].value);
                    }
                    assert(members@.skip(i as int).drop_first() =~= members@.skip(i + 1));
                    i += 1;
                }
                None
            },
            _ => None,
        }
    }

    /// The elements of an array.
    pub fn as_array(&self) -> (r: Option<&Vec<Json>>)
        ensures
            option_model(r) == self.items(),
    {
        match self {
            Json::Array(items) => Some(items),
            _ => None,
        }
    }

    /// The value of an integer number.
    pub fn as_i64(&self) -> (r: Option<i64>)
        ensures
            r == self.int_value(),
    {
        match self {
            Json::Number(n) => *n,
            _ => None,
        }
    }

    /// The characters of a string.
    pub fn as_str(&self) -> (r: Option<&String>)
        ensures
            option_model(r) == self.text_value(),
    {
        match self {
            Json::Text(s) => Some(s),
            _ => None,
        }
    }
}

impl Json {
    /// A copy of the string member `key` of an object.
    pub fn get_text(&self, key: &str) -> (r: Option<String>)
        ensures
            option_model(r) == self.member_text(key@),
    {
        match self.get(key) {
            Some(value) => match value.as_str() {
                Some(s) => Some(s.clone()),
                None => None,
            },
            None => None,
        }
    }

    /// The integer member `key` of an object.
    pub fn get_int(&self, key: &str) -> (r: Option<i64>)
        ensures
            r == self.member_int(key@),
    {
        match self.get(key) {
            Some(value) => value.as_i64(),
            None => None,
        }
    }
}

/// Every element decodes, and these are the decoded values in order; or
/// `None` where some element does not decode.
pub open spec fn decode_all<T>(items: Seq<Json>, decode: spec_fn(Json) -> Option<T>) -> Option<
    Seq<T>,
> {
    if forall|i: int| 0 <= i < items.len() ==> (#[trigger] decode(items[i])) is Some {
        Some(items.map_values(|item: Json| decode(item)->0))
    } else {
        None
    }
}

} // verus!
