//! JSON values as plain data, and the lookups that the vendors' answers need.
//!
//! A missing member, an index out of range, or a lookup on a value of another kind
//! gives `null`, as JSON lookups commonly do.

use vstd::prelude::*;
use vstd::string::*;

verus! {

/// A JSON value.
#[derive(Debug)]
pub enum Json {
    Null,
    Bool(bool),
    /// A number that is a non-negative integer within `u64`.
    Uint(u64),
    /// Any other number.
    OtherNumber,
    Str(String),
    Array(Vec<Json>),
    /// The members of an object; a later member hides an earlier one of the same name.
    Object(Vec<(String, Json)>),
}

/// The position of the last member named `key` among the first `n`.
pub open spec fn last_member(members: Seq<(String, Json)>, key: Seq<char>, n: int) -> Option<int>
    decreases n,
{
    if n <= 0 {
        None
    } else if members[n - 1].0@ == key {
        Some(n - 1)
    } else {
        last_member(members, key, n - 1)
    }
}

impl Json {
    /// The member `key` of an object.
    pub open spec fn member_spec(self, key: Seq<char>) -> Json {
        match self {
            Json::Object(m) => match last_member(m@, key, m@.len() as int) {
                Some(i) => m@[i].1,
                None => Json::Null,
            },
            _ => Json::Null,
        }
    }

    /// The element `i` of an array.
    pub open spec fn element_spec(self, i: int) -> Json {
        match self {
            Json::Array(v) => if 0 <= i < v@.len() { v@[i] } else { Json::Null },
            _ => Json::Null,
        }
    }

    pub open spec fn text_spec(self) -> Option<Seq<char>> {
        match self {
            Json::Str(s) => Some(s@),
            _ => None,
        }
    }

    pub open spec fn uint_spec(self) -> Option<u64> {
        match self {
            Json::Uint(n) => Some(n),
            _ => None,
        }
    }

    /// The member `key` of an object; `null` where there is none.
    pub fn member(&self, key: &str) -> (r: &Json)
        ensures
            *r == self.member_spec(key@),
    {
        match self {
            Json::Object(m) => {
                let mut n: usize = m.len();
                while n > 0
                    invariant
                        n <= m@.len(),
                        last_member(m@, key@, m@.len() as int) == last_member(m@, key@, n as int),
                        self.member_spec(key@) == match last_member(m@, key@, m@.len() as int) {
                            Some(i) => m@[i].1,
                            None => Json::Null,
                        },
                    decreases n,
                {
                    if crate::text::same_text(m[n - 1].0.as_str(), key) {
                        assert(last_member(m@, key@, n as int) == Some((n - 1) as int));
                        return &m[n - 1].1;
                    }
                    n = n - 1;
                }
                &Json::Null
            },
            _ => &Json::Null,
        }
    }

    /// The element `i` of an array; `null` where there is none.
    pub fn element(&self, i: usize) -> (r: &Json)
        ensures
            *r == self.element_spec(i as int),
    {
        match self {
            Json::Array(v) => if i < v.len() {
                &v[i]
            } else {
                &Json::Null
            },
            _ => &Json::Null,
        }
    }

    /// The text of a string.
    pub fn text(&self) -> (r: Option<String>)
        ensures
            match r {
                Some(s) => self.text_spec() == Some(s@),
                None => self.text_spec() is None,
            },
    {
        match self {
            Json::Str(s) => Some(s.clone()),
            _ => None,
        }
    }

    /// The value of a number that is a non-negative integer within `u64`.
    pub fn uint(&self) -> (r: Option<u64>)
        ensures
            r == self.uint_spec(),
    {
        match self {
            Json::Uint(n) => Some(*n),
            _ => None,
        }
    }
}

} // verus!
