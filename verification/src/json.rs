//! The parts of a JSON document that a request handler reads.

use vstd::prelude::*;

use crate::text::same_text;

verus! {

/// A JSON value. What is neither a string nor an object is not told apart.
#[derive(Debug, PartialEq, Eq)]
pub enum Json {
    Text(String),
    /// The members, each with its key.
    Object(Vec<(String, Json)>),
    Other,
}

/// The value of the first member with a key.
pub open spec fn member(members: Seq<(String, Json)>, key: Seq<char>) -> Option<Json>
    decreases members.len(),
{
    if members.len() == 0 {
        None
    } else if members[0].0@ == key {
        Some(members[0].1)
    } else {
        member(members.drop_first(), key)
    }
}

impl Json {
    /// The value under a key; only an object has any.
    pub open spec fn at(self, key: Seq<char>) -> Option<Json> {
        match self {
            Json::Object(members) => member(members@, key),
            _ => None,
        }
    }

    /// The string that a value is; no other value is one.
    pub open spec fn text(self) -> Option<Seq<char>> {
        match self {
            Json::Text(text) => Some(text@),
            _ => None,
        }
    }

    /// Looks a key up.
    pub fn get(&self, key: &str) -> (value: Option<&Json>)
        ensures
            match value {
                Some(value) => self.at(key@) == Some(*value),
                None => self.at(key@) is None,
            },
    {
        match self {
            Json::Object(members) => {
                let mut i: usize = 0;
                assert(members@.skip(0) == members@);
                while i < members.len()
                    invariant
                        i <= members.len(),
                        self.at(key@) == member(members@.skip(i as int), key@),
                    decreases members.len() - i,
                {
                    let entry = &members[i];
                    assert(members@.skip(i as int)[0] == *entry);
                    assert(members@.skip(i as int).drop_first() == members@.skip(i + 1));
                    if same_text(entry.0.as_str(), key) {
                        return Some(&entry.1);
                    }
                    i += 1;
                }
                None
            },
            _ => None,
        }
    }

    /// Reads a value as a string.
    pub fn as_text(&self) -> (text: Option<String>)
        ensures
            text.deep_view() == self.text(),
    {
        match self {
            Json::Text(text) => Some(text.clone()),
            _ => None,
        }
    }
}

} // verus!
