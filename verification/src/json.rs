//! A JSON document as a value: what a notification payload is decoded from.

use vstd::prelude::*;

verus! {

/// A JSON value. A number is held as its text; the members of an object
/// are held in the order of the document.
#[derive(Debug, PartialEq, Eq)]
pub enum Json {
    Null,
    Bool(bool),
    Number(String),
    Text(String),
    Array(Vec<Json>),
    Object(Vec<(String, Json)>),
}

/// The value of the first member called `name`, if there is one.
pub open spec fn member(members: Seq<(String, Json)>, name: Seq<char>) -> Option<Json>
    decreases members.len(),
{
    if members.len() == 0 {
        None
    } else if members[0].0@ == name {
        Some(members[0].1)
    } else {
        member(members.drop_first(), name)
    }
}

impl Json {
    /// The member `name` of this value, where the value is an object that
    /// has such a member.
    pub open spec fn field(self, name: Seq<char>) -> Option<Json> {
        match self {
            Json::Object(members) => member(members@, name),
            _ => None,
        }
    }

    /// The text under the member `name`, where that member is a text.
    pub open spec fn text_field(self, name: Seq<char>) -> Option<Seq<char>> {
        match self.field(name) {
            Some(Json::Text(text)) => Some(text@),
            _ => None,
        }
    }

    /// The elements under the member `name`, where that member is an array.
    pub open spec fn array_field(self, name: Seq<char>) -> Option<Seq<Json>> {
        match self.field(name) {
            Some(Json::Array(items)) => Some(items@),
            _ => None,
        }
    }

    /// Looks up the member `name`.
    pub fn get(&self, name: &str) -> (found: Option<&Json>)
        ensures
            match found {
                Some(value) => self.field(name@) == Some(*value),
                None => self.field(name@) is None,
            },
    {
        match self {
            Json::Object(members) => {
                let wanted = name.to_owned();
                let mut i: usize = 0;
                assert(members@.skip(0) =~= members@);
                while i < members.len()
                    invariant
                        i <= members.len(),
                        wanted@ == name@,
                        self.field(name@) == member(members@.skip(i as int), name@),
                    decreases members.len() - i,
                {
                    proof {
                        let rest = members@.skip(i as int);
                        assert(rest[0] == members@[i as int]);
                        assert(rest.drop_first() =~= members@.skip(i + 1));
                    }
                    if members[i].0 == wanted {
                        return Some(&members[i].1);
                    }
                    i += 1;
                }
                None
            },
            _ => None,
        }
    }

    /// Looks up the member `name` and takes it as a text.
    pub fn get_text(&self, name: &str) -> (found: Option<&String>)
        ensures
            match found {
                Some(text) => self.text_field(name@) == Some(text@),
                None => self.text_field(name@) is None,
            },
    {
        match self.get(name) {
            Some(Json::Text(text)) => Some(text),
            _ => None,
        }
    }

    /// Looks up the member `name` and takes it as an array.
    pub fn get_array(&self, name: &str) -> (found: Option<&Vec<Json>>)
        ensures
            match found {
                Some(items) => self.array_field(name@) == Some(items@),
                None => self.array_field(name@) is None,
            },
    {
        match self.get(name) {
            Some(Json::Array(items)) => Some(items),
            _ => None,
        }
    }
}

} // verus!
