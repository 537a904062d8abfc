//! JSON values as plain data.
//!
//! The privileged service answers in JSON. Whoever talks to it hands the
//! answer over as a [`JsonValue`], and the decoding of the answer's schema is
//! done here, on that value.

use vstd::prelude::*;

verus! {

/// A JSON number. Only a non-negative integer is ever read as a number here,
/// so the other kinds carry no more than the decoding needs.
#[derive(Clone, Copy, Debug, PartialEq, Eq)]
pub enum JsonNumber {
    /// A non-negative integer.
    PosInt(u64),
    /// A negative integer.
    NegInt(i64),
    /// A number with a fraction or an exponent.
    Float,
}

#[derive(Debug, PartialEq, Eq)]
pub enum JsonValue {
    Null,
    Bool(bool),
    Number(JsonNumber),
    Text(String),
    List(Vec<JsonValue>),
    /// The members in the order in which they were written.
    Object(Vec<(String, JsonValue)>),
}

/// `index` is the place of the first member called `key`.
pub open spec fn is_first_member(
    members: Seq<(String, JsonValue)>,
    key: Seq<char>,
    index: int,
) -> bool {
    &&& 0 <= index < members.len()
    &&& members[index].0@ == key
    &&& forall|j: int| 0 <= j < index ==> (#[trigger] members[j]).0@ != key
}

impl JsonValue {
    /// The members of an object; none for any other value.
    pub open spec fn members(self) -> Seq<(String, JsonValue)> {
        match self {
            JsonValue::Object(members) => members@,
            _ => Seq::empty(),
        }
    }

    /// The value of the first member called `key`.
    pub open spec fn field(self, key: Seq<char>) -> Option<JsonValue> {
        if exists|i: int| is_first_member(self.members(), key, i) {
            Some(self.members()[choose|i: int| is_first_member(self.members(), key, i)].1)
        } else {
            None
        }
    }

    /// The number, where the value is a non-negative integer.
    pub open spec fn u64_model(self) -> Option<u64> {
        match self {
            JsonValue::Number(JsonNumber::PosInt(n)) => Some(n),
            _ => None,
        }
    }

    /// The text, where the value is a string.
    pub open spec fn text_model(self) -> Option<Seq<char>> {
        match self {
            JsonValue::Text(text) => Some(text@),
            _ => None,
        }
    }

    /// The text of the member called `key`, where there is such a member and
    /// it is a string.
    pub open spec fn text_field(self, key: Seq<char>) -> Option<Seq<char>> {
        match self.field(key) {
            Some(value) => value.text_model(),
            None => None,
        }
    }

    /// The value of the first member called `key`.
    pub fn get(&self, key: &str) -> (found: Option<&JsonValue>)
        ensures
            match found {
                Some(value) => self.field(key@) == Some(*value),
                None => self.field(key@).is_none(),
            },
    {
        match self {
            JsonValue::Object(members) => {
                let wanted = key.to_owned();
                let mut i: usize = 0;
                while i < members.len()
                    invariant
                        i <= members.len(),
                        wanted@ == key@,
                        self.members() == members@,
                        forall|j: int| 0 <= j < i ==> (#[trigger] members@[j]).0@ != key@,
                    decreases members.len() - i,
                {
                    if members[i].0 == wanted {
                        proof {
                            lemma_first_member(self.members(), key@, i as int);
                        }
                        return Some(&members[i].1);
                    }
                    i += 1;
                }
                proof {
                    assert forall|k: int| !is_first_member(self.members(), key@, k) by {
                        if 0 <= k < members@.len() {
                            assert(members@[k].0@ != key@);
                        }
                    }
                }
                None
            },
            _ => {
                proof {
                    assert forall|k: int| !is_first_member(self.members(), key@, k) by {}
                }
                None
            },
        }
    }

    /// The number, where the value is a non-negative integer.
    pub fn as_u64(&self) -> (number: Option<u64>)
        ensures
            number == self.u64_model(),
    {
        match self {
            JsonValue::Number(JsonNumber::PosInt(n)) => Some(*n),
            _ => None,
        }
    }

    /// The text, where the value is a string.
    pub fn as_str(&self) -> (text: Option<&String>)
        ensures
            match text {
                Some(s) => self.text_model() == Some(s@),
                None => self.text_model().is_none(),
            },
    {
        match self {
            JsonValue::Text(text) => Some(text),
            _ => None,
        }
    }

    pub fn is_null(&self) -> (null: bool)
        ensures
            null == (self is Null),
    {
        match self {
            JsonValue::Null => true,
            _ => false,
        }
    }

    /// A copy of the text of the member called `key`.
    pub fn get_text(&self, key: &str) -> (text: Option<String>)
        ensures
            text.deep_view() == self.text_field(key@),
    {
        match self.get(key) {
            Some(value) => match value.as_str() {
                Some(s) => Some(s.clone()),
                None => None,
            },
            None => None,
        }
    }
}

/// The first member called `key` is unique, so `field` finds it.
pub proof fn lemma_first_member(members: Seq<(String, JsonValue)>, key: Seq<char>, index: int)
    requires
        is_first_member(members, key, index),
    ensures
        (choose|i: int| is_first_member(members, key, i)) == index,
{
    let found = choose|i: int| is_first_member(members, key, i);
    assert(is_first_member(members, key, found));
    if found < index {
        assert(members[found].0@ != key);
    }
    if index < found {
        assert(members[index].0@ != key);
    }
}

} // verus!
