//! A JSON document as the indexer reads it: objects are looked up by key,
//! arrays are walked in order, strings are read as text.
use vstd::prelude::*;

verus! {

/// A JSON value. An object keeps its members in order; a number keeps the
/// text it was written with.
#[derive(Debug, PartialEq, Eq)]
pub enum JsonValue {
    Null,
    Bool(bool),
    Number(String),
    Str(String),
    Array(Vec<JsonValue>),
    Object(Vec<(String, JsonValue)>),
}

/// The value of the first member of `entries` whose key is `key`.
pub open spec fn member_value(entries: Seq<(String, JsonValue)>, key: Seq<char>) -> Option<
    JsonValue,
>
    decreases entries.len(),
{
    if entries.len() == 0 {
        None
    } else if entries[0].0@ == key {
        Some(entries[0].1)
    } else {
        member_value(entries.drop_first(), key)
    }
}

/// No member before index `i` has the key `key`, so the lookup is decided at `i` or after it.
proof fn lemma_member_value_skip(entries: Seq<(String, JsonValue)>, key: Seq<char>, i: int)
    requires
        0 <= i <= entries.len(),
        forall|j: int| 0 <= j < i ==> (#[trigger] entries[j]).0@ != key,
    ensures
        member_value(entries, key) == member_value(entries.subrange(i, entries.len() as int), key),
    decreases i,
{
    if i > 0 {
        let rest = entries.drop_first();
        assert forall|j: int| 0 <= j < i - 1 implies (#[trigger] rest[j]).0@ != key by {
            assert(rest[j] == entries[j + 1]);
        }
        lemma_member_value_skip(rest, key, i - 1);
        assert(rest.subrange(i - 1, rest.len() as int) =~= entries.subrange(
            i,
            entries.len() as int,
        ));
    } else {
        assert(entries.subrange(0, entries.len() as int) =~= entries);
    }
}

impl JsonValue {
    /// What `get(key)` gives: the member's value for an object that has one, else nothing.
    pub open spec fn spec_get(self, key: Seq<char>) -> Option<JsonValue> {
        match self {
            JsonValue::Object(entries) => member_value(entries@, key),
            _ => None,
        }
    }

    /// What `as_str()` gives: the text of a string value.
    pub open spec fn spec_as_str(self) -> Option<Seq<char>> {
        match self {
            JsonValue::Str(s) => Some(s@),
            _ => None,
        }
    }

    /// What `as_array()` gives: the elements of an array value.
    pub open spec fn spec_as_array(self) -> Option<Seq<JsonValue>> {
        match self {
            JsonValue::Array(items) => Some(items@),
            _ => None,
        }
    }

    /// The member of an object with the given key (the first, should keys repeat);
    /// `None` for an object without it and for any other value.
    pub fn get(&self, key: &str) -> (r: Option<&JsonValue>)
        ensures
            match r {
                Some(v) => self.spec_get(key@) == Some(*v),
                None => self.spec_get(key@) is None,
            },
    {
        match self {
            JsonValue::Object(entries) => {
                let wanted = String::from_str(key);
                let mut i: usize = 0;
                while i < entries.len()
                    invariant
                        0 <= i <= entries.len(),
                        wanted@ == key@,
                        self.spec_get(key@) == member_value(entries@, key@),
                        forall|j: int| 0 <= j < i ==> (#[trigger] entries@[j]).0@ != key@,
                    decreases entries.len() - i,
                {
                    if entries[i].0 == wanted {
                        proof {
                            lemma_member_value_skip(entries@, key@, i as int);
                            let rest = entries@.subrange(i as int, entries@.len() as int);
                            assert(rest[0] == entries@[i as int]);
                            assert(member_value(rest, key@) == Some(entries@[i as int].1));
                        }
                        return Some(&entries[i].1);
                    }
                    i = i + 1;
                }
                proof {
                    lemma_member_value_skip(entries@, key@, i as int);
                }
                None
            },
            _ => None,
        }
    }

    /// The text of a string value; `None` for any other value.
    pub fn as_str(&self) -> (r: Option<&String>)
        ensures
            match r {
                Some(s) => self.spec_as_str() == Some(s@),
                None => self.spec_as_str() is None,
            },
    {
        match self {
            JsonValue::Str(s) => Some(s),
            _ => None,
        }
    }

    /// The elements of an array value; `None` for any other value.
    pub fn as_array(&self) -> (r: Option<&Vec<JsonValue>>)
        ensures
            match r {
                Some(items) => self.spec_as_array() == Some(items@),
                None => self.spec_as_array() is None,
            },
    {
        match self {
            JsonValue::Array(items) => Some(items),
            _ => None,
        }
    }
}


/// Looking a key up in an object gives the value of its first member with that
/// key: members before it with other keys are passed over, members after it do
/// not count.
pub proof fn first_member_with_key_wins(
    before: Seq<(String, JsonValue)>,
    key: String,
    value: JsonValue,
    after: Seq<(String, JsonValue)>,
)
    requires
        forall|j: int| 0 <= j < before.len() ==> (#[trigger] before[j]).0@ != key@,
    ensures
        member_value(before + seq![(key, value)] + after, key@) == Some(value),
{
    let all = before + seq![(key, value)] + after;
    assert forall|j: int| 0 <= j < before.len() implies (#[trigger] all[j]).0@ != key@ by {
        assert(all[j] == before[j]);
    }
    lemma_member_value_skip(all, key@, before.len() as int);
    let rest = all.subrange(before.len() as int, all.len() as int);
    assert(rest[0] == (key, value));
}

/// An object none of whose members has the key has no value for it.
pub proof fn absent_key_has_no_value(entries: Seq<(String, JsonValue)>, key: Seq<char>)
    requires
        forall|j: int| 0 <= j < entries.len() ==> (#[trigger] entries[j]).0@ != key,
    ensures
        member_value(entries, key) is None,
{
    lemma_member_value_skip(entries, key, entries.len() as int);
    assert(entries.subrange(entries.len() as int, entries.len() as int) =~= Seq::<
        (String, JsonValue),
    >::empty());
}

} // verus!
