//! A plain model of a decoded configuration document.
//!
//! The configuration file is TOML on disk.  The caller decodes it with
//! a TOML reader and hands the library the resulting tree as a [`Value`],
//! so that everything the library decides about the document is checked
//! here.  Tables keep their entries in document order; a lookup returns
//! the first entry with the given key.

use vstd::prelude::*;
use crate::text::str_eq;

verus! {

/// One node of a decoded configuration document.
#[derive(Debug, PartialEq)]
pub enum Value {
    /// A text value.
    Str(String),
    /// An integer value.
    Int(i64),
    /// A boolean value.
    Bool(bool),
    /// An array of values.
    Array(Vec<Value>),
    /// A table of keyed values, in document order.
    Table(Vec<(String, Value)>),
    /// A value of any other kind (a float, a date): present, but not
    /// text, not an integer, not a collection.
    Other,
}

/// The first value under `key`, if any.
pub open spec fn spec_lookup(entries: Seq<(String, Value)>, key: Seq<char>) -> Option<Value>
    decreases entries.len(),
{
    if entries.len() == 0 {
        None
    } else if entries[0].0@ == key {
        Some(entries[0].1)
    } else {
        spec_lookup(entries.drop_first(), key)
    }
}

proof fn lemma_lookup_skip(entries: Seq<(String, Value)>, key: Seq<char>, i: int)
    requires
        0 <= i <= entries.len(),
        forall|j: int| 0 <= j < i ==> entries[j].0@ != key,
    ensures
        spec_lookup(entries, key) == spec_lookup(entries.skip(i), key),
    decreases i,
{
    if i > 0 {
        lemma_lookup_skip(entries.drop_first(), key, i - 1);
        assert(entries.drop_first().skip(i - 1) =~= entries.skip(i));
    } else {
        assert(entries.skip(0) =~= entries);
    }
}

impl Value {
    /// The value this table holds under `key`; `None` for a missing key
    /// or for a node that is not a table.
    pub open spec fn spec_get(self, key: Seq<char>) -> Option<Value> {
        match self {
            Value::Table(entries) => spec_lookup(entries@, key),
            _ => None,
        }
    }

    /// Looks `key` up in a table node.
    pub fn get<'a>(&'a self, key: &str) -> (r: Option<&'a Value>)
        ensures
            match r {
                Some(v) => self.spec_get(key@) == Some(*v),
                None => self.spec_get(key@) is None,
            },
    {
        match self {
            Value::Table(entries) => {
                let n = entries.len();
                for i in 0..n
                    invariant
                        n == entries@.len(),
                        *self matches Value::Table(es) && es@ == entries@,
                        forall|j: int| 0 <= j < i ==> entries@[j].0@ != key@,
                {
                    if str_eq(entries[i].0.as_str(), key) {
                        proof {
                            lemma_lookup_skip(entries@, key@, i as int);
                            assert(entries@.skip(i as int)[0] == entries@[i as int]);
                        }
                        return Some(&entries[i].1);
                    }
                }
                proof {
                    lemma_lookup_skip(entries@, key@, n as int);
                }
                None
            },
            _ => None,
        }
    }

    /// Whether this is a table with an entry under `key`.
    pub fn contains_key(&self, key: &str) -> (r: bool)
        ensures
            r == (self.spec_get(key@) is Some),
    {
        self.get(key).is_some()
    }

    /// The characters this node holds, if it is a text node.
    pub open spec fn spec_as_str(self) -> Option<Seq<char>> {
        match self {
            Value::Str(s) => Some(s@),
            _ => None,
        }
    }

    /// The integer this node holds, if it is an integer node.
    pub open spec fn spec_as_int(self) -> Option<i64> {
        match self {
            Value::Int(n) => Some(n),
            _ => None,
        }
    }

    /// The elements this node holds, if it is an array node.
    pub open spec fn spec_as_array(self) -> Option<Seq<Value>> {
        match self {
            Value::Array(items) => Some(items@),
            _ => None,
        }
    }

    /// The characters under `key` in this table, when the entry is there
    /// and is text.
    pub open spec fn spec_get_str(self, key: Seq<char>) -> Option<Seq<char>> {
        match self.spec_get(key) {
            Some(x) => x.spec_as_str(),
            None => None,
        }
    }

    /// Reads the text under `key`, when the entry is there and is text.
    pub fn get_str(&self, key: &str) -> (r: Option<String>)
        ensures
            crate::text::opt_str_view(r) == self.spec_get_str(key@),
    {
        match self.get(key) {
            Some(x) => match x.as_str() {
                Some(s) => Some(s.to_owned()),
                None => None,
            },
            None => None,
        }
    }

    /// The text this node holds, if it is a text node.
    pub fn as_str<'a>(&'a self) -> (r: Option<&'a str>)
        ensures
            match r {
                Some(x) => self.spec_as_str() == Some(x@),
                None => self.spec_as_str() is None,
            },
    {
        match self {
            Value::Str(s) => Some(s.as_str()),
            _ => None,
        }
    }

    /// The integer this node holds, if it is an integer node.
    pub fn as_integer(&self) -> (r: Option<i64>)
        ensures
            r == self.spec_as_int(),
    {
        match self {
            Value::Int(n) => Some(*n),
            _ => None,
        }
    }

    /// The elements of this node, if it is an array node.
    pub fn as_array<'a>(&'a self) -> (r: Option<&'a Vec<Value>>)
        ensures
            match r {
                Some(x) => self.spec_as_array() == Some(x@),
                None => self.spec_as_array() is None,
            },
    {
        match self {
            Value::Array(items) => Some(items),
            _ => None,
        }
    }
}

} // verus!
