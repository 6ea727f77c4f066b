//! This crate's model of a JSON tree.
//!
//! Objects are ordered lists of key/value pairs, so a decoded value can be
//! re-encoded with its fields in insertion order, and numbers are 64-bit
//! integers, which covers everything the protocol transmits (timestamps and
//! small counters). The surrounding program converts between wire JSON and
//! this model.
use vstd::prelude::*;
use vstd::string::StrSliceExecFns;
use crate::casefold::is_lower_of;

verus! {

/// One JSON value.
#[derive(Debug, PartialEq, Eq)]
pub enum JsonValue {
    Null,
    Bool(bool),
    /// A number; the protocol only ever transmits 64-bit integers.
    Num(i64),
    Str(String),
    Arr(Vec<JsonValue>),
    Obj(JsonObject),
}

/// A JSON object: key/value pairs in insertion order.
#[derive(Debug, PartialEq, Eq)]
pub struct JsonObject {
    pub entries: Vec<(String, JsonValue)>,
}

impl View for JsonObject {
    type V = Seq<(String, JsonValue)>;

    open spec fn view(&self) -> Seq<(String, JsonValue)> {
        self.entries@
    }
}

/// The value under the first entry whose key reads `key`, if any.
pub open spec fn find_key(entries: Seq<(String, JsonValue)>, key: Seq<char>) -> Option<JsonValue>
    decreases entries.len(),
{
    if entries.len() == 0 {
        None
    } else if entries[0].0@ == key {
        Some(entries[0].1)
    } else {
        find_key(entries.drop_first(), key)
    }
}

/// The value under the first entry whose key is the ASCII-lowercase form of
/// `name`, if any.
pub open spec fn find_lower_key(entries: Seq<(String, JsonValue)>, name: Seq<char>) -> Option<
    JsonValue,
>
    decreases entries.len(),
{
    if entries.len() == 0 {
        None
    } else if is_lower_of(entries[0].0@, name) {
        Some(entries[0].1)
    } else {
        find_lower_key(entries.drop_first(), name)
    }
}

/// The position of the first entry whose key reads `key`.
pub open spec fn first_key_index(entries: Seq<(String, JsonValue)>, key: Seq<char>) -> int
    decreases entries.len(),
{
    if entries.len() == 0 {
        0
    } else if entries[0].0@ == key {
        0
    } else {
        1 + first_key_index(entries.drop_first(), key)
    }
}

/// If no key before `i` reads `key` and the key at `i` does, the first match
/// is at `i`.
proof fn lemma_find_key_hit(entries: Seq<(String, JsonValue)>, key: Seq<char>, i: int)
    requires
        0 <= i < entries.len(),
        forall|j: int| 0 <= j < i ==> (#[trigger] entries[j].0)@ != key,
        entries[i].0@ == key,
    ensures
        find_key(entries, key) == Some(entries[i].1),
        first_key_index(entries, key) == i,
    decreases i,
{
    if i > 0 {
        lemma_find_key_hit(entries.drop_first(), key, i - 1);
    }
}

/// If no key reads `key`, there is no match.
proof fn lemma_find_key_miss(entries: Seq<(String, JsonValue)>, key: Seq<char>)
    requires
        forall|j: int| 0 <= j < entries.len() ==> (#[trigger] entries[j].0)@ != key,
    ensures
        find_key(entries, key) is None,
    decreases entries.len(),
{
    if entries.len() > 0 {
        lemma_find_key_miss(entries.drop_first(), key);
    }
}

proof fn lemma_find_lower_key_hit(entries: Seq<(String, JsonValue)>, name: Seq<char>, i: int)
    requires
        0 <= i < entries.len(),
        forall|j: int| 0 <= j < i ==> !is_lower_of((#[trigger] entries[j].0)@, name),
        is_lower_of(entries[i].0@, name),
    ensures
        find_lower_key(entries, name) == Some(entries[i].1),
    decreases i,
{
    if i > 0 {
        lemma_find_lower_key_hit(entries.drop_first(), name, i - 1);
    }
}

proof fn lemma_find_lower_key_miss(entries: Seq<(String, JsonValue)>, name: Seq<char>)
    requires
        forall|j: int| 0 <= j < entries.len() ==> !is_lower_of((#[trigger] entries[j].0)@, name),
    ensures
        find_lower_key(entries, name) is None,
    decreases entries.len(),
{
    if entries.len() > 0 {
        lemma_find_lower_key_miss(entries.drop_first(), name);
    }
}

impl JsonObject {
    /// An object with no fields.
    pub fn new() -> (r: JsonObject)
        ensures
            r@ == Seq::<(String, JsonValue)>::empty(),
    {
        JsonObject { entries: Vec::new() }
    }

    /// Appends one field.
    pub fn push(&mut self, key: String, value: JsonValue)
        ensures
            final(self)@ == old(self)@.push((key, value)),
    {
        self.entries.push((key, value));
    }

    /// The position of the first field named `key`, if any.
    fn find_index(&self, key: &str) -> (r: Option<usize>)
        ensures
            match r {
                Some(i) => i < self@.len() && find_key(self@, key@) == Some(self@[i as int].1)
                    && first_key_index(self@, key@) == i,
                None => find_key(self@, key@) is None,
            },
    {
        let n = self.entries.len();
        let mut i: usize = 0;
        while i < n
            invariant
                n == self@.len(),
                i <= n,
                forall|j: int| 0 <= j < i ==> (#[trigger] self@[j].0)@ != key@,
            decreases n - i,
        {
            if string_eq_str(&self.entries[i].0, key) {
                proof {
                    lemma_find_key_hit(self@, key@, i as int);
                }
                return Some(i);
            }
            i += 1;
        }
        proof {
            lemma_find_key_miss(self@, key@);
        }
        None
    }

    /// The value of the first field named `key`, if any.
    pub fn get<'a>(&'a self, key: &str) -> (r: Option<&'a JsonValue>)
        ensures
            match find_key(self@, key@) {
                Some(v) => r matches Some(rv) && *rv == v,
                None => r is None,
            },
    {
        match self.find_index(key) {
            Some(i) => Some(&self.entries[i].1),
            None => None,
        }
    }

    /// Removes the first field named `key` and returns its value, if any.
    pub fn take(&mut self, key: &str) -> (r: Option<JsonValue>)
        ensures
            match find_key(old(self)@, key@) {
                Some(v) => r == Some(v) && final(self)@ == old(self)@.remove(
                    first_key_index(old(self)@, key@),
                ),
                None => r is None && final(self)@ == old(self)@,
            },
    {
        match self.find_index(key) {
            Some(i) => {
                let (_, v) = self.entries.remove(i);
                Some(v)
            },
            None => None,
        }
    }

    /// The value of the first field whose key is the ASCII-lowercase form of
    /// `name`, if any.
    pub fn get_lower<'a>(&'a self, name: &str) -> (r: Option<&'a JsonValue>)
        ensures
            match find_lower_key(self@, name@) {
                Some(v) => r matches Some(rv) && *rv == v,
                None => r is None,
            },
    {
        let n = self.entries.len();
        let mut i: usize = 0;
        while i < n
            invariant
                n == self@.len(),
                i <= n,
                forall|j: int| 0 <= j < i ==> !is_lower_of((#[trigger] self@[j].0)@, name@),
            decreases n - i,
        {
            if crate::casefold::is_ascii_lower_of(self.entries[i].0.as_str(), name) {
                proof {
                    lemma_find_lower_key_hit(self@, name@, i as int);
                }
                return Some(&self.entries[i].1);
            }
            i += 1;
        }
        proof {
            lemma_find_lower_key_miss(self@, name@);
        }
        None
    }
}

/// True exactly when `s` reads the same characters as `t`.
fn string_eq_str(s: &String, t: &str) -> (r: bool)
    ensures
        r == (s@ == t@),
{
    let n = s.as_str().unicode_len();
    if n != t.unicode_len() {
        assert(s@.len() != t@.len());
        return false;
    }
    let mut i: usize = 0;
    while i < n
        invariant
            n == s@.len(),
            n == t@.len(),
            i <= n,
            forall|j: int| 0 <= j < i ==> #[trigger] s@[j] == t@[j],
        decreases n - i,
    {
        if s.as_str().get_char(i) != t.get_char(i) {
            assert(s@[i as int] != t@[i as int]);
            return false;
        }
        i += 1;
    }
    assert(s@ =~= t@);
    true
}

} // verus!
