//! A JSON document as a tree of plain values.
//!
//! Objects keep their members in order. Looking a key up finds the member
//! that a map built by inserting the members in order would hold: the last
//! one with that key.
use vstd::prelude::*;

verus! {

/// A JSON number, kept in the form it was read in.
#[derive(Copy, Clone, Debug, PartialEq, Eq, Structural)]
pub enum JsonNumber {
    /// A non-negative integer.
    PosInt(u64),
    /// A negative integer.
    NegInt(i64),
    /// A floating-point number, by its IEEE 754 bit pattern.
    Float(u64),
}

/// A JSON value.
#[derive(Debug)]
pub enum JsonValue {
    Null,
    Bool(bool),
    Number(JsonNumber),
    String(String),
    Array(Vec<JsonValue>),
    /// The members of an object, in order, as key and value.
    Object(Vec<(String, JsonValue)>),
}

/// The position of the member that a lookup of `key` finds: the last one
/// whose key is `key`, or -1 when there is none.
pub open spec fn field_index(entries: Seq<(String, JsonValue)>, key: Seq<char>) -> int
    decreases entries.len(),
{
    if entries.len() == 0 {
        -1
    } else if entries.last().0@ == key {
        entries.len() - 1
    } else {
        field_index(entries.drop_last(), key)
    }
}

/// The value that a lookup of `key` among `entries` finds.
pub open spec fn field(entries: Seq<(String, JsonValue)>, key: Seq<char>) -> Option<JsonValue> {
    let i = field_index(entries, key);
    if i >= 0 {
        Some(entries[i].1)
    } else {
        None
    }
}

/// A lookup finds a member with that key, and no later member has it.
pub proof fn lemma_field_index(entries: Seq<(String, JsonValue)>, key: Seq<char>)
    ensures
        -1 <= field_index(entries, key) < entries.len(),
        field_index(entries, key) >= 0 ==> entries[field_index(entries, key)].0@ == key,
        forall|j: int|
            field_index(entries, key) < j < entries.len() ==> #[trigger] entries[j].0@ != key,
    decreases entries.len(),
{
    if entries.len() > 0 && entries.last().0@ != key {
        lemma_field_index(entries.drop_last(), key);
        assert forall|j: int| field_index(entries, key) < j < entries.len() implies #[trigger] entries[j].0@
            != key by {
            if j < entries.len() - 1 {
                assert(entries.drop_last()[j] == entries[j]);
            }
        }
    }
}

/// A lookup finds a value exactly when some member has the key, and then
/// it is the value of a member with that key after which no member has it.
pub proof fn lemma_field(entries: Seq<(String, JsonValue)>, key: Seq<char>)
    ensures
        field(entries, key) is Some <==> exists|i: int| 0 <= i < entries.len() && #[trigger] entries[i].0@ == key,
        field(entries, key) matches Some(v) ==> exists|i: int|
            0 <= i < entries.len() && #[trigger] entries[i].0@ == key && entries[i].1 == v && forall|j: int|
                i < j < entries.len() ==> #[trigger] entries[j].0@ != key,
{
    lemma_field_index(entries, key);
    let i = field_index(entries, key);
    if i >= 0 {
        assert(entries[i].0@ == key);
    }
}

/// Finds the position of the member that a lookup of `key` finds.
pub fn find_field(entries: &Vec<(String, JsonValue)>, key: &String) -> (r: Option<usize>)
    ensures
        match r {
            Some(i) => field_index(entries@, key@) == i,
            None => field_index(entries@, key@) == -1,
        },
{
    let mut i = entries.len();
    assert(entries@.take(i as int) =~= entries@);
    while i > 0
        invariant
            i <= entries.len(),
            field_index(entries@, key@) == field_index(entries@.take(i as int), key@),
        decreases i,
    {
        let ghost prefix = entries@.take(i as int);
        i = i - 1;
        assert(prefix.drop_last() =~= entries@.take(i as int));
        assert(prefix.last() == entries@[i as int]);
        if entries[i].0 == *key {
            return Some(i);
        }
    }
    None
}

} // verus!
