use vstd::prelude::*;

verus! {

/// A parsed JSON document, as far as this client reads one.
///
/// Numbers are split by whether they denote an integer: the response fields
/// that the client reads are integers, and any other number is refused.
pub enum JsonValue {
    Null,
    Bool(bool),
    /// A number written without fraction or exponent.
    Integer(i128),
    /// A number with a fraction or an exponent, or one too large for `Integer`.
    Real,
    Str(String),
    Array(Vec<JsonValue>),
    /// The members of an object, in the order they were read.
    Object(Vec<(String, JsonValue)>),
}

/// The value of the first member of `entries` named `key`.
pub open spec fn find_field(entries: Seq<(String, JsonValue)>, key: Seq<char>) -> Option<JsonValue>
    decreases entries.len(),
{
    if entries.len() == 0 {
        None
    } else if entries[0].0@ == key {
        Some(entries[0].1)
    } else {
        find_field(entries.drop_first(), key)
    }
}

/// Returns the value of the first member of `entries` named `key`.
pub fn field<'a>(entries: &'a Vec<(String, JsonValue)>, key: &String) -> (r: Option<&'a JsonValue>)
    ensures
        match r {
            Some(v) => find_field(entries@, key@) == Some(*v),
            None => find_field(entries@, key@) is None,
        },
{
    let mut i: usize = 0;
    assert(entries@.subrange(0, entries@.len() as int) =~= entries@);
    while i < entries.len()
        invariant
            i <= entries@.len(),
            find_field(entries@, key@) == find_field(entries@.subrange(i as int, entries@.len() as int), key@),
        decreases entries@.len() - i,
    {
        let ghost rest = entries@.subrange(i as int, entries@.len() as int);
        if entries[i].0 == *key {
            return Some(&entries[i].1);
        }
        assert(rest.drop_first() =~= entries@.subrange(i + 1, entries@.len() as int));
        i = i + 1;
    }
    None
}

} // verus!
