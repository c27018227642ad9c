use vstd::prelude::*;

verus! {

/// Length of a transaction hash, in trytes.
pub const HASH_LENGTH: usize = 81;

/// Length of a hash followed by its nine-tryte checksum.
pub const HASH_WITH_CHECKSUM_LENGTH: usize = 90;

/// A tryte character: the digit `9` or an upper-case Latin letter.
pub open spec fn is_tryte_char(c: char) -> bool {
    c == '9' || ('A' <= c && c <= 'Z')
}

/// Every character of `s` is a tryte.
pub open spec fn all_trytes(s: Seq<char>) -> bool {
    forall|i: int| 0 <= i < s.len() ==> is_tryte_char(#[trigger] s[i])
}

/// A hash is 81 trytes, or 90 when it carries a checksum.
pub open spec fn is_hash_spec(s: Seq<char>) -> bool {
    &&& (s.len() == HASH_LENGTH || s.len() == HASH_WITH_CHECKSUM_LENGTH)
    &&& all_trytes(s)
}

/// Returns whether `s` is a syntactically valid hash.
pub fn is_hash(s: &str) -> (r: bool)
    ensures
        r == is_hash_spec(s@),
{
    if !s.is_ascii() {
        proof {
            if is_hash_spec(s@) {
                assert(vstd::utf8::is_ascii_chars(s@)) by {
                    assert forall|i: int| 0 <= i < s@.len() implies '\0' <= #[trigger] s@[i] <= '\u{7f}' by {
                        assert(is_tryte_char(s@[i]));
                    }
                }
            }
        }
        return false;
    }
    let n = s.unicode_len();
    if n != HASH_LENGTH && n != HASH_WITH_CHECKSUM_LENGTH {
        return false;
    }
    let mut i: usize = 0;
    while i < n
        invariant
            n == s@.len(),
            s.is_ascii(),
            i <= n,
            forall|j: int| 0 <= j < i ==> is_tryte_char(#[trigger] s@[j]),
        decreases n - i,
    {
        let b = s.get_ascii(i);
        if !(b == 57u8 || (65u8 <= b && b <= 90u8)) {
            assert(!is_tryte_char(s@[i as int]));
            return false;
        }
        i = i + 1;
    }
    true
}

/// The character views of a sequence of strings.
pub open spec fn views(v: Seq<String>) -> Seq<Seq<char>> {
    v.map_values(|s: String| s@)
}

/// A list of hashes is valid when it is not empty and each entry is a hash.
/// An empty list names no transaction, so it is refused.
pub open spec fn is_array_of_hashes_spec(hashes: Seq<Seq<char>>) -> bool {
    &&& hashes.len() > 0
    &&& forall|i: int| 0 <= i < hashes.len() ==> is_hash_spec(#[trigger] hashes[i])
}

/// Returns whether `hashes` is a non-empty list of valid hashes.
pub fn is_array_of_hashes(hashes: &[String]) -> (r: bool)
    ensures
        r == is_array_of_hashes_spec(views(hashes@)),
{
    if hashes.len() == 0 {
        return false;
    }
    let mut i: usize = 0;
    while i < hashes.len()
        invariant
            i <= hashes@.len(),
            forall|j: int| 0 <= j < i ==> is_hash_spec(#[trigger] views(hashes@)[j]),
        decreases hashes@.len() - i,
    {
        if !is_hash(hashes[i].as_str()) {
            assert(!is_hash_spec(views(hashes@)[i as int]));
            return false;
        }
        i = i + 1;
    }
    true
}

/// A valid hash holds no character that JSON would have to escape inside a string.
pub proof fn lemma_hash_needs_no_escape(s: Seq<char>)
    requires
        is_hash_spec(s),
    ensures
        forall|i: int|
            0 <= i < s.len() ==> #[trigger] s[i] != '"' && s[i] != '\\' && s[i] >= ' ',
{
    assert forall|i: int| 0 <= i < s.len() implies #[trigger] s[i] != '"' && s[i] != '\\' && s[i]
        >= ' ' by {
        assert(is_tryte_char(s[i]));
    }
}

} // verus!
