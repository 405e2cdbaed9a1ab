//! Equality of texts, stated over their characters.

use vstd::prelude::*;

verus! {

/// Two texts are equal exactly when their UTF-8 encodings are.
proof fn lemma_encoding_is_injective(a: Seq<char>, b: Seq<char>)
    requires
        vstd::utf8::encode_utf8(a) == vstd::utf8::encode_utf8(b),
    ensures
        a == b,
{
    vstd::utf8::encode_utf8_decode_utf8(a);
    vstd::utf8::encode_utf8_decode_utf8(b);
}

/// Whether `a` and `b` hold the same characters.
pub fn same_text(a: &str, b: &str) -> (same: bool)
    ensures
        same == (a@ == b@),
{
    let left = a.as_bytes();
    let right = b.as_bytes();
    if left.len() != right.len() {
        return false;
    }
    let mut i: usize = 0;
    while i < left.len()
        invariant
            i <= left@.len(),
            left@.len() == right@.len(),
            left@ == vstd::utf8::encode_utf8(a@),
            right@ == vstd::utf8::encode_utf8(b@),
            forall|j: int| 0 <= j < i ==> left@[j] == right@[j],
        decreases left@.len() - i,
    {
        if left[i] != right[i] {
            return false;
        }
        i = i + 1;
    }
    proof {
        assert(left@ =~= right@);
        lemma_encoding_is_injective(a@, b@);
    }
    true
}

/// The characters of a text that may be absent.
pub open spec fn chars_of(text: Option<&str>) -> Option<Seq<char>> {
    match text {
        Some(present) => Some(present@),
        None => None,
    }
}

/// The characters of an owned text that may be absent.
pub open spec fn string_chars(text: Option<String>) -> Option<Seq<char>> {
    match text {
        Some(present) => Some(present@),
        None => None,
    }
}

/// Whether `text` is present and holds the characters of `expected`.
pub fn is_text(text: Option<&str>, expected: &str) -> (same: bool)
    ensures
        same == (chars_of(text) == Some(expected@)),
        same <==> text is Some && text->0@ == expected@,
{
    match text {
        Some(present) => same_text(present, expected),
        None => false,
    }
}

/// Borrows the text that `text` owns, if there is one.
pub fn borrow_text(text: &Option<String>) -> (borrowed: Option<&str>)
    ensures
        chars_of(borrowed) == string_chars(*text),
        borrowed is Some <==> *text is Some,
        *text is Some ==> borrowed->0@ == (*text)->0@,
{
    match text {
        Some(present) => Some(present.as_str()),
        None => None,
    }
}

} // verus!
