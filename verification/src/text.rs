//! Text and byte helpers: concatenation, comparison and UTF-8 decoding.
use vstd::prelude::*;
use vstd::string::*;
use vstd::utf8::*;

verus! {

/// `String::from_utf8` of the standard library, with the error dropped.
///
/// Trusted: the bytes are accepted exactly when they are valid UTF-8, and the string then holds
/// the characters that they encode.
#[verifier::external_body]
pub(crate) fn string_from_utf8(bytes: Vec<u8>) -> (decoded: Option<String>)
    ensures
        decoded is Some <==> valid_utf8(bytes@),
        decoded matches Some(text) ==> text@ == decode_utf8(bytes@),
{
    String::from_utf8(bytes).ok()
}

/// The characters of `` {before}{value}{after} ``.
pub open spec fn enclosed(before: Seq<char>, value: Seq<char>, after: Seq<char>) -> Seq<char> {
    before + value + after
}

/// Puts `before` and `after` around `value`.
pub(crate) fn enclose(before: &str, value: &str, after: &str) -> (text: String)
    ensures
        text@ == enclosed(before@, value@, after@),
{
    let mut text = String::from_str(before);
    text.append(value);
    text.append(after);
    text
}

/// Compares two byte slices.
pub(crate) fn same_bytes(a: &[u8], b: &[u8]) -> (same: bool)
    ensures
        same == (a@ == b@),
{
    if a.len() != b.len() {
        return false;
    }
    let mut i: usize = 0;
    while i < a.len()
        invariant
            i <= a.len(),
            a.len() == b.len(),
            forall|k: int| 0 <= k < i ==> a@[k] == b@[k],
        decreases a.len() - i,
    {
        if a[i] != b[i] {
            return false;
        }
        i += 1;
    }
    assert(a@ =~= b@);
    true
}

/// Encoding a concatenation concatenates the encodings.
pub(crate) proof fn lemma_encode_concat(a: Seq<char>, b: Seq<char>)
    ensures
        encode_utf8(a + b) == encode_utf8(a) + encode_utf8(b),
    decreases a.len(),
{
    if a.len() > 0 {
        assert((a + b).drop_first() =~= a.drop_first() + b);
        lemma_encode_concat(a.drop_first(), b);
    }
}

} // verus!
