//! Comparing and decoding text.

use vstd::prelude::*;
use vstd::utf8::{decode_utf8, encode_utf8, encode_utf8_decode_utf8, valid_utf8};

verus! {

/// Whether two texts hold the same characters.
pub fn same_text(a: &str, b: &str) -> (same: bool)
    ensures
        same == (a@ == b@),
{
    broadcast use encode_utf8_decode_utf8;

    let left: &[u8] = a.as_bytes();
    let right: &[u8] = b.as_bytes();
    if left.len() != right.len() {
        return false;
    }
    let mut i: usize = 0;
    while i < left.len()
        invariant
            left@ == encode_utf8(a@),
            right@ == encode_utf8(b@),
            left@.len() == right@.len(),
            0 <= i <= left@.len(),
            forall|k: int| 0 <= k < i ==> left@[k] == right@[k],
        decreases left@.len() - i,
    {
        if left[i] != right[i] {
            return false;
        }
        i += 1;
    }
    assert(left@ =~= right@);
    assert(decode_utf8(encode_utf8(a@)) == decode_utf8(encode_utf8(b@)));
    true
}

/// The pieces of `s` between the places where `separator` stands: one more piece than there are
/// separators, and pieces may be empty.
pub open spec fn pieces(s: Seq<char>, separator: char) -> Seq<Seq<char>>
    decreases s.len(),
{
    if s.len() == 0 {
        seq![Seq::empty()]
    } else {
        let before = pieces(s.drop_last(), separator);
        if s.last() == separator {
            before.push(Seq::empty())
        } else {
            before.drop_last().push(before.last().push(s.last()))
        }
    }
}

/// A text without separators is its own single piece.
pub proof fn lemma_pieces_single(s: Seq<char>, separator: char)
    requires
        !s.contains(separator),
    ensures
        pieces(s, separator) == seq![s],
    decreases s.len(),
{
    if s.len() > 0 {
        let before = s.drop_last();
        assert forall|i: int| 0 <= i < before.len() implies before[i] != separator by {
            assert(s.contains(s[i]));
        }
        lemma_pieces_single(before, separator);
        assert(s.contains(s.last()));
        assert(before.push(s.last()) =~= s);
        assert(pieces(s, separator) =~= seq![s]);
    } else {
        assert(s =~= Seq::empty());
    }
}

/// Appending a separator and a text without separators appends that text as one piece.
pub proof fn lemma_pieces_append(s: Seq<char>, last: Seq<char>, separator: char)
    requires
        !last.contains(separator),
    ensures
        pieces(s + seq![separator] + last, separator) == pieces(s, separator).push(last),
    decreases last.len(),
{
    let whole = s + seq![separator] + last;
    if last.len() == 0 {
        assert(whole.drop_last() =~= s);
        assert(last =~= Seq::empty());
    } else {
        let shorter = last.drop_last();
        assert forall|i: int| 0 <= i < shorter.len() implies shorter[i] != separator by {
            assert(last.contains(last[i]));
        }
        lemma_pieces_append(s, shorter, separator);
        assert(last.contains(last.last()));
        assert(whole.drop_last() =~= s + seq![separator] + shorter);
        assert(shorter.push(last.last()) =~= last);
        assert(pieces(whole, separator) =~= pieces(s, separator).push(last));
    }
}

/// `core::str::from_utf8`: reads a byte slice as text.
///
/// Trusted: it succeeds exactly on valid UTF-8, and the text it then returns is the one that
/// those bytes encode.
#[verifier::external_body]
pub(crate) fn utf8_text(bytes: &[u8]) -> (text: Option<&str>)
    ensures
        text is Some <==> valid_utf8(bytes@),
        text matches Some(t) ==> t@ == decode_utf8(bytes@),
{
    core::str::from_utf8(bytes).ok()
}

} // verus!
