//! Text as the scan sees it: characters, and the bytes that encode them.
//!
//! A template is a sequence of characters, while the offsets that a failure
//! reports count bytes of its UTF-8 encoding. This module relates the two.

use vstd::prelude::*;
use vstd::utf8::*;

verus! {

/// The number of bytes that encode the characters `text`.
pub open spec fn byte_len(text: Seq<char>) -> nat {
    encode_utf8(text).len()
}

/// The byte offset at which the character of index `index` starts in the
/// encoding of `text`: the number of bytes that encode the characters
/// before it.
pub open spec fn byte_offset(text: Seq<char>, index: int) -> nat {
    byte_len(text.take(index))
}

/// The encoding of a concatenation is as long as the two encodings together.
pub proof fn lemma_byte_len_concat(head: Seq<char>, tail: Seq<char>)
    ensures
        byte_len(head + tail) == byte_len(head) + byte_len(tail),
    decreases head.len(),
{
    if head.len() > 0 {
        assert((head + tail).drop_first() =~= head.drop_first() + tail);
        lemma_byte_len_concat(head.drop_first(), tail);
    }
}

/// One more character lengthens the encoding by that character's width.
pub proof fn lemma_byte_len_push(text: Seq<char>, c: char)
    ensures
        byte_len(text.push(c)) == byte_len(text) + encode_scalar(c as u32).len(),
{
    let last = seq![c];
    lemma_byte_len_concat(text, last);
    assert(text.push(c) =~= text + last);
    assert(encode_utf8(last) =~= encode_scalar(c as u32)) by {
        assert(encode_utf8(last.drop_first()) =~= Seq::<u8>::empty());
    }
}

/// Offsets grow with the index, by at least one byte for each character, and
/// the offset of the end is the length of the whole encoding.
pub proof fn lemma_byte_offset_step(text: Seq<char>, index: int)
    requires
        0 <= index < text.len(),
    ensures
        byte_offset(text, index + 1) == byte_offset(text, index) + encode_scalar(
            text[index] as u32,
        ).len(),
        byte_offset(text, index) < byte_offset(text, index + 1) <= byte_len(text),
{
    assert(text.take(index + 1) =~= text.take(index).push(text[index]));
    lemma_byte_len_push(text.take(index), text[index]);
    lemma_byte_len_concat(text.take(index + 1), text.skip(index + 1));
    assert(text.take(index + 1) + text.skip(index + 1) =~= text);
}

/// The number of bytes that encode `c` in UTF-8.
pub fn utf8_width(c: char) -> (width: usize)
    ensures
        width == encode_scalar(c as u32).len(),
        1 <= width <= 4,
{
    let code: u32 = c as u32;
    if code < 0x80 {
        1
    } else if code < 0x800 {
        2
    } else if code < 0x10000 {
        3
    } else {
        4
    }
}

/// Whether two string slices hold the same characters.
pub fn same_text(left: &str, right: &str) -> (same: bool)
    ensures
        same == (left@ == right@),
{
    let a = left.as_bytes();
    let b = right.as_bytes();
    if a.len() != b.len() {
        return false;
    }
    let mut i: usize = 0;
    while i < a.len()
        invariant
            a@ == encode_utf8(left@),
            b@ == encode_utf8(right@),
            a.len() == b.len(),
            i <= a.len(),
            forall|j: int| 0 <= j < i ==> a@[j] == b@[j],
        decreases a.len() - i,
    {
        if a[i] != b[i] {
            return false;
        }
        i = i + 1;
    }
    proof {
        assert(a@ =~= b@);
        encode_utf8_decode_utf8(left@);
        encode_utf8_decode_utf8(right@);
    }
    true
}

/// `String::push`, of which vstd says nothing.
///
/// Trusted: the string afterwards is the string before with `c` as one more
/// character at its end.
#[verifier::external_body]
pub(crate) fn push_char(text: &mut String, c: char)
    ensures
        final(text)@ == old(text)@.push(c),
{
    text.push(c)
}

} // verus!
