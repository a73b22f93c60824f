//! Texts that leave as C strings. A C string ends at its first zero byte, so
//! a text can leave whole only if its encoding holds none.

use vstd::prelude::*;
use vstd::utf8::*;
use vstd::string::*;

verus! {

/// Whether a text holds the character that ends a C string.
pub open spec fn has_nul(text: Seq<char>) -> bool {
    text.contains('\0')
}

/// Whether `text` holds a NUL.
pub fn holds_nul(text: &str) -> (found: bool)
    ensures
        found == has_nul(text@),
{
    let mut found = false;
    for c in it: text.chars()
        invariant
            it.seq() == text@,
            found == exists|j: int| 0 <= j < it.index() && text@[j] == '\0',
    {
        if c == '\0' {
            found = true;
        }
    }
    found
}

/// A text as it is handed out where none may be missing: the text itself,
/// or the empty text where it could not be a C string.
pub open spec fn c_text(text: Seq<char>) -> Seq<char> {
    if has_nul(text) {
        Seq::empty()
    } else {
        text
    }
}

/// Makes a text fit to hand out.
pub fn c_text_or_empty(text: String) -> (fit: String)
    ensures
        fit@ == c_text(text@),
        !has_nul(fit@),
{
    if holds_nul(text.as_str()) {
        String::new()
    } else {
        text
    }
}

proof fn lemma_width_1_byte(v: u32)
    by (bit_vector)
    requires
        v <= 0x7F,
    ensures
        ((v & 0x7F) as u8 == 0u8) <==> v == 0,
{
}

proof fn lemma_leading_bytes_are_not_zero(v: u32)
    by (bit_vector)
    ensures
        0xC0u8 | ((v >> 6) & 0x1F) as u8 != 0u8,
        0xE0u8 | ((v >> 12) & 0x0F) as u8 != 0u8,
        0xF0u8 | ((v >> 18) & 0x7) as u8 != 0u8,
{
}

proof fn lemma_continuation_bytes_are_not_zero(v: u32)
    by (bit_vector)
    ensures
        0x80u8 | (v & 0x3F) as u8 != 0u8,
        0x80u8 | ((v >> 6) & 0x3F) as u8 != 0u8,
        0x80u8 | ((v >> 12) & 0x3F) as u8 != 0u8,
{
}

/// The encoding of one character holds a zero byte exactly if the character
/// is NUL.
pub proof fn lemma_zero_byte_of_scalar(c: char)
    ensures
        encode_scalar(c as u32).contains(0u8) <==> c == '\0',
{
    let v = c as u32;
    let bytes = encode_scalar(v);
    char_is_scalar(c);
    lemma_leading_bytes_are_not_zero(v);
    lemma_continuation_bytes_are_not_zero(v);
    if has_width_1_encoding(v) {
        lemma_width_1_byte(v);
        assert(bytes.len() == 1);
        if c == '\0' {
            assert(bytes[0] == 0u8);
        }
    }
    if bytes.contains(0u8) {
        let i = choose|i: int| 0 <= i < bytes.len() && bytes[i] == 0u8;
        assert(bytes[i] == 0u8);
    }
}

/// A text holds a NUL exactly if its UTF-8 encoding holds a zero byte: the
/// texts without one are those that can leave whole as C strings.
pub proof fn lemma_nul_is_the_zero_byte(text: Seq<char>)
    ensures
        has_nul(text) <==> encode_utf8(text).contains(0u8),
    decreases text.len(),
{
    if text.len() == 0 {
        assert(!encode_utf8(text).contains(0u8));
    } else {
        let head = encode_scalar(text[0] as u32);
        let rest = text.drop_first();
        let tail = encode_utf8(rest);
        lemma_zero_byte_of_scalar(text[0]);
        lemma_nul_is_the_zero_byte(rest);
        assert(encode_utf8(text) == head + tail);
        if has_nul(text) {
            let i = choose|i: int| 0 <= i < text.len() && text[i] == '\0';
            if i == 0 {
                let j = choose|j: int| 0 <= j < head.len() && head[j] == 0u8;
                assert((head + tail)[j] == 0u8);
            } else {
                assert(rest[i - 1] == '\0');
                let j = choose|j: int| 0 <= j < tail.len() && tail[j] == 0u8;
                assert((head + tail)[head.len() + j] == 0u8);
            }
        }
        if (head + tail).contains(0u8) {
            let j = choose|j: int| 0 <= j < (head + tail).len() && (head + tail)[j] == 0u8;
            if j < head.len() {
                assert(head[j] == 0u8);
                assert(text[0] == '\0');
            } else {
                assert(tail[j - head.len()] == 0u8);
                let i = choose|i: int| 0 <= i < rest.len() && rest[i] == '\0';
                assert(text[i + 1] == '\0');
            }
        }
    }
}

} // verus!
