//! Text and its UTF-8 encoding: how many octets a text takes, and when it fits
//! a given capacity.
use vstd::prelude::*;
use vstd::utf8::*;

verus! {

/// The largest octet length any container can hold, whatever its capacity:
/// the length is kept in a single octet.
pub const MAX_LEN: usize = 255;

/// The number of octets in the UTF-8 encoding of `text`.
pub open spec fn encoded_len(text: Seq<char>) -> nat {
    encode_utf8(text).len()
}

/// Whether `text` can be held by a container of the given capacity: its
/// encoding exceeds neither the capacity nor the absolute ceiling.
pub open spec fn fits(text: Seq<char>, capacity: usize) -> bool {
    encoded_len(text) <= capacity && encoded_len(text) <= MAX_LEN
}

/// The boundary of what fits: a text one octet longer than the capacity does
/// not fit, and a text longer than the ceiling fits no capacity at all.
pub proof fn lemma_fits_boundary(text: Seq<char>, capacity: usize)
    ensures
        fits(text, capacity) <==> encoded_len(text) <= capacity && encoded_len(text) <= 255,
        encoded_len(text) == capacity + 1 ==> !fits(text, capacity),
        encoded_len(text) > 255 ==> !fits(text, capacity),
{
}

/// What is left of `s` from the octet at `from` on.
pub open spec fn tail(s: Seq<u8>, from: usize) -> Seq<u8> {
    s.subrange(from as int, s.len() as int)
}

/// From the first octet on, nothing is left out.
pub proof fn lemma_tail_whole(s: Seq<u8>)
    ensures
        tail(s, 0) == s,
{
    assert(tail(s, 0) =~= s);
}

/// The tail from one octet further on is the tail without its first octet.
pub proof fn lemma_tail_step(s: Seq<u8>, from: usize)
    requires
        from < s.len() <= usize::MAX,
    ensures
        tail(s, from).len() == s.len() - from,
        tail(s, from)[0] == s[from as int],
        tail(s, from).drop_first() == tail(s, (from + 1) as usize),
{
    assert(tail(s, from).drop_first() =~= tail(s, (from + 1) as usize));
}

/// A character is encoded in one to four octets, and in exactly one octet
/// if and only if it is an ASCII character.
pub proof fn lemma_char_width(c: char)
    ensures
        1 <= encode_scalar(c as u32).len() <= 4,
        encode_scalar(c as u32).len() == 1 <==> '\0' <= c <= '\u{7f}',
{
    char_is_scalar(c);
}

/// A text never has more characters than octets, and has as many of one as
/// of the other if and only if every character is ASCII.
pub proof fn lemma_chars_le_octets(text: Seq<char>)
    ensures
        text.len() <= encoded_len(text),
        text.len() == encoded_len(text) <==> is_ascii_chars(text),
    decreases text.len(),
{
    if text.len() > 0 {
        let rest = text.drop_first();
        lemma_char_width(text[0]);
        lemma_chars_le_octets(rest);
        if is_ascii_chars(text) {
            assert forall|i: int| 0 <= i < rest.len() implies '\0' <= #[trigger] rest[i]
                <= '\u{7f}' by {
                assert(rest[i] == text[i + 1]);
            }
        }
        if text.len() == encoded_len(text) {
            assert forall|i: int| 0 <= i < text.len() implies '\0' <= #[trigger] text[i]
                <= '\u{7f}' by {
                if i > 0 {
                    assert(text[i] == rest[i - 1]);
                }
            }
        }
    }
}

/// Only the empty text has an empty encoding.
pub proof fn lemma_empty_encoding(text: Seq<char>)
    ensures
        encoded_len(text) == 0 <==> text.len() == 0,
{
    lemma_chars_le_octets(text);
}

/// Two texts with the same encoding are the same text.
pub proof fn lemma_encoding_injective(a: Seq<char>, b: Seq<char>)
    requires
        encode_utf8(a) == encode_utf8(b),
    ensures
        a == b,
{
    encode_utf8_decode_utf8(a);
    encode_utf8_decode_utf8(b);
}

} // verus!
