//! The container itself: a buffer of `N` octets held inline, of which a
//! prefix is the UTF-8 encoding of the text.
use crate::compare::{buffer_then_len_order, lemma_padded_order, lex_order};
use crate::message::capacity_exceeded;
use crate::text::{fits, lemma_chars_le_octets, lemma_empty_encoding, MAX_LEN};
use core::cmp::Ordering;
use vstd::prelude::*;
use vstd::string::*;
use vstd::utf8::*;

verus! {

/// A fixed-capacity string stored inline.
///
/// `FixStr<N>` holds up to `N` octets, and never more than [`MAX_LEN`], of
/// well-formed UTF-8. Its view is the text it holds.
#[derive(Clone, Copy, Hash, Eq, Ord)]
pub struct FixStr<const N: usize> {
    inline: [u8; N],
    len: u8,
}

impl<const N: usize> View for FixStr<N> {
    type V = Seq<char>;

    /// The text held: the octets held, decoded.
    open spec fn view(&self) -> Seq<char> {
        decode_utf8(self.bytes())
    }
}

impl<const N: usize> FixStr<N> {
    /// The octets held: the first `len` octets of the buffer.
    pub closed spec fn bytes(&self) -> Seq<u8> {
        self.inline@.subrange(0, self.len as int)
    }

    /// What holds of every container: the length is within the buffer, the
    /// octets held are well-formed UTF-8, and the rest of the buffer is zero,
    /// so that the text determines the whole value.
    #[verifier::type_invariant]
    pub closed spec fn wf(&self) -> bool {
        &&& self.len <= N
        &&& valid_utf8(self.bytes())
        &&& forall|i: int| self.len <= i < N ==> self.inline@[i] == 0
    }

    /// What the invariant means for the octets held and for the text.
    pub proof fn lemma_wf(&self)
        requires
            self.wf(),
        ensures
            valid_utf8(self.bytes()),
            self.bytes() == encode_utf8(self@),
            fits(self@, N),
    {
        decode_utf8_encode_utf8(self.bytes());
    }

    /// Builds a container holding `s`, if `s` fits: `None` if and only if
    /// its encoding is longer than `N` octets or than [`MAX_LEN`].
    pub fn new(s: &str) -> (r: Option<Self>)
        ensures
            r is Some <==> fits(s@, N),
            r matches Some(f) ==> f.bytes() == encode_utf8(s@) && f@ == s@,
    {
        let src = s.as_bytes();
        let n = src.len();
        if n > N || n > MAX_LEN {
            return None;
        }
        let mut buffer = [0u8; N];
        let mut i: usize = 0;
        while i < n
            invariant
                i <= n <= N,
                n == src@.len(),
                forall|j: int| 0 <= j < i ==> buffer@[j] == src@[j],
                forall|j: int| i <= j < N ==> buffer@[j] == 0,
            decreases n - i,
        {
            buffer[i] = src[i];
            i += 1;
        }
        proof {
            assert(buffer@.subrange(0, n as int) =~= src@);
            encode_utf8_valid_utf8(s@);
            encode_utf8_decode_utf8(s@);
        }
        match u8::try_from(n) {
            Ok(len) => Some(FixStr { inline: buffer, len }),
            Err(_) => None,
        }
    }

    /// Builds a container holding `s`, which the caller knows to fit.
    ///
    /// A caller outside verification that passes a text that does not fit is
    /// stopped with the diagnostic of [`capacity_exceeded`].
    pub fn new_unchecked(s: &str) -> (f: Self)
        requires
            fits(s@, N),
        ensures
            f.bytes() == encode_utf8(s@),
            f@ == s@,
    {
        let built = Self::new(s);
        match built {
            Some(f) => f,
            // Excluded by the precondition.
            None => built.expect(capacity_exceeded(s, N).as_str()),
        }
    }

    /// The text held, borrowed.
    pub fn as_str(&self) -> (r: &str)
        ensures
            encode_utf8(r@) == self.bytes(),
            r@ == self@,
    {
        proof {
            use_type_invariant(self);
        }
        match core::str::from_utf8(self.as_bytes()) {
            Ok(s) => {
                proof {
                    encode_utf8_decode_utf8(s@);
                }
                s
            },
            // Excluded by the invariant: the octets held are well-formed.
            Err(_) => unreached(),
        }
    }

    /// The octets held, borrowed.
    pub(crate) fn as_bytes(&self) -> (r: &[u8])
        ensures
            r@ == self.bytes(),
    {
        proof {
            use_type_invariant(self);
        }
        let n: usize = self.len as usize;
        &self.inline[0..n]
    }

    /// The length of the text in characters. It is at most the length in
    /// octets, and equal to it exactly when the text is ASCII.
    pub fn char_len(&self) -> (n: usize)
        ensures
            n == self@.len(),
            n <= self.bytes().len(),
            n == self.bytes().len() <==> is_ascii_chars(self@),
    {
        proof {
            use_type_invariant(self);
            self.lemma_wf();
            lemma_chars_le_octets(self@);
        }
        self.as_str().unicode_len()
    }

    /// The length of the text in octets.
    pub fn len(&self) -> (n: usize)
        ensures
            n == self.bytes().len(),
            n <= N,
            n <= MAX_LEN,
    {
        proof {
            use_type_invariant(self);
        }
        self.len as usize
    }

    /// Whether the text is empty.
    pub fn is_empty(&self) -> (b: bool)
        ensures
            b <==> self.bytes().len() == 0,
            b <==> self@.len() == 0,
    {
        proof {
            use_type_invariant(self);
            self.lemma_wf();
            lemma_empty_encoding(self@);
        }
        self.len() == 0
    }

    /// The total capacity in octets.
    pub fn capacity(&self) -> (n: usize)
        ensures
            n == N,
    {
        N
    }
}

impl<const N: usize> FixStr<N> {
    /// Round trip: if `built` is what [`FixStr::new`] answers for a text
    /// that fits, then it is a container, and the text that it gives back,
    /// borrowed or as a string of its own, is the text it was built from.
    pub proof fn lemma_round_trip(text: Seq<char>, built: Option<Self>)
        requires
            fits(text, N),
            built is Some <==> fits(text, N),
            built matches Some(f) ==> f.wf() && f.bytes() == encode_utf8(text),
        ensures
            built matches Some(f) && f@ == text,
    {
        encode_utf8_decode_utf8(text);
    }

    /// Lengths: a container never has more characters than octets, and as
    /// many of one as of the other if and only if its text is ASCII.
    pub proof fn lemma_char_len_le_len(&self)
        requires
            self.wf(),
        ensures
            self@.len() <= self.bytes().len() <= N,
            self.bytes().len() <= MAX_LEN,
            self@.len() == self.bytes().len() <==> is_ascii_chars(self@),
    {
        self.lemma_wf();
        lemma_chars_le_octets(self@);
    }

    /// Emptiness: the empty text fits every capacity, and a container built
    /// from it holds no octets and no characters.
    pub proof fn lemma_empty_text(built: Option<Self>)
        requires
            built is Some <==> fits(Seq::<char>::empty(), N),
            built matches Some(f) ==> f.wf() && f.bytes() == encode_utf8(Seq::<char>::empty()),
        ensures
            built matches Some(f) && f.bytes().len() == 0 && f@.len() == 0,
    {
        encode_utf8_decode_utf8(Seq::<char>::empty());
    }

    /// The text determines the value: two containers that hold the same text
    /// are equal field by field, the unused part of the buffer included. So
    /// whatever goes by the fields, as derived hashing does, gives the same
    /// for both.
    pub proof fn lemma_same_text_same_value(a: Self, b: Self)
        requires
            a.wf(),
            b.wf(),
            a@ == b@,
        ensures
            a == b,
    {
        a.lemma_wf();
        b.lemma_wf();
        assert(a.bytes().len() == a.len);
        assert(b.bytes().len() == b.len);
        assert forall|i: int| 0 <= i < N implies a.inline[i] == b.inline[i] by {
            if i < a.len {
                assert(a.bytes()[i] == a.inline@[i]);
                assert(b.bytes()[i] == b.inline@[i]);
            }
        }
        assert(a.inline =~= b.inline);
    }
}

impl<const N: usize> FixStr<N> {
    /// The length as the `len` field has it.
    closed spec fn held(&self) -> int {
        self.len as int
    }

    /// The order that goes by the fields as they are declared, the whole
    /// buffer first and the length after: the order that `derive(Ord)`
    /// gives the type.
    pub closed spec fn field_order(&self, other: &Self) -> Ordering {
        buffer_then_len_order(self.inline@, self.held(), other.inline@, other.held())
    }

    /// The order by the fields is the order of the texts: what lies behind
    /// the octets held is zero on both sides and decides nothing.
    pub proof fn lemma_field_order_is_text_order(&self, other: &Self)
        requires
            self.wf(),
            other.wf(),
        ensures
            self.field_order(other) == lex_order(self.bytes(), other.bytes()),
    {
        lemma_padded_order(self.inline@, self.held(), other.inline@, other.held());
    }
}

impl<const N: usize> Default for FixStr<N> {
    /// The container that holds the empty text.
    fn default() -> (f: Self)
        ensures
            f.bytes() == Seq::<u8>::empty(),
            f@ == Seq::<char>::empty(),
    {
        let f = FixStr { inline: [0u8; N], len: 0 };
        assert(f.bytes() =~= Seq::<u8>::empty());
        f
    }
}

} // verus!
