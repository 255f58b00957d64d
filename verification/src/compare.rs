//! Equality and order of containers: both go by the text held, octet by
//! octet, as they do for the growable string types.
use crate::container::FixStr;
use crate::text::{lemma_encoding_injective, lemma_tail_step, lemma_tail_whole, tail};
use core::cmp::Ordering;
use vstd::prelude::*;
use vstd::std_specs::cmp::{PartialEqSpecImpl, PartialOrdSpecImpl};

verus! {

/// The lexicographic order of two octet sequences: the first octet in which
/// they differ decides, and a proper prefix comes before what it is a prefix
/// of.
pub open spec fn lex_order(a: Seq<u8>, b: Seq<u8>) -> Ordering
    decreases a.len(),
{
    if a.len() == 0 {
        if b.len() == 0 {
            Ordering::Equal
        } else {
            Ordering::Less
        }
    } else if b.len() == 0 {
        Ordering::Greater
    } else if a[0] < b[0] {
        Ordering::Less
    } else if a[0] > b[0] {
        Ordering::Greater
    } else {
        lex_order(a.drop_first(), b.drop_first())
    }
}

/// Two octet sequences are in the same place of the order only if they are
/// the same sequence.
pub proof fn lemma_lex_order_equal(a: Seq<u8>, b: Seq<u8>)
    ensures
        lex_order(a, b) == Ordering::Equal <==> a == b,
    decreases a.len(),
{
    if a.len() > 0 && b.len() > 0 {
        lemma_lex_order_equal(a.drop_first(), b.drop_first());
        if a[0] == b[0] && a.drop_first() == b.drop_first() {
            assert(a =~= seq![a[0]] + a.drop_first());
            assert(b =~= seq![b[0]] + b.drop_first());
        }
    }
    if a.len() == 0 && b.len() == 0 {
        assert(a =~= b);
    }
}

/// The order of two numbers.
pub open spec fn int_order(x: int, y: int) -> Ordering {
    if x < y {
        Ordering::Less
    } else if x > y {
        Ordering::Greater
    } else {
        Ordering::Equal
    }
}

/// The order that goes by two whole buffers first and, where these are the
/// same, by the lengths held in them.
pub open spec fn buffer_then_len_order(a: Seq<u8>, a_len: int, b: Seq<u8>, b_len: int) -> Ordering {
    match lex_order(a, b) {
        Ordering::Equal => int_order(a_len, b_len),
        Ordering::Less => Ordering::Less,
        Ordering::Greater => Ordering::Greater,
    }
}

/// Two buffers of one size, each holding a prefix and zeros after it, are
/// ordered buffer first and length second as their prefixes are ordered.
pub proof fn lemma_padded_order(a: Seq<u8>, a_len: int, b: Seq<u8>, b_len: int)
    requires
        a.len() == b.len(),
        0 <= a_len <= a.len(),
        0 <= b_len <= b.len(),
        forall|i: int| a_len <= i < a.len() ==> a[i] == 0,
        forall|i: int| b_len <= i < b.len() ==> b[i] == 0,
    ensures
        buffer_then_len_order(a, a_len, b, b_len) == lex_order(
            a.subrange(0, a_len),
            b.subrange(0, b_len),
        ),
    decreases a.len(),
{
    let x = a.subrange(0, a_len);
    let y = b.subrange(0, b_len);
    if a.len() > 0 && a[0] == b[0] {
        let a_rest = if a_len > 0 {
            a_len - 1
        } else {
            0
        };
        let b_rest = if b_len > 0 {
            b_len - 1
        } else {
            0
        };
        lemma_padded_order(a.drop_first(), a_rest, b.drop_first(), b_rest);
        assert(a.drop_first().subrange(0, a_rest) =~= if a_len > 0 {
            x.drop_first()
        } else {
            x
        });
        assert(b.drop_first().subrange(0, b_rest) =~= if b_len > 0 {
            y.drop_first()
        } else {
            y
        });
    }
}

impl<const N: usize> PartialEq for FixStr<N> {
    /// Whether both hold the same text.
    fn eq(&self, other: &Self) -> (r: bool) {
        let a = self.as_bytes();
        let b = other.as_bytes();
        proof {
            use_type_invariant(self);
            use_type_invariant(other);
            self.lemma_wf();
            other.lemma_wf();
            if self@ == other@ {
                assert(a@ == b@);
            }
        }
        let n = a.len();
        if n != b.len() {
            return false;
        }
        let mut i: usize = 0;
        while i < n
            invariant
                i <= n,
                n == a@.len(),
                n == b@.len(),
                self@ == other@ ==> a@ == b@,
                forall|j: int| 0 <= j < i ==> a@[j] == b@[j],
            decreases n - i,
        {
            if a[i] != b[i] {
                return false;
            }
            i += 1;
        }
        proof {
            assert(a@ =~= b@);
            lemma_encoding_injective(self@, other@);
        }
        true
    }
}

impl<const N: usize> PartialEqSpecImpl for FixStr<N> {
    open spec fn obeys_eq_spec() -> bool {
        true
    }

    open spec fn eq_spec(&self, other: &Self) -> bool {
        self@ == other@
    }
}

impl<const N: usize> PartialOrd for FixStr<N> {
    /// The place of `self` relative to `other` in the lexicographic order of
    /// their octets.
    fn partial_cmp(&self, other: &Self) -> (r: Option<Ordering>) {
        let a = self.as_bytes();
        let b = other.as_bytes();
        let n = a.len();
        let m = b.len();
        let mut i: usize = 0;
        proof {
            lemma_tail_whole(a@);
            lemma_tail_whole(b@);
        }
        while i < n && i < m
            invariant
                i <= n,
                i <= m,
                n == a@.len(),
                m == b@.len(),
                a@ == self.bytes(),
                b@ == other.bytes(),
                lex_order(a@, b@) == lex_order(tail(a@, i), tail(b@, i)),
            decreases n - i,
        {
            proof {
                lemma_tail_step(a@, i);
                lemma_tail_step(b@, i);
            }
            if a[i] < b[i] {
                return Some(Ordering::Less);
            }
            if a[i] > b[i] {
                return Some(Ordering::Greater);
            }
            i += 1;
        }
        if n < m {
            Some(Ordering::Less)
        } else if n > m {
            Some(Ordering::Greater)
        } else {
            Some(Ordering::Equal)
        }
    }
}

impl<const N: usize> PartialOrdSpecImpl for FixStr<N> {
    open spec fn obeys_partial_cmp_spec() -> bool {
        true
    }

    open spec fn partial_cmp_spec(&self, other: &Self) -> Option<Ordering> {
        Some(lex_order(self.bytes(), other.bytes()))
    }
}

impl<const N: usize> FixStr<N> {
    /// Order and equality agree: two containers are in the same place of
    /// the order if and only if they are equal, that is, hold the same text.
    pub proof fn lemma_order_agrees_with_equality(&self, other: &Self)
        requires
            self.wf(),
            other.wf(),
        ensures
            lex_order(self.bytes(), other.bytes()) == Ordering::Equal <==> self@ == other@,
    {
        self.lemma_wf();
        other.lemma_wf();
        lemma_lex_order_equal(self.bytes(), other.bytes());
    }
}

} // verus!
