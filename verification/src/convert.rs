//! Conversions between the container and the growable string types.
//!
//! A `String` has no value in specifications other than its view, so these
//! conversions state their results on the functions themselves, by the text
//! returned, and make no claim through `from_spec` or `try_from_spec`.
use crate::container::FixStr;
use crate::message::{capacity_exceeded, capacity_message};
use crate::text::fits;
use vstd::prelude::*;
use vstd::std_specs::convert::{FromSpecImpl, TryFromSpecImpl};
use vstd::string::*;
use vstd::utf8::encode_utf8;

verus! {

impl<const N: usize> FixStr<N> {
    /// The text held, as a string of its own.
    pub fn to_string(&self) -> (out: String)
        ensures
            out@ == self@,
    {
        self.as_str().to_owned()
    }
}

impl<'a, const N: usize> TryFrom<&'a str> for FixStr<N> {
    type Error = String;

    /// As [`FixStr::new`], but a text that does not fit is answered with the
    /// diagnostic that names it, its length and the capacity.
    fn try_from(s: &'a str) -> (r: Result<Self, String>)
        ensures
            r is Ok <==> fits(s@, N),
            r matches Ok(f) ==> f.bytes() == encode_utf8(s@) && f@ == s@,
            r matches Err(e) ==> e@ == capacity_message(s@, N),
    {
        match Self::new(s) {
            Some(f) => Ok(f),
            None => Err(capacity_exceeded(s, N)),
        }
    }
}

impl<'a, const N: usize> TryFromSpecImpl<&'a str> for FixStr<N> {
    open spec fn obeys_try_from_spec() -> bool {
        false
    }

    open spec fn try_from_spec(v: &'a str) -> Result<Self, String> {
        arbitrary()
    }
}

impl<const N: usize> TryFrom<String> for FixStr<N> {
    type Error = String;

    /// As the conversion from borrowed text, on the content of `s`.
    fn try_from(s: String) -> (r: Result<Self, String>)
        ensures
            r is Ok <==> fits(s@, N),
            r matches Ok(f) ==> f.bytes() == encode_utf8(s@) && f@ == s@,
            r matches Err(e) ==> e@ == capacity_message(s@, N),
    {
        Self::try_from(s.as_str())
    }
}

impl<const N: usize> TryFromSpecImpl<String> for FixStr<N> {
    open spec fn obeys_try_from_spec() -> bool {
        false
    }

    open spec fn try_from_spec(v: String) -> Result<Self, String> {
        arbitrary()
    }
}

impl<const N: usize> From<FixStr<N>> for String {
    /// The text held, as a string of its own.
    fn from(s: FixStr<N>) -> (out: String)
        ensures
            out@ == s@,
    {
        s.to_string()
    }
}

impl<const N: usize> FromSpecImpl<FixStr<N>> for String {
    open spec fn obeys_from_spec() -> bool {
        false
    }

    open spec fn from_spec(v: FixStr<N>) -> String {
        arbitrary()
    }
}

impl<const N: usize> AsRef<str> for FixStr<N> {
    /// The text held, borrowed.
    fn as_ref(&self) -> (r: &str)
        ensures
            encode_utf8(r@) == self.bytes(),
            r@ == self@,
    {
        self.as_str()
    }
}

} // verus!
