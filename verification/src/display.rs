//! How a container is printed: as the text it holds. The formatter is the
//! standard library's own and opaque to the verifier, so nothing is claimed
//! of what reaches it; [`FixStr::to_string`] states the same result as a
//! value.
use crate::container::FixStr;
use core::fmt::{Debug, Display, Formatter};
use vstd::prelude::*;

verus! {

/// Hands `text` to the formatter through `core::fmt`'s `write!` with `{}`,
/// which writes a string as it is. Nothing is claimed of the formatter.
#[verifier::external_body]
fn write_plain(f: &mut Formatter<'_>, text: &str) -> core::fmt::Result {
    write!(f, "{}", text)
}

/// Hands `name` and `field` to `Formatter::debug_tuple`, which writes a
/// name and, in brackets, a field as `Debug` shows it: for a string, quoted
/// and escaped. Nothing is claimed of the formatter.
#[verifier::external_body]
fn write_tuple(f: &mut Formatter<'_>, name: &str, field: &str) -> core::fmt::Result {
    f.debug_tuple(name).field(&field).finish()
}

impl<const N: usize> Display for FixStr<N> {
    /// Writes the text held, and nothing else.
    fn fmt(&self, f: &mut Formatter<'_>) -> core::fmt::Result {
        write_plain(f, self.as_str())
    }
}

impl<const N: usize> Debug for FixStr<N> {
    /// Writes the type's name and the text held, quoted, for a developer to
    /// read.
    fn fmt(&self, f: &mut Formatter<'_>) -> core::fmt::Result {
        write_tuple(f, "FixStr", self.as_str())
    }
}

} // verus!
