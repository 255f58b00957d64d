//! What this crate takes from the standard library and `vstd` does not
//! specify. Nothing here is proved: the types are opaque, and the contract
//! is taken on trust from the documentation of `core`.
use vstd::prelude::*;
use vstd::string::*;
use vstd::utf8::*;

verus! {

/// `core::str::Utf8Error`, opaque: why octets were not well-formed UTF-8.
#[verifier::external_type_specification]
#[verifier::external_body]
pub struct ExUtf8Error(core::str::Utf8Error);

/// `core::fmt::Formatter`, opaque: where `Display` and `Debug` write to.
#[verifier::external_type_specification]
#[verifier::external_body]
pub struct ExFormatter<'a>(core::fmt::Formatter<'a>);

/// `core::fmt::Error`, opaque: that writing to a formatter failed.
#[verifier::external_type_specification]
#[verifier::external_body]
pub struct ExFmtError(core::fmt::Error);

/// `core::str::from_utf8` checks that the octets are well-formed UTF-8 and,
/// if they are, hands them back as text without changing them: it succeeds
/// exactly on well-formed input, and the text it returns is encoded by the
/// very octets it was given.
pub assume_specification[ core::str::from_utf8 ](v: &[u8]) -> (r: Result<
    &str,
    core::str::Utf8Error,
>)
    ensures
        r is Ok <==> valid_utf8(v@),
        r matches Ok(s) ==> s.spec_bytes() == v@,
;

} // verus!
