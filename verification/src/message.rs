//! The diagnostic for a text that does not fit: it names the text, its length
//! in octets and the capacity, both in decimal.
use crate::text::encoded_len;
use vstd::prelude::*;
use vstd::string::*;

verus! {

/// The character that stands for the decimal digit `d`.
pub open spec fn digit(d: nat) -> char
    recommends
        d < 10,
{
    seq!['0', '1', '2', '3', '4', '5', '6', '7', '8', '9'][d as int]
}

/// The decimal numeral of `n`, most significant digit first, without leading
/// zeros.
pub open spec fn decimal(n: nat) -> Seq<char>
    decreases n,
{
    if n < 10 {
        seq![digit(n)]
    } else {
        decimal(n / 10).push(digit(n % 10))
    }
}

/// The diagnostic for `text` against a container of the given capacity.
pub open spec fn capacity_message(text: Seq<char>, capacity: usize) -> Seq<char> {
    "String '"@ + text + "' (len="@ + decimal(encoded_len(text)) + ") exceeds capacity "@ + decimal(
        capacity as nat,
    )
}

/// The numeral of a single decimal digit.
fn digit_str(d: usize) -> (s: &'static str)
    requires
        d < 10,
    ensures
        s@ == seq![digit(d as nat)],
{
    proof {
        reveal_strlit("0");
        reveal_strlit("1");
        reveal_strlit("2");
        reveal_strlit("3");
        reveal_strlit("4");
        reveal_strlit("5");
        reveal_strlit("6");
        reveal_strlit("7");
        reveal_strlit("8");
        reveal_strlit("9");
    }
    let s = match d {
        0 => "0",
        1 => "1",
        2 => "2",
        3 => "3",
        4 => "4",
        5 => "5",
        6 => "6",
        7 => "7",
        8 => "8",
        _ => "9",
    };
    assert(s@ =~= seq![digit(d as nat)]);
    s
}

/// Appends the decimal numeral of `n` to `out`.
fn push_decimal(out: &mut String, n: usize)
    ensures
        final(out)@ == old(out)@ + decimal(n as nat),
    decreases n,
{
    if n >= 10 {
        push_decimal(out, n / 10);
    }
    out.append(digit_str(n % 10));
}

/// Builds the diagnostic for `s` against a container of the given capacity.
pub fn capacity_exceeded(s: &str, capacity: usize) -> (msg: String)
    ensures
        msg@ == capacity_message(s@, capacity),
{
    let mut msg = String::new();
    msg.append("String '");
    msg.append(s);
    msg.append("' (len=");
    push_decimal(&mut msg, s.as_bytes().len());
    msg.append(") exceeds capacity ");
    push_decimal(&mut msg, capacity);
    msg
}

} // verus!
