use vstd::prelude::*;

use crate::common::clock::digit_char;

verus! {

/// The decimal digits of `n`, most significant first, without leading
/// zeros (a single `0` for zero).
pub open spec fn digits_text(n: nat) -> Seq<char>
    decreases n,
{
    if n < 10 {
        seq![digit_char(n as int)]
    } else {
        digits_text(n / 10) + seq![digit_char((n % 10) as int)]
    }
}

/// `n` in decimal, with a leading minus sign when negative.
pub open spec fn int_text(n: int) -> Seq<char> {
    if n < 0 {
        seq!['-'] + digits_text((-n) as nat)
    } else {
        digits_text(n as nat)
    }
}

/// Calls `i128`'s `Display` (through `to_string`), which writes the
/// number in decimal, a minus sign before negative numbers and no leading
/// zeros; that is the claim.
#[verifier::external_body]
pub(crate) fn decimal_text(n: i128) -> (res: String)
    ensures
        res@ == int_text(n as int),
{
    n.to_string()
}

/// An owned copy of `s`.
pub(crate) fn owned(s: &str) -> (res: String)
    ensures
        res@ == s@,
{
    String::from_str(s)
}

/// Whether two strings hold the same characters.
pub(crate) fn same_text(a: &str, b: &str) -> (res: bool)
    ensures
        res == (a@ == b@),
{
    let x = String::from_str(a);
    let y = String::from_str(b);
    x == y
}

/// `prefix` followed by `rest`.
pub(crate) fn joined(prefix: &str, rest: &str) -> (res: String)
    ensures
        res@ == prefix@ + rest@,
{
    String::from_str(prefix).concat(rest)
}

} // verus!
