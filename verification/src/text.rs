//! Building the lines of text that are drawn.

use vstd::prelude::*;
use vstd::string::StringExecFns;

verus! {

/// The decimal digit for `d`.
pub open spec fn digit(d: int) -> char {
    ('0' as u8 + d) as char
}

/// The decimal numeral of `n`, without leading zeros.
pub open spec fn decimal(n: nat) -> Seq<char>
    decreases n,
{
    if n < 10 {
        seq![digit(n as int)]
    } else {
        decimal(n / 10).push(digit((n % 10) as int))
    }
}

/// `count` spaces.
pub open spec fn spaces(count: int) -> Seq<char> {
    Seq::new(
        if count > 0 {
            count as nat
        } else {
            0
        },
        |i: int| ' ',
    )
}

/// `text` filled up with spaces on the right to `width` characters; a text
/// that is already that long stays as it is.
pub open spec fn padded(text: Seq<char>, width: int) -> Seq<char> {
    text + spaces(width - text.len())
}

/// Appends the decimal numeral of `n` to `out`.
pub fn push_decimal(out: &mut String, n: usize)
    ensures
        final(out)@ == old(out)@ + decimal(n as nat),
    decreases n,
{
    if n >= 10 {
        push_decimal(out, n / 10);
    }
    let d: u8 = (n % 10) as u8;
    out.push((48u8 + d) as char);
}

/// Fills `input` up with spaces on the right to `total_length` characters.
pub fn pad_to_length(input: &str, total_length: usize) -> (out: String)
    ensures
        out@ == padded(input@, total_length as int),
{
    let mut out = String::from_str(input);
    let mut length: usize = input.unicode_len();
    while length < total_length
        invariant
            out@ == input@ + spaces(length - input@.len()),
            length >= input@.len(),
            length == input@.len() || length <= total_length,
        decreases total_length - length,
    {
        out.push(' ');
        length += 1;
    }
    out
}

} // verus!
