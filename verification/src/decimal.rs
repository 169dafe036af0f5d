//! Decimal numerals.

use vstd::prelude::*;

verus! {

/// The decimal digit that stands for `n`, for `n` below 10.
pub open spec fn decimal_digit(n: nat) -> char {
    (0x30 + n) as char
}

/// The decimal numeral of `n`, without leading zeros.
pub open spec fn decimal_numeral(n: nat) -> Seq<char>
    decreases n,
{
    if n < 10 {
        seq![decimal_digit(n)]
    } else {
        decimal_numeral(n / 10).push(decimal_digit(n % 10))
    }
}

/// The text of one decimal digit.
fn decimal_digit_text(n: u8) -> (text: &'static str)
    requires
        n < 10,
    ensures
        text@ == seq![decimal_digit(n as nat)],
{
    let digits = "0123456789";
    proof {
        reveal_strlit("0123456789");
    }
    digits.substring_ascii(n as usize, n as usize + 1)
}

/// Appends the decimal numeral of `n` to `out`.
pub fn push_decimal_numeral(out: &mut String, n: u64)
    ensures
        final(out)@ == old(out)@ + decimal_numeral(n as nat),
    decreases n,
{
    if n >= 10 {
        push_decimal_numeral(out, n / 10);
    }
    out.append(decimal_digit_text((n % 10) as u8));
}

} // verus!
