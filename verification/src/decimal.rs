//! Plain decimal text for integers, as query parameters carry them.

use vstd::prelude::*;
use crate::timestamp::{spec_digit, digit_str};

verus! {

/// The usual decimal digits of `n`, without leading zeroes.
pub open spec fn spec_decimal_nat(n: int) -> Seq<char>
    decreases n,
{
    if n < 10 {
        seq![spec_digit(n)]
    } else {
        spec_decimal_nat(n / 10).push(spec_digit(n % 10))
    }
}

/// The decimal text of `n`, with a leading minus sign when negative.
pub open spec fn spec_decimal(n: int) -> Seq<char> {
    if n < 0 {
        seq!['-'] + spec_decimal_nat(-n)
    } else {
        spec_decimal_nat(n)
    }
}

/// Appends the decimal digits of `n`.
fn push_decimal_nat(out: &mut String, n: u32)
    ensures
        final(out)@ == old(out)@ + spec_decimal_nat(n as int),
    decreases n,
{
    if n < 10 {
        out.append(digit_str(n as u8));
        assert(out@ =~= old(out)@ + spec_decimal_nat(n as int));
    } else {
        assert(n / 10 < n) by (nonlinear_arith)
            requires
                n >= 10,
        ;
        push_decimal_nat(out, n / 10);
        out.append(digit_str((n % 10) as u8));
        assert(out@ =~= old(out)@ + spec_decimal_nat(n as int));
    }
}

/// Renders `n` as plain decimal text.
pub fn i32_to_decimal(n: i32) -> (r: String)
    ensures
        r@ == spec_decimal(n as int),
{
    let mut out = String::new();
    if n < 0 {
        proof {
            reveal_strlit("-");
        }
        out.append("-");
        let magnitude: u32 = ((-(n as i64)) as u32);
        push_decimal_nat(&mut out, magnitude);
        assert(out@ =~= spec_decimal(n as int));
    } else {
        push_decimal_nat(&mut out, n as u32);
    }
    out
}

} // verus!
