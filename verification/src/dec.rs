//! Decimal rendering of unsigned integers, used for the timestamp and
//! direction components of an update's composite index.

use vstd::prelude::*;

use crate::hex::hex_digit;
use crate::hex::hex_digit_str;

verus! {

/// The decimal digit string of a non-negative integer, most significant
/// digit first, with no leading zeros (a single `'0'` for zero).
pub open spec fn dec_of(n: int) -> Seq<char>
    decreases n,
{
    if n < 10 {
        seq![hex_digit(n)]
    } else {
        proof {
            assert(10 <= n ==> n / 10 < n) by (nonlinear_arith);
        }
        dec_of(n / 10).push(hex_digit(n % 10))
    }
}

/// Render an unsigned integer in decimal.
pub fn u64_dec(n: u64) -> (r: String)
    ensures
        r@ == dec_of(n as int),
    decreases n,
{
    let d = (n % 10) as u8;
    if n < 10 {
        let mut r = String::new();
        r.append(hex_digit_str(d));
        r
    } else {
        let mut r = u64_dec(n / 10);
        r.append(hex_digit_str(d));
        proof {
            assert(r@ =~= dec_of(n as int));
        }
        r
    }
}

} // verus!
