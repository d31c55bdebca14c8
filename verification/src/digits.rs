//! Decimal text of unsigned integers.
//!
//! Sizes, status codes and timestamps appear in diagnostics and metadata
//! tags as decimal text; the spec function here pins that text digit by
//! digit.

use vstd::prelude::*;

verus! {

use vstd::string::StringExecFns;

/// The ten decimal digits, indexed by value.
pub open spec fn spec_dec_digit_char(v: nat) -> char
    recommends
        v < 10,
{
    seq!['0', '1', '2', '3', '4', '5', '6', '7', '8', '9'][v as int]
}

/// Ordinary decimal notation, most significant digit first and without
/// leading zeros (zero itself is "0").
pub open spec fn spec_dec_string(n: nat) -> Seq<char>
    decreases n,
{
    if n < 10 {
        seq![spec_dec_digit_char(n)]
    } else {
        spec_dec_string(n / 10) + seq![spec_dec_digit_char(n % 10)]
    }
}

/// One decimal digit as a string.
fn dec_digit_str(d: u64) -> (r: String)
    requires
        d < 10,
    ensures
        r@ == seq![spec_dec_digit_char(d as nat)],
{
    let r = match d {
        0 => String::from_str("0"),
        1 => String::from_str("1"),
        2 => String::from_str("2"),
        3 => String::from_str("3"),
        4 => String::from_str("4"),
        5 => String::from_str("5"),
        6 => String::from_str("6"),
        7 => String::from_str("7"),
        8 => String::from_str("8"),
        _ => String::from_str("9"),
    };
    proof {
        reveal_strlit("0");
        reveal_strlit("1");
        reveal_strlit("2");
        reveal_strlit("3");
        reveal_strlit("4");
        reveal_strlit("5");
        reveal_strlit("6");
        reveal_strlit("7");
        reveal_strlit("8");
        reveal_strlit("9");
    }
    r
}

/// The decimal text of `n`.
pub fn u64_to_dec_string(n: u64) -> (r: String)
    ensures
        r@ == spec_dec_string(n as nat),
    decreases n,
{
    if n < 10 {
        dec_digit_str(n)
    } else {
        let high = u64_to_dec_string(n / 10);
        let low = dec_digit_str(n % 10);
        high.concat(low.as_str())
    }
}

} // verus!
