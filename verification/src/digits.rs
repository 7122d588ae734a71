//! Decimal rendering of integers, used by components to turn numeric state
//! into the displayable values that `Dynamic` attributes resolve to.

use vstd::prelude::*;

verus! {

/// The decimal digit character of one digit value.
pub open spec fn digit_char(d: nat) -> char {
    "0123456789"@[d as int]
}

/// The decimal digit characters of a natural number, most significant
/// first, without leading zeros (a lone zero for zero).
pub open spec fn nat_digits(n: nat) -> Seq<char>
    decreases n,
{
    if n < 10 {
        seq![digit_char(n)]
    } else {
        nat_digits(n / 10).push(digit_char(n % 10))
    }
}

/// The decimal rendering of a signed number: a minus sign ahead of the
/// digits of its magnitude for a negative one.
pub open spec fn int_digits(i: int) -> Seq<char> {
    if i < 0 {
        seq!['-'] + nat_digits((-i) as nat)
    } else {
        nat_digits(i as nat)
    }
}

/// The one-character string of one digit value.
fn digit_str(d: usize) -> (r: &'static str)
    requires
        d < 10,
    ensures
        r@ == seq![digit_char(d as nat)],
{
    let table = "0123456789";
    proof {
        reveal_strlit("0123456789");
    }
    let r = table.substring_char(d, d + 1);
    proof {
        assert(r@ =~= seq![digit_char(d as nat)]);
    }
    r
}

/// Append the decimal digits of `n`, most significant first.
fn push_nat_digits(s: &mut String, n: u64)
    ensures
        final(s)@ == old(s)@ + nat_digits(n as nat),
    decreases n,
{
    let ghost pre = s@;
    if n < 10 {
        s.append(digit_str(n as usize));
        proof {
            assert(s@ =~= pre + nat_digits(n as nat));
        }
    } else {
        push_nat_digits(s, n / 10);
        s.append(digit_str((n % 10) as usize));
        proof {
            assert(s@ =~= pre + nat_digits(n as nat));
        }
    }
}

/// The decimal rendering of a signed 32-bit number.
pub fn i32_to_string(i: i32) -> (s: String)
    ensures
        s@ == int_digits(i as int),
{
    let mut s = String::new();
    if i < 0 {
        s.append("-");
        proof {
            reveal_strlit("-");
            assert(s@ =~= seq!['-']);
        }
        let n: u64 = (-(i as i64)) as u64;
        push_nat_digits(&mut s, n);
        proof {
            assert(s@ =~= seq!['-'] + nat_digits(n as nat));
        }
    } else {
        push_nat_digits(&mut s, i as u64);
    }
    s
}

} // verus!
