//! The display transform for the inventory field.
//!
//! When a record is rendered for external consumption, each `u64`
//! inventory element is rendered as its base-10 decimal string: consumers
//! limited to 53-bit-safe integers cannot losslessly hold a full `u64` as
//! a native number. This transform is one-way (display only) and is never
//! part of the flat-word round trip.

use vstd::prelude::*;

verus! {

/// The decimal digit character for `d` in `0 ..= 9`.
pub open spec fn digit_char(d: int) -> char {
    if d == 0 {
        '0'
    } else if d == 1 {
        '1'
    } else if d == 2 {
        '2'
    } else if d == 3 {
        '3'
    } else if d == 4 {
        '4'
    } else if d == 5 {
        '5'
    } else if d == 6 {
        '6'
    } else if d == 7 {
        '7'
    } else if d == 8 {
        '8'
    } else {
        '9'
    }
}

/// The base-10 decimal rendering of `n`: most significant digit first,
/// no leading zeros (except for `n == 0` itself, rendered as `"0"`).
pub open spec fn decimal_seq(n: int) -> Seq<char>
    decreases n,
{
    if n <= 9 {
        seq![digit_char(n)]
    } else {
        decimal_seq(n / 10).push(digit_char(n % 10))
    }
}

/// Appends the single decimal digit `d` to `out`.
fn push_digit(d: u64, out: &mut String)
    requires
        d <= 9,
    ensures
        final(out)@ == old(out)@ + seq![digit_char(d as int)],
{
    if d == 0 {
        proof {
            reveal_strlit("0");
        }
        out.append("0");
        proof {
            assert(out@ =~= old(out)@ + seq![digit_char(d as int)]);
        }
    } else if d == 1 {
        proof {
            reveal_strlit("1");
        }
        out.append("1");
        proof {
            assert(out@ =~= old(out)@ + seq![digit_char(d as int)]);
        }
    } else if d == 2 {
        proof {
            reveal_strlit("2");
        }
        out.append("2");
        proof {
            assert(out@ =~= old(out)@ + seq![digit_char(d as int)]);
        }
    } else if d == 3 {
        proof {
            reveal_strlit("3");
        }
        out.append("3");
        proof {
            assert(out@ =~= old(out)@ + seq![digit_char(d as int)]);
        }
    } else if d == 4 {
        proof {
            reveal_strlit("4");
        }
        out.append("4");
        proof {
            assert(out@ =~= old(out)@ + seq![digit_char(d as int)]);
        }
    } else if d == 5 {
        proof {
            reveal_strlit("5");
        }
        out.append("5");
        proof {
            assert(out@ =~= old(out)@ + seq![digit_char(d as int)]);
        }
    } else if d == 6 {
        proof {
            reveal_strlit("6");
        }
        out.append("6");
        proof {
            assert(out@ =~= old(out)@ + seq![digit_char(d as int)]);
        }
    } else if d == 7 {
        proof {
            reveal_strlit("7");
        }
        out.append("7");
        proof {
            assert(out@ =~= old(out)@ + seq![digit_char(d as int)]);
        }
    } else if d == 8 {
        proof {
            reveal_strlit("8");
        }
        out.append("8");
        proof {
            assert(out@ =~= old(out)@ + seq![digit_char(d as int)]);
        }
    } else {
        proof {
            reveal_strlit("9");
        }
        out.append("9");
        proof {
            assert(out@ =~= old(out)@ + seq![digit_char(d as int)]);
        }
    }
}

/// Appends the decimal rendering of `n` to `out`.
fn push_decimal(n: u64, out: &mut String)
    ensures
        final(out)@ == old(out)@ + decimal_seq(n as int),
    decreases n,
{
    if n >= 10 {
        push_decimal(n / 10, out);
        push_digit(n % 10, out);
        proof {
            assert(out@ =~= old(out)@ + decimal_seq(n as int));
        }
    } else {
        push_digit(n, out);
    }
}

/// The base-10 decimal string of `n`.
pub fn u64_to_decimal(n: u64) -> (s: String)
    ensures
        s@ == decimal_seq(n as int),
{
    let mut s = String::new();
    push_decimal(n, &mut s);
    proof {
        assert(s@ =~= decimal_seq(n as int));
    }
    s
}

/// The display form of an inventory: each element rendered as its decimal
/// string, in the original order.
pub fn to_display_form(inventory: &Vec<u64>) -> (r: Vec<String>)
    ensures
        r@.len() == inventory@.len(),
        forall|i: int|
            0 <= i < inventory@.len() ==> r@[i]@ == decimal_seq(inventory@[i] as int),
{
    let mut r: Vec<String> = Vec::new();
    let n: usize = inventory.len();
    let mut i: usize = 0;
    while i < n
        invariant
            n == inventory@.len(),
            i <= n,
            r@.len() == i,
            forall|j: int| 0 <= j < i ==> r@[j]@ == decimal_seq(inventory@[j] as int),
        decreases n - i,
    {
        r.push(u64_to_decimal(inventory[i]));
        i = i + 1;
    }
    r
}

} // verus!
