//! Rendering of the report: decimal formatting of `u64` values and the
//! ten-line table `fib(i) = v` for the indices 0 through 9.
//!
//! Each executable function's output is pinned, character for character, to a
//! spec-level sequence, so the exact text of the report is part of the
//! library's contract.

use crate::{fibonacci, spec_calculator};
use vstd::prelude::*;

verus! {

/// The character for one decimal digit.
pub open spec fn spec_digit(d: nat) -> char {
    if d == 0 {
        '0'
    } else if d == 1 {
        '1'
    } else if d == 2 {
        '2'
    } else if d == 3 {
        '3'
    } else if d == 4 {
        '4'
    } else if d == 5 {
        '5'
    } else if d == 6 {
        '6'
    } else if d == 7 {
        '7'
    } else if d == 8 {
        '8'
    } else {
        '9'
    }
}

/// The decimal rendering of a natural number, most significant digit first,
/// with no leading zeros (a single `'0'` for zero itself).
pub open spec fn spec_decimal(n: nat) -> Seq<char>
    decreases n,
{
    if n < 10 {
        seq![spec_digit(n)]
    } else {
        spec_decimal(n / 10) + seq![spec_digit(n % 10)]
    }
}

/// One report line for index `i` with value `v`: `fib(i) = v`, both numbers
/// in decimal.
pub open spec fn spec_line(i: nat, v: nat) -> Seq<char> {
    "fib("@ + spec_decimal(i) + ") = "@ + spec_decimal(v)
}

/// The one-character string for a decimal digit.
fn digit_str(d: u64) -> (s: &'static str)
    requires
        d < 10,
    ensures
        s@ == seq![spec_digit(d as nat)],
{
    let s: &'static str = if d == 0 {
        proof {
            reveal_strlit("0");
        }
        "0"
    } else if d == 1 {
        proof {
            reveal_strlit("1");
        }
        "1"
    } else if d == 2 {
        proof {
            reveal_strlit("2");
        }
        "2"
    } else if d == 3 {
        proof {
            reveal_strlit("3");
        }
        "3"
    } else if d == 4 {
        proof {
            reveal_strlit("4");
        }
        "4"
    } else if d == 5 {
        proof {
            reveal_strlit("5");
        }
        "5"
    } else if d == 6 {
        proof {
            reveal_strlit("6");
        }
        "6"
    } else if d == 7 {
        proof {
            reveal_strlit("7");
        }
        "7"
    } else if d == 8 {
        proof {
            reveal_strlit("8");
        }
        "8"
    } else {
        proof {
            reveal_strlit("9");
        }
        "9"
    };
    proof {
        assert(s@ =~= seq![spec_digit(d as nat)]);
    }
    s
}

/// Renders a `u64` in decimal, most significant digit first.
pub fn u64_to_decimal(n: u64) -> (s: String)
    ensures
        s@ == spec_decimal(n as nat),
    decreases n,
{
    if n < 10 {
        String::from_str(digit_str(n))
    } else {
        let mut s = u64_to_decimal(n / 10);
        s.append(digit_str(n % 10));
        s
    }
}

/// Renders the report line for index `i`: `fib(i) = v`, where `v` is the
/// calculator's result at `i`.
pub fn fib_line(i: u64) -> (s: String)
    ensures
        s@ == spec_line(i as nat, spec_calculator(i as nat) as nat),
{
    let v = fibonacci(i);
    let index_text = u64_to_decimal(i);
    let value_text = u64_to_decimal(v);
    let mut s = String::from_str("fib(");
    s.append(index_text.as_str());
    s.append(") = ");
    s.append(value_text.as_str());
    s
}

/// Renders the whole report: the lines for the indices 0 through 9, in
/// increasing order of index.
pub fn fib_report() -> (lines: Vec<String>)
    ensures
        lines@.len() == 10,
        forall|j: int|
            0 <= j < 10 ==> #[trigger] lines@[j]@ == spec_line(
                j as nat,
                spec_calculator(j as nat) as nat,
            ),
{
    let mut lines: Vec<String> = Vec::new();
    let mut i: u64 = 0;
    while i < 10
        invariant
            i <= 10,
            lines@.len() == i,
            forall|j: int|
                0 <= j < i ==> #[trigger] lines@[j]@ == spec_line(
                    j as nat,
                    spec_calculator(j as nat) as nat,
                ),
        decreases 10 - i,
    {
        lines.push(fib_line(i));
        i = i + 1;
    }
    lines
}

} // verus!
