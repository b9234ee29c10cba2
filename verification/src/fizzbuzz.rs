//! The FizzBuzz sequence: for each number from 1 up to a bound, the line
//! that the rules yield — `Fizz` for multiples of 3, `Buzz` for multiples of
//! 5, `FizzBuzz` for multiples of both, and the number itself, written in
//! decimal, otherwise.

use vstd::prelude::*;
use vstd::string::StringExecFns;

verus! {

/// The decimal digit character for a value below ten.
pub open spec fn digit_char(d: int) -> char {
    if d == 0 {
        '0'
    } else if d == 1 {
        '1'
    } else if d == 2 {
        '2'
    } else if d == 3 {
        '3'
    } else if d == 4 {
        '4'
    } else if d == 5 {
        '5'
    } else if d == 6 {
        '6'
    } else if d == 7 {
        '7'
    } else if d == 8 {
        '8'
    } else {
        '9'
    }
}

/// The decimal digits of a number, most significant first, with no leading
/// zero except for the number zero itself.
pub open spec fn decimal_digits(n: nat) -> Seq<char>
    decreases n,
{
    if n < 10 {
        seq![digit_char(n as int)]
    } else {
        decimal_digits(n / 10).push(digit_char((n % 10) as int))
    }
}

/// The line the FizzBuzz rules yield for one number.
pub open spec fn fizz_buzz_line(i: nat) -> Seq<char> {
    if i % 3 == 0 && i % 5 == 0 {
        "FizzBuzz"@
    } else if i % 3 == 0 {
        "Fizz"@
    } else if i % 5 == 0 {
        "Buzz"@
    } else {
        decimal_digits(i)
    }
}

/// The single-character string for a decimal digit.
fn digit_str(d: u64) -> (r: &'static str)
    requires
        d < 10,
    ensures
        r@ == seq![digit_char(d as int)],
{
    if d == 0 {
        proof {
            reveal_strlit("0");
            assert("0"@ =~= seq![digit_char(0)]);
        }
        "0"
    } else if d == 1 {
        proof {
            reveal_strlit("1");
            assert("1"@ =~= seq![digit_char(1)]);
        }
        "1"
    } else if d == 2 {
        proof {
            reveal_strlit("2");
            assert("2"@ =~= seq![digit_char(2)]);
        }
        "2"
    } else if d == 3 {
        proof {
            reveal_strlit("3");
            assert("3"@ =~= seq![digit_char(3)]);
        }
        "3"
    } else if d == 4 {
        proof {
            reveal_strlit("4");
            assert("4"@ =~= seq![digit_char(4)]);
        }
        "4"
    } else if d == 5 {
        proof {
            reveal_strlit("5");
            assert("5"@ =~= seq![digit_char(5)]);
        }
        "5"
    } else if d == 6 {
        proof {
            reveal_strlit("6");
            assert("6"@ =~= seq![digit_char(6)]);
        }
        "6"
    } else if d == 7 {
        proof {
            reveal_strlit("7");
            assert("7"@ =~= seq![digit_char(7)]);
        }
        "7"
    } else if d == 8 {
        proof {
            reveal_strlit("8");
            assert("8"@ =~= seq![digit_char(8)]);
        }
        "8"
    } else {
        proof {
            reveal_strlit("9");
            assert("9"@ =~= seq![digit_char(9)]);
        }
        "9"
    }
}

/// The characters of a digit sequence read back to front: the digits are
/// collected least significant first, so reading them backwards yields the
/// usual most-significant-first order.
pub open spec fn rev_digit_chars(digits: Seq<u64>) -> Seq<char> {
    Seq::new(digits.len(), |i: int| digit_char(digits[digits.len() - 1 - i] as int))
}

/// Writes a number in decimal.
fn u64_to_string(n: u64) -> (r: String)
    ensures
        r@ == decimal_digits(n as nat),
{
    let mut digits: Vec<u64> = Vec::new();
    let mut m: u64 = n;
    digits.push(m % 10);
    m = m / 10;
    proof {
        assert(rev_digit_chars(digits@) =~= seq![digit_char((n % 10) as int)]);
        if m > 0 {
            assert(decimal_digits(n as nat) == decimal_digits((n / 10) as nat).push(
                digit_char((n % 10) as int),
            ));
            assert(decimal_digits((m as nat)).push(digit_char((n % 10) as int))
                =~= decimal_digits(m as nat) + rev_digit_chars(digits@));
        }
    }
    while m > 0
        invariant
            forall|t: int| 0 <= t < digits@.len() ==> digits@[t] < 10,
            decimal_digits(n as nat) == if m == 0 {
                rev_digit_chars(digits@)
            } else {
                decimal_digits(m as nat) + rev_digit_chars(digits@)
            },
        decreases m,
    {
        let d: u64 = m % 10;
        let ghost old_digits = digits@;
        digits.push(d);
        let next: u64 = m / 10;
        proof {
            assert(rev_digit_chars(digits@) =~= seq![digit_char(d as int)] + rev_digit_chars(
                old_digits,
            ));
            if next == 0 {
                assert(decimal_digits(m as nat) == seq![digit_char(m as int)]);
                assert(decimal_digits(m as nat) + rev_digit_chars(old_digits) =~= rev_digit_chars(
                    digits@,
                ));
            } else {
                assert(decimal_digits(m as nat) == decimal_digits((m / 10) as nat).push(
                    digit_char((m % 10) as int),
                ));
                assert(decimal_digits((m / 10) as nat).push(digit_char((m % 10) as int))
                    =~= decimal_digits(next as nat) + seq![digit_char(d as int)]);
                assert(decimal_digits(next as nat) + seq![digit_char(d as int)]
                    + rev_digit_chars(old_digits) =~= decimal_digits(next as nat)
                    + rev_digit_chars(digits@));
            }
        }
        m = next;
    }
    let count = digits.len();
    let mut s = String::new();
    let mut j: usize = 0;
    while j < count
        invariant
            count == digits@.len(),
            forall|t: int| 0 <= t < digits@.len() ==> digits@[t] < 10,
            decimal_digits(n as nat) == rev_digit_chars(digits@),
            j <= count,
            s@ == rev_digit_chars(digits@).take(j as int),
        decreases count - j,
    {
        let d: u64 = digits[count - 1 - j];
        s.append(digit_str(d));
        proof {
            assert(rev_digit_chars(digits@).take(j + 1) =~= rev_digit_chars(digits@).take(j as int)
                + seq![digit_char(d as int)]);
        }
        j = j + 1;
    }
    proof {
        assert(rev_digit_chars(digits@).take(count as int) =~= rev_digit_chars(digits@));
    }
    s
}

/// The line for one number of the sequence.
fn line_for(i: u64) -> (r: String)
    ensures
        r@ == fizz_buzz_line(i as nat),
{
    if i % 3 == 0 && i % 5 == 0 {
        "FizzBuzz".to_owned()
    } else if i % 3 == 0 {
        "Fizz".to_owned()
    } else if i % 5 == 0 {
        "Buzz".to_owned()
    } else {
        u64_to_string(i)
    }
}

/// The FizzBuzz lines for 1 up to `n`, in order; empty when `n` is 0.
pub fn fizz_buzz(n: u64) -> (r: Vec<String>)
    ensures
        r@.len() == n,
        forall|i: int| 0 <= i < n ==> r@[i]@ == fizz_buzz_line((i + 1) as nat),
{
    let mut lines: Vec<String> = Vec::new();
    let mut i: u64 = 0;
    while i < n
        invariant
            i <= n,
            lines@.len() == i,
            forall|t: int| 0 <= t < i ==> lines@[t]@ == fizz_buzz_line((t + 1) as nat),
        decreases n - i,
    {
        i = i + 1;
        let line = line_for(i);
        lines.push(line);
    }
    lines
}

} // verus!
