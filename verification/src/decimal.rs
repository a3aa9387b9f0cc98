use vstd::prelude::*;

verus! {

/// The character of a decimal digit `d` (`0 <= d < 10`).
pub open spec fn digit_char(d: int) -> char {
    (d + 48) as char
}

/// The decimal digits of `n`, most significant first, with no leading zero
/// (zero itself is the single digit `0`).
pub open spec fn nat_digits(n: nat) -> Seq<char>
    decreases n,
{
    if n < 10 {
        seq![digit_char(n as int)]
    } else {
        nat_digits(n / 10).push(digit_char((n % 10) as int))
    }
}

/// The decimal writing of an integer, as Rust's `Display` gives it: a minus
/// sign before the digits of a negative number, and no sign otherwise.
pub open spec fn int_decimal(n: int) -> Seq<char> {
    if n < 0 {
        seq!['-'] + nat_digits((-n) as nat)
    } else {
        nat_digits(n as nat)
    }
}

/// The digits of a number are never empty, and each of them is one of `0` to
/// `9`.
pub proof fn lemma_nat_digits_are_digits(n: nat)
    ensures
        nat_digits(n).len() >= 1,
        n >= 10 ==> nat_digits(n).len() >= 2,
        forall|i: int|
            0 <= i < nat_digits(n).len() ==> '0' <= #[trigger] nat_digits(n)[i] <= '9',
    decreases n,
{
    if n >= 10 {
        lemma_nat_digits_are_digits(n / 10);
    }
}

/// Two numbers with the same digits are the same number.
pub proof fn lemma_nat_digits_injective(a: nat, b: nat)
    requires
        nat_digits(a) == nat_digits(b),
    ensures
        a == b,
    decreases a,
{
    lemma_nat_digits_are_digits(a);
    lemma_nat_digits_are_digits(b);
    if a < 10 {
        assert(nat_digits(a).len() == 1);
        assert(b < 10);
        assert(nat_digits(a)[0] == nat_digits(b)[0]);
    } else {
        assert(b >= 10);
        let da = nat_digits(a);
        let db = nat_digits(b);
        assert(da.drop_last() =~= nat_digits(a / 10));
        assert(db.drop_last() =~= nat_digits(b / 10));
        lemma_nat_digits_injective(a / 10, b / 10);
        assert(da.last() == db.last());
        assert(digit_char((a % 10) as int) == digit_char((b % 10) as int));
    }
}

/// Two integers written the same way in decimal are the same integer.
pub proof fn lemma_int_decimal_injective(a: int, b: int)
    requires
        int_decimal(a) == int_decimal(b),
    ensures
        a == b,
{
    let da = int_decimal(a);
    let db = int_decimal(b);
    if a < 0 {
        lemma_nat_digits_are_digits((-a) as nat);
    }
    if b < 0 {
        lemma_nat_digits_are_digits((-b) as nat);
    }
    if a >= 0 {
        lemma_nat_digits_are_digits(a as nat);
    }
    if b >= 0 {
        lemma_nat_digits_are_digits(b as nat);
    }
    if a < 0 && b < 0 {
        assert(da.subrange(1, da.len() as int) =~= nat_digits((-a) as nat));
        assert(db.subrange(1, db.len() as int) =~= nat_digits((-b) as nat));
        lemma_nat_digits_injective((-a) as nat, (-b) as nat);
    } else if a >= 0 && b >= 0 {
        lemma_nat_digits_injective(a as nat, b as nat);
    } else if a < 0 {
        assert(da[0] == '-');
        assert('0' <= db[0] <= '9');
    } else {
        assert(db[0] == '-');
        assert('0' <= da[0] <= '9');
    }
}

/// The one-character text of the decimal digit `d`.
fn digit(d: u64) -> (c: &'static str)
    requires
        d < 10,
    ensures
        c@ == seq![digit_char(d as int)],
{
    match d {
        0 => {
            proof {
                reveal_strlit("0");
            }
            "0"
        },
        1 => {
            proof {
                reveal_strlit("1");
            }
            "1"
        },
        2 => {
            proof {
                reveal_strlit("2");
            }
            "2"
        },
        3 => {
            proof {
                reveal_strlit("3");
            }
            "3"
        },
        4 => {
            proof {
                reveal_strlit("4");
            }
            "4"
        },
        5 => {
            proof {
                reveal_strlit("5");
            }
            "5"
        },
        6 => {
            proof {
                reveal_strlit("6");
            }
            "6"
        },
        7 => {
            proof {
                reveal_strlit("7");
            }
            "7"
        },
        8 => {
            proof {
                reveal_strlit("8");
            }
            "8"
        },
        _ => {
            proof {
                reveal_strlit("9");
            }
            "9"
        },
    }
}

/// Appends the decimal digits of `n` to `s`.
pub fn push_digits(s: &mut String, n: u64)
    ensures
        final(s)@ == old(s)@ + nat_digits(n as nat),
    decreases n,
{
    if n >= 10 {
        push_digits(s, n / 10);
    }
    s.append(digit(n % 10));
    assert(nat_digits(n as nat) == if n < 10 {
        seq![digit_char(n as int)]
    } else {
        nat_digits((n / 10) as nat).push(digit_char((n % 10) as int))
    });
}

/// Appends the decimal writing of `n` to `s`, sign included.
pub fn push_i64(s: &mut String, n: i64)
    ensures
        final(s)@ == old(s)@ + int_decimal(n as int),
{
    if n < 0 {
        s.append("-");
        proof {
            reveal_strlit("-");
        }
        let magnitude: u64 = (0i128 - n as i128) as u64;
        push_digits(s, magnitude);
    } else {
        push_digits(s, n as u64);
    }
}

} // verus!
