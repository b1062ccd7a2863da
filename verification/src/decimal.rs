use vstd::prelude::*;

verus! {

/// The character for a single decimal digit.
pub open spec fn digit_char(d: nat) -> char {
    if d == 0 {
        '0'
    } else if d == 1 {
        '1'
    } else if d == 2 {
        '2'
    } else if d == 3 {
        '3'
    } else if d == 4 {
        '4'
    } else if d == 5 {
        '5'
    } else if d == 6 {
        '6'
    } else if d == 7 {
        '7'
    } else if d == 8 {
        '8'
    } else {
        '9'
    }
}

/// The decimal digits of `n`, most significant first; empty for zero.
pub open spec fn dec_core(n: nat) -> Seq<char>
    decreases n,
{
    if n == 0 {
        Seq::empty()
    } else {
        dec_core(n / 10).push(digit_char(n % 10))
    }
}

/// The decimal representation of a natural number, `"0"` included.
pub open spec fn dec_rep(n: nat) -> Seq<char> {
    if n == 0 {
        seq!['0']
    } else {
        dec_core(n)
    }
}

/// The decimal representation of an integer, with a leading minus sign for
/// negative values.
pub open spec fn int_dec(i: int) -> Seq<char> {
    if i < 0 {
        seq!['-'] + dec_rep((-i) as nat)
    } else {
        dec_rep(i as nat)
    }
}

/// The digit characters of `ds` read back to front.
spec fn rev_digit_chars(ds: Seq<u64>) -> Seq<char> {
    Seq::new(ds.len(), |i: int| digit_char(ds[ds.len() - 1 - i] as nat))
}

fn digit_str(d: u64) -> (r: &'static str)
    requires
        d < 10,
    ensures
        r@ == seq![digit_char(d as nat)],
{
    if d == 0 {
        proof {
            reveal_strlit("0");
            assert("0"@ =~= seq![digit_char(0)]);
        }
        "0"
    } else if d == 1 {
        proof {
            reveal_strlit("1");
            assert("1"@ =~= seq![digit_char(1)]);
        }
        "1"
    } else if d == 2 {
        proof {
            reveal_strlit("2");
            assert("2"@ =~= seq![digit_char(2)]);
        }
        "2"
    } else if d == 3 {
        proof {
            reveal_strlit("3");
            assert("3"@ =~= seq![digit_char(3)]);
        }
        "3"
    } else if d == 4 {
        proof {
            reveal_strlit("4");
            assert("4"@ =~= seq![digit_char(4)]);
        }
        "4"
    } else if d == 5 {
        proof {
            reveal_strlit("5");
            assert("5"@ =~= seq![digit_char(5)]);
        }
        "5"
    } else if d == 6 {
        proof {
            reveal_strlit("6");
            assert("6"@ =~= seq![digit_char(6)]);
        }
        "6"
    } else if d == 7 {
        proof {
            reveal_strlit("7");
            assert("7"@ =~= seq![digit_char(7)]);
        }
        "7"
    } else if d == 8 {
        proof {
            reveal_strlit("8");
            assert("8"@ =~= seq![digit_char(8)]);
        }
        "8"
    } else {
        proof {
            reveal_strlit("9");
            assert("9"@ =~= seq![digit_char(9)]);
        }
        "9"
    }
}

/// Appends the decimal digits of `m` to `s`.
fn append_decimal_u64(s: &mut String, m: u64)
    ensures
        final(s)@ == old(s)@ + dec_rep(m as nat),
{
    if m == 0 {
        proof {
            reveal_strlit("0");
            assert("0"@ =~= seq!['0']);
        }
        s.append("0");
        return ;
    }
    let mut digits: Vec<u64> = Vec::new();
    let mut rest: u64 = m;
    while rest > 0
        invariant
            dec_core(m as nat) =~= dec_core(rest as nat) + rev_digit_chars(digits@),
            forall|j: int| 0 <= j < digits@.len() ==> digits@[j] < 10,
        decreases rest,
    {
        let d = rest % 10;
        digits.push(d);
        proof {
            let prev = digits@.drop_last();
            assert(rev_digit_chars(digits@) =~= seq![digit_char(d as nat)] + rev_digit_chars(
                prev,
            ));
            assert(dec_core(rest as nat) == dec_core((rest / 10) as nat).push(
                digit_char((rest % 10) as nat),
            ));
            assert(dec_core(m as nat) =~= dec_core((rest / 10) as nat) + rev_digit_chars(digits@));
        }
        rest = rest / 10;
    }
    assert(dec_core(m as nat) =~= rev_digit_chars(digits@));
    let ghost base = s@;
    let mut i: usize = digits.len();
    while i > 0
        invariant
            i <= digits@.len(),
            forall|j: int| 0 <= j < digits@.len() ==> digits@[j] < 10,
            s@ =~= base + rev_digit_chars(digits@).take(digits@.len() - i),
        decreases i,
    {
        i = i - 1;
        let piece = digit_str(digits[i]);
        s.append(piece);
        proof {
            let full = rev_digit_chars(digits@);
            assert(full[digits@.len() - 1 - i] == digit_char(digits@[i as int] as nat));
            assert(full.take(digits@.len() - i) =~= full.take(digits@.len() - (i + 1)).push(
                full[digits@.len() - 1 - i],
            ));
            assert(s@ =~= base + full.take(digits@.len() - i));
        }
    }
    assert(rev_digit_chars(digits@).take(digits@.len() as int) =~= rev_digit_chars(digits@));
    assert(s@ =~= old(s)@ + dec_rep(m as nat));
}

/// The decimal rendering of a signed 32-bit integer, as `{}` formatting
/// would print it.
pub fn i32_decimal(v: i32) -> (s: String)
    ensures
        s@ == int_dec(v as int),
{
    let mut s = String::new();
    if v < 0 {
        proof {
            reveal_strlit("-");
            assert("-"@ =~= seq!['-']);
        }
        s.append("-");
        let wide: i64 = v as i64;
        let mag: u64 = (-wide) as u64;
        assert(mag as int == -(v as int));
        append_decimal_u64(&mut s, mag);
        assert(s@ =~= seq!['-'] + dec_rep(mag as nat));
    } else {
        let mag: u64 = v as u64;
        assert(mag as int == v as int);
        append_decimal_u64(&mut s, mag);
    }
    s
}

} // verus!
