//! Small verified text helpers shared by the facade: character-wise string
//! comparison and decimal rendering of process identifiers.

use vstd::prelude::*;

verus! {

/// Character-wise equality of two string slices.
pub fn str_eq(a: &str, b: &str) -> (r: bool)
    ensures
        r == (a@ == b@),
{
    let na = a.unicode_len();
    let nb = b.unicode_len();
    if na != nb {
        return false;
    }
    let mut i: usize = 0;
    while i < na
        invariant
            na == a@.len(),
            na == b@.len(),
            0 <= i <= na,
            forall|k: int| 0 <= k < i ==> a@[k] == b@[k],
        decreases na - i,
    {
        if a.get_char(i) != b.get_char(i) {
            return false;
        }
        i = i + 1;
    }
    proof {
        assert(a@ =~= b@);
    }
    true
}

/// The character for a single decimal digit.
pub open spec fn digit_char(d: int) -> char {
    if d == 0 {
        '0'
    } else if d == 1 {
        '1'
    } else if d == 2 {
        '2'
    } else if d == 3 {
        '3'
    } else if d == 4 {
        '4'
    } else if d == 5 {
        '5'
    } else if d == 6 {
        '6'
    } else if d == 7 {
        '7'
    } else if d == 8 {
        '8'
    } else {
        '9'
    }
}

/// The decimal rendering of a non-negative integer, most significant digit
/// first, with no leading zeros (a single `'0'` for zero).
pub open spec fn decimal_chars(n: int) -> Seq<char>
    recommends
        n >= 0,
    decreases n,
{
    if n < 10 {
        seq![digit_char(n)]
    } else {
        decimal_chars(n / 10).push(digit_char(n % 10))
    }
}

/// The digits collected least-significant first, read back as characters.
pub open spec fn rev_digit_chars(ds: Seq<u8>) -> Seq<char> {
    Seq::new(ds.len(), |i: int| digit_char(ds[ds.len() - 1 - i] as int))
}

proof fn lemma_rev_digit_chars_push(ds: Seq<u8>, d: u8)
    ensures
        rev_digit_chars(ds.push(d)) =~= seq![digit_char(d as int)] + rev_digit_chars(ds),
{
    let l = ds.len() as int;
    let lhs = rev_digit_chars(ds.push(d));
    let rhs = seq![digit_char(d as int)] + rev_digit_chars(ds);
    assert(lhs.len() == rhs.len());
    assert forall|i: int| 0 <= i < lhs.len() implies lhs[i] == rhs[i] by {
        if i == 0 {
            assert(ds.push(d)[l] == d);
        } else {
            assert(ds.push(d)[l - i] == ds[l - i]);
        }
    }
}

fn digit_str(d: u8) -> (r: &'static str)
    requires
        d < 10,
    ensures
        r@ == seq![digit_char(d as int)],
{
    let r: &'static str = if d == 0 {
        "0"
    } else if d == 1 {
        "1"
    } else if d == 2 {
        "2"
    } else if d == 3 {
        "3"
    } else if d == 4 {
        "4"
    } else if d == 5 {
        "5"
    } else if d == 6 {
        "6"
    } else if d == 7 {
        "7"
    } else if d == 8 {
        "8"
    } else {
        "9"
    };
    proof {
        reveal_strlit("0");
        reveal_strlit("1");
        reveal_strlit("2");
        reveal_strlit("3");
        reveal_strlit("4");
        reveal_strlit("5");
        reveal_strlit("6");
        reveal_strlit("7");
        reveal_strlit("8");
        reveal_strlit("9");
        assert(r@ =~= seq![digit_char(d as int)]);
    }
    r
}

/// Render `n` in decimal, as the platform's termination utility expects a
/// process identifier on its command line.
pub fn u32_to_decimal(n: u32) -> (s: String)
    ensures
        s@ == decimal_chars(n as int),
{
    if n == 0 {
        let s = String::from_str("0");
        proof {
            reveal_strlit("0");
            assert(s@ =~= seq![digit_char(0)]);
        }
        return s;
    }
    let mut m: u32 = n;
    let mut digits: Vec<u8> = Vec::new();
    while m > 0
        invariant
            forall|k: int| 0 <= k < digits@.len() ==> digits@[k] < 10,
            m > 0 ==> decimal_chars(n as int) == decimal_chars(m as int) + rev_digit_chars(
                digits@,
            ),
            m == 0 ==> decimal_chars(n as int) == rev_digit_chars(digits@),
        decreases m,
    {
        let d: u8 = (m % 10) as u8;
        let ghost ds0 = digits@;
        let ghost m0 = m as int;
        digits.push(d);
        m = m / 10;
        proof {
            lemma_rev_digit_chars_push(ds0, d);
            if m0 < 10 {
                assert(decimal_chars(m0) =~= seq![digit_char(d as int)]);
                assert(decimal_chars(m0) + rev_digit_chars(ds0) =~= rev_digit_chars(
                    ds0.push(d),
                ));
            } else {
                assert(decimal_chars(m0) =~= decimal_chars(m0 / 10).push(
                    digit_char(m0 % 10),
                ));
                assert(decimal_chars(m0 / 10).push(digit_char(d as int)) =~= decimal_chars(
                    m0 / 10,
                ) + seq![digit_char(d as int)]);
                assert(decimal_chars(m0) + rev_digit_chars(ds0) =~= decimal_chars(m0 / 10)
                    + rev_digit_chars(ds0.push(d)));
            }
        }
    }
    let ghost total = digits@.len() as int;
    let mut s = String::new();
    let mut j: usize = digits.len();
    while j > 0
        invariant
            j <= digits@.len(),
            digits@.len() == total,
            forall|k: int| 0 <= k < digits@.len() ==> digits@[k] < 10,
            decimal_chars(n as int) == rev_digit_chars(digits@),
            s@ == rev_digit_chars(digits@).take(total - j),
        decreases j,
    {
        j = j - 1;
        let piece = digit_str(digits[j]);
        s.append(piece);
        proof {
            let r = rev_digit_chars(digits@);
            assert(r[total - j - 1] == digit_char(digits@[j as int] as int));
            assert(r.take(total - j) =~= r.take(total - j - 1) + seq![r[total - j - 1]]);
        }
    }
    proof {
        assert(rev_digit_chars(digits@).take(total) =~= rev_digit_chars(digits@));
    }
    s
}

} // verus!
