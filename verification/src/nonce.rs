//! Correlation tokens for acquire calls.
//!
//! Each acquire call tags its request with a token made of two independent
//! high-entropy draws, rendered in decimal and concatenated. The draws come
//! from the runtime; rendering and concatenation are verified here.

use vstd::prelude::*;
use vstd::string::StringExecFns;

verus! {

/// The decimal digit character for a value below ten.
pub open spec fn digit_char(d: nat) -> char {
    if d == 0 {
        '0'
    } else if d == 1 {
        '1'
    } else if d == 2 {
        '2'
    } else if d == 3 {
        '3'
    } else if d == 4 {
        '4'
    } else if d == 5 {
        '5'
    } else if d == 6 {
        '6'
    } else if d == 7 {
        '7'
    } else if d == 8 {
        '8'
    } else {
        '9'
    }
}

/// The decimal rendering of a natural number, most significant digit first,
/// with no leading zeros (and `0` itself rendered as "0").
pub open spec fn decimal_of(n: nat) -> Seq<char>
    decreases n,
{
    if n < 10 {
        seq![digit_char(n)]
    } else {
        decimal_of(n / 10) + seq![digit_char(n % 10)]
    }
}

/// The digit characters of `ds`, read back to front.
pub open spec fn rev_digit_chars(ds: Seq<u8>) -> Seq<char> {
    Seq::new(ds.len(), |i: int| digit_char(ds[ds.len() - 1 - i] as nat))
}

fn digit_str(d: u64) -> (r: &'static str)
    requires
        d < 10,
    ensures
        r@ == seq![digit_char(d as nat)],
{
    let r: &'static str = if d == 0 {
        "0"
    } else if d == 1 {
        "1"
    } else if d == 2 {
        "2"
    } else if d == 3 {
        "3"
    } else if d == 4 {
        "4"
    } else if d == 5 {
        "5"
    } else if d == 6 {
        "6"
    } else if d == 7 {
        "7"
    } else if d == 8 {
        "8"
    } else {
        "9"
    };
    proof {
        reveal_strlit("0");
        reveal_strlit("1");
        reveal_strlit("2");
        reveal_strlit("3");
        reveal_strlit("4");
        reveal_strlit("5");
        reveal_strlit("6");
        reveal_strlit("7");
        reveal_strlit("8");
        reveal_strlit("9");
        assert(r@ =~= seq![digit_char(d as nat)]);
    }
    r
}

/// Render a value in decimal.
pub fn u64_to_decimal(n: u64) -> (r: String)
    ensures
        r@ == decimal_of(n as nat),
{
    let ghost total = decimal_of(n as nat);
    let mut digits: Vec<u8> = Vec::new();
    let mut m: u64 = n;
    proof {
        assert(decimal_of(n as nat) =~= decimal_of(m as nat) + rev_digit_chars(digits@));
    }
    while m >= 10
        invariant
            decimal_of(n as nat) == decimal_of(m as nat) + rev_digit_chars(digits@),
            forall|i: int| 0 <= i < digits@.len() ==> digits@[i] < 10,
        decreases m,
    {
        let ghost digits0 = digits@;
        let ghost m0 = m as nat;
        let d = m % 10;
        digits.push(d as u8);
        m = m / 10;
        proof {
            assert(rev_digit_chars(digits@) =~= seq![digit_char(m0 % 10)] + rev_digit_chars(
                digits0,
            ));
            assert(decimal_of(m0) == decimal_of(m0 / 10) + seq![digit_char(m0 % 10)]);
            assert(decimal_of(m as nat) + rev_digit_chars(digits@) =~= (decimal_of(m0 / 10) + seq![
                digit_char(m0 % 10),
            ]) + rev_digit_chars(digits0));
        }
    }
    proof {
        assert(decimal_of(m as nat) == seq![digit_char(m as nat)]);
        assert(total.len() == 1 + digits@.len());
        assert(total[0] == digit_char(m as nat));
    }
    let mut s = String::from_str(digit_str(m));
    let mut j: usize = digits.len();
    proof {
        assert(s@ =~= total.take(total.len() - j));
    }
    while j > 0
        invariant
            j <= digits@.len(),
            total == decimal_of(n as nat),
            total.len() == 1 + digits@.len(),
            total == decimal_of(m as nat) + rev_digit_chars(digits@),
            m < 10,
            forall|i: int| 0 <= i < digits@.len() ==> digits@[i] < 10,
            s@ == total.take(total.len() - j),
        decreases j,
    {
        let ghost s0 = s@;
        let d = digits[j - 1];
        s.append(digit_str(d as u64));
        j = j - 1;
        proof {
            let pos = total.len() - j - 1;
            assert(total[pos as int] == rev_digit_chars(digits@)[pos - 1]);
            assert(rev_digit_chars(digits@)[pos - 1] == digit_char(
                digits@[digits@.len() - 1 - (pos - 1)] as nat,
            ));
            assert(digits@.len() - 1 - (pos - 1) == j);
            assert(s@ =~= total.take(total.len() - j));
        }
    }
    proof {
        assert(s@ =~= total);
    }
    s
}

/// Assemble the correlation token for one acquire call from two independent
/// high-entropy draws: the decimal rendering of the first, then of the
/// second. A collision would be a correctness bug, not a security concern.
pub fn make_nonce(first: u64, second: u64) -> (r: String)
    ensures
        r@ == decimal_of(first as nat) + decimal_of(second as nat),
{
    let mut s = u64_to_decimal(first);
    let t = u64_to_decimal(second);
    s.append(t.as_str());
    s
}

} // verus!
