//! Plain text building blocks: decimal numerals and left-justified padding.

use vstd::prelude::*;
use vstd::string::*;

verus! {

/// Width to which task text is padded when rendered.
pub const PAD_WIDTH: usize = 50;

/// The character of a decimal digit.
pub open spec fn digit_char(d: nat) -> char {
    if d == 0 {
        '0'
    } else if d == 1 {
        '1'
    } else if d == 2 {
        '2'
    } else if d == 3 {
        '3'
    } else if d == 4 {
        '4'
    } else if d == 5 {
        '5'
    } else if d == 6 {
        '6'
    } else if d == 7 {
        '7'
    } else if d == 8 {
        '8'
    } else {
        '9'
    }
}

/// The decimal numeral of a natural number, without leading zeros.
pub open spec fn decimal(n: nat) -> Seq<char>
    decreases n,
{
    if n < 10 {
        seq![digit_char(n)]
    } else {
        decimal(n / 10).push(digit_char(n % 10))
    }
}

/// The decimal numeral of an integer, with a leading '-' when negative.
pub open spec fn signed_decimal(n: int) -> Seq<char> {
    if n < 0 {
        seq!['-'] + decimal((-n) as nat)
    } else {
        decimal(n as nat)
    }
}

/// `n` spaces.
pub open spec fn spaces(n: nat) -> Seq<char>
    decreases n,
{
    if n == 0 {
        Seq::empty()
    } else {
        spaces((n - 1) as nat).push(' ')
    }
}

/// `s` left-justified in a field of `PAD_WIDTH` characters; longer text is kept whole.
pub open spec fn padded(s: Seq<char>) -> Seq<char> {
    if s.len() < PAD_WIDTH {
        s + spaces((PAD_WIDTH - s.len()) as nat)
    } else {
        s
    }
}

fn digit_str(d: u64) -> (r: &'static str)
    requires
        d < 10,
    ensures
        r@ == seq![digit_char(d as nat)],
{
    proof {
        reveal_strlit("0");
        reveal_strlit("1");
        reveal_strlit("2");
        reveal_strlit("3");
        reveal_strlit("4");
        reveal_strlit("5");
        reveal_strlit("6");
        reveal_strlit("7");
        reveal_strlit("8");
        reveal_strlit("9");
    }
    let r = if d == 0 {
        "0"
    } else if d == 1 {
        "1"
    } else if d == 2 {
        "2"
    } else if d == 3 {
        "3"
    } else if d == 4 {
        "4"
    } else if d == 5 {
        "5"
    } else if d == 6 {
        "6"
    } else if d == 7 {
        "7"
    } else if d == 8 {
        "8"
    } else {
        "9"
    };
    assert(r@ =~= seq![digit_char(d as nat)]);
    r
}

/// The decimal numeral of `n`.
pub fn decimal_string(n: u64) -> (r: String)
    ensures
        r@ == decimal(n as nat),
    decreases n,
{
    if n < 10 {
        String::from_str(digit_str(n))
    } else {
        let mut s = decimal_string(n / 10);
        s.append(digit_str(n % 10));
        s
    }
}

/// The decimal numeral of `n`, signed.
pub fn signed_decimal_string(n: i64) -> (r: String)
    ensures
        r@ == signed_decimal(n as int),
{
    if n < 0 {
        let m: u64 = (0i128 - n as i128) as u64;
        let digits = decimal_string(m);
        proof {
            reveal_strlit("-");
        }
        let s = String::from_str("-");
        let r = s.concat(digits.as_str());
        assert(r@ =~= signed_decimal(n as int));
        r
    } else {
        decimal_string(n as u64)
    }
}

/// `s` left-justified in a field of `PAD_WIDTH` characters.
pub fn pad_text(s: &str) -> (r: String)
    ensures
        r@ == padded(s@),
{
    let len = s.unicode_len();
    let mut r = String::from_str(s);
    let mut n: usize = len;
    assert(r@ =~= s@ + spaces(0));
    while n < PAD_WIDTH
        invariant
            len == s@.len(),
            len <= n,
            len < PAD_WIDTH ==> n <= PAD_WIDTH,
            len >= PAD_WIDTH ==> n == len,
            r@ == s@ + spaces((n - len) as nat),
        decreases PAD_WIDTH - n,
    {
        proof {
            reveal_strlit(" ");
        }
        r.append(" ");
        assert(spaces((n + 1 - len) as nat) == spaces((n - len) as nat).push(' '));
        assert(r@ =~= s@ + spaces((n + 1 - len) as nat));
        n = n + 1;
    }
    if len >= PAD_WIDTH {
        assert(spaces(0) =~= Seq::<char>::empty());
        assert(r@ =~= s@ + Seq::<char>::empty());
    }
    assert(r@ =~= padded(s@));
    r
}

} // verus!
