//! Decimal rendering of integers, with the zero-padded forms used when a
//! stale local file is renamed out of the way, and proofs that distinct
//! numbers render to distinct strings.

use crate::strutil::push_char;
use vstd::prelude::*;
use vstd::string::StrSliceExecFns;
use vstd::string::StringExecFns;

verus! {

/// The character for one decimal digit.
pub open spec fn dec_digit(d: nat) -> char {
    if d == 0 {
        '0'
    } else if d == 1 {
        '1'
    } else if d == 2 {
        '2'
    } else if d == 3 {
        '3'
    } else if d == 4 {
        '4'
    } else if d == 5 {
        '5'
    } else if d == 6 {
        '6'
    } else if d == 7 {
        '7'
    } else if d == 8 {
        '8'
    } else {
        '9'
    }
}

/// The usual decimal rendering of a natural number, most significant digit
/// first and without leading zeros (except for the number zero itself).
pub open spec fn dec_str(n: nat) -> Seq<char>
    decreases n,
{
    if n < 10 {
        seq![dec_digit(n)]
    } else {
        dec_str(n / 10).push(dec_digit(n % 10))
    }
}

/// A run of `k` zero characters.
pub open spec fn zeros(k: nat) -> Seq<char> {
    Seq::new(k, |i: int| '0')
}

/// The decimal rendering of `n`, left-padded with zeros to at least `w`
/// characters.
pub open spec fn padded_dec(n: nat, w: nat) -> Seq<char> {
    if dec_str(n).len() >= w {
        dec_str(n)
    } else {
        zeros((w - dec_str(n).len()) as nat) + dec_str(n)
    }
}

/// The rendering of a (possibly negative) year to at least four characters,
/// the sign counting towards the width.
pub open spec fn year_str(y: int) -> Seq<char> {
    if y >= 0 {
        padded_dec(y as nat, 4)
    } else {
        seq!['-'] + padded_dec((-y) as nat, 3)
    }
}

/// A calendar date rendered as `YYYY-MM-DD`.
pub open spec fn date_str(y: int, m: nat, d: nat) -> Seq<char> {
    year_str(y) + seq!['-'] + padded_dec(m, 2) + seq!['-'] + padded_dec(d, 2)
}

fn digit_char(d: u64) -> (c: char)
    requires
        d < 10,
    ensures
        c == dec_digit(d as nat),
{
    match d {
        0 => '0',
        1 => '1',
        2 => '2',
        3 => '3',
        4 => '4',
        5 => '5',
        6 => '6',
        7 => '7',
        8 => '8',
        _ => '9',
    }
}

/// Render a number in decimal.
pub fn u64_to_dec(n: u64) -> (r: String)
    ensures
        r@ == dec_str(n as nat),
    decreases n,
{
    if n < 10 {
        let mut s = String::new();
        push_char(&mut s, digit_char(n));
        s
    } else {
        proof {
            assert(n as nat / 10 < n as nat) by (nonlinear_arith)
                requires
                    n >= 10,
            ;
        }
        let mut s = u64_to_dec(n / 10);
        push_char(&mut s, digit_char(n % 10));
        s
    }
}

/// Render a number in decimal, left-padded with zeros to at least `w`
/// characters.
pub fn u64_to_padded_dec(n: u64, w: usize) -> (r: String)
    ensures
        r@ == padded_dec(n as nat, w as nat),
{
    let digits = u64_to_dec(n);
    let len = digits.as_str().unicode_len();
    let mut s = String::new();
    if len < w {
        let pad = w - len;
        let mut k: usize = 0;
        while k < pad
            invariant
                k <= pad,
                s@ == zeros(k as nat),
            decreases pad - k,
        {
            push_char(&mut s, '0');
            k = k + 1;
            proof {
                assert(zeros((k - 1) as nat).push('0') =~= zeros(k as nat));
            }
        }
    }
    s.append(digits.as_str());
    proof {
        if len >= w {
            assert(Seq::<char>::empty() + digits@ =~= digits@);
        }
    }
    s
}

/// Render a year as `format!("{:04}")` does: at least four characters, a
/// leading minus sign for negative years counting towards the width.
pub fn year_to_dec(y: i64) -> (r: String)
    requires
        -0x8000_0000 <= y <= 0x7fff_ffff,
    ensures
        r@ == year_str(y as int),
{
    if y >= 0 {
        u64_to_padded_dec(y as u64, 4)
    } else {
        let mut s = String::new();
        push_char(&mut s, '-');
        let rest = u64_to_padded_dec((-y) as u64, 3);
        s.append(rest.as_str());
        proof {
            assert(Seq::<char>::empty().push('-') =~= seq!['-']);
        }
        s
    }
}

/// Render a calendar date as `YYYY-MM-DD`.
pub fn date_to_dec(y: i64, m: u8, d: u8) -> (r: String)
    requires
        -0x8000_0000 <= y <= 0x7fff_ffff,
    ensures
        r@ == date_str(y as int, m as nat, d as nat),
{
    let mut s = year_to_dec(y);
    push_char(&mut s, '-');
    let ms = u64_to_padded_dec(m as u64, 2);
    s.append(ms.as_str());
    push_char(&mut s, '-');
    let ds = u64_to_padded_dec(d as u64, 2);
    s.append(ds.as_str());
    proof {
        assert(year_str(y as int).push('-') =~= year_str(y as int) + seq!['-']);
        assert((year_str(y as int) + seq!['-'] + padded_dec(m as nat, 2)).push('-')
            =~= year_str(y as int) + seq!['-'] + padded_dec(m as nat, 2) + seq!['-']);
    }
    s
}

/// Every decimal rendering has at least one character.
pub proof fn lemma_dec_str_len(n: nat)
    ensures
        dec_str(n).len() >= 1,
    decreases n,
{
    if n >= 10 {
        lemma_dec_str_len(n / 10);
    }
}

/// Distinct numbers render to distinct decimal strings.
pub proof fn lemma_dec_str_injective(a: nat, b: nat)
    requires
        dec_str(a) == dec_str(b),
    ensures
        a == b,
    decreases a,
{
    if a < 10 && b < 10 {
        assert(dec_str(a)[0] == dec_digit(a));
        assert(dec_str(b)[0] == dec_digit(b));
    } else if a < 10 && b >= 10 {
        lemma_dec_str_len(b / 10);
        assert(dec_str(b).len() >= 2);
    } else if a >= 10 && b < 10 {
        lemma_dec_str_len(a / 10);
        assert(dec_str(a).len() >= 2);
    } else {
        assert(dec_str(a).last() == dec_digit(a % 10));
        assert(dec_str(b).last() == dec_digit(b % 10));
        assert(a % 10 == b % 10);
        assert(dec_str(a / 10) =~= dec_str(a).drop_last());
        assert(dec_str(b / 10) =~= dec_str(b).drop_last());
        lemma_dec_str_injective(a / 10, b / 10);
        assert(a == 10 * (a / 10) + a % 10) by (nonlinear_arith);
        assert(b == 10 * (b / 10) + b % 10) by (nonlinear_arith);
    }
}

} // verus!
