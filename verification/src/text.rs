//! Text building blocks: bridging between `String` and `Vec<char>`, and
//! verified decimal formatting of integers and fixed-point scalars.

use vstd::prelude::*;
use crate::num::{Scalar, SCALE, abs_int};

verus! {

/// Relies on `str::chars` (collected in order): the characters of `s`.
#[verifier::external_body]
pub(crate) fn str_to_chars(s: &str) -> (r: Vec<char>)
    ensures
        r@ == s@,
{
    s.chars().collect()
}

/// Relies on `String::from_iter` over `char`: builds the string of exactly
/// the given characters, in order.
#[verifier::external_body]
pub(crate) fn string_from_chars(v: Vec<char>) -> (r: String)
    ensures
        r@ == v@,
{
    v.into_iter().collect()
}

/// Relies on `String::push_str`: appends the given slice to the string.
#[verifier::external_body]
pub(crate) fn append_str(s: &mut String, t: &str)
    ensures
        final(s)@ == old(s)@ + t@,
{
    s.push_str(t)
}

/// The character for one decimal digit.
pub open spec fn dec_digit_char(d: int) -> char {
    if d == 0 {
        '0'
    } else if d == 1 {
        '1'
    } else if d == 2 {
        '2'
    } else if d == 3 {
        '3'
    } else if d == 4 {
        '4'
    } else if d == 5 {
        '5'
    } else if d == 6 {
        '6'
    } else if d == 7 {
        '7'
    } else if d == 8 {
        '8'
    } else {
        '9'
    }
}

/// Decimal numeral of a nonnegative integer, no leading zeros.
pub open spec fn dec_nat(n: nat) -> Seq<char>
    decreases n,
{
    if n < 10 {
        seq![dec_digit_char(n as int)]
    } else {
        dec_nat(n / 10) + seq![dec_digit_char((n % 10) as int)]
    }
}

pub(crate) fn dec_digit(d: u64) -> (c: char)
    requires
        d < 10,
    ensures
        c == dec_digit_char(d as int),
{
    if d == 0 {
        '0'
    } else if d == 1 {
        '1'
    } else if d == 2 {
        '2'
    } else if d == 3 {
        '3'
    } else if d == 4 {
        '4'
    } else if d == 5 {
        '5'
    } else if d == 6 {
        '6'
    } else if d == 7 {
        '7'
    } else if d == 8 {
        '8'
    } else {
        '9'
    }
}

/// Format a `u64` in decimal.
pub(crate) fn fmt_u64(n: u64) -> (v: Vec<char>)
    ensures
        v@ == dec_nat(n as nat),
    decreases n,
{
    if n < 10 {
        let mut v: Vec<char> = Vec::new();
        v.push(dec_digit(n));
        v
    } else {
        let mut v = fmt_u64(n / 10);
        v.push(dec_digit(n % 10));
        v
    }
}

/// Six decimal digits of `f`, zero-padded (`f` is a scalar's fractional part).
pub open spec fn frac6(f: int) -> Seq<char> {
    seq![
        dec_digit_char(f / 100000 % 10),
        dec_digit_char(f / 10000 % 10),
        dec_digit_char(f / 1000 % 10),
        dec_digit_char(f / 100 % 10),
        dec_digit_char(f / 10 % 10),
        dec_digit_char(f % 10),
    ]
}

/// Drop trailing `'0'` characters.
pub open spec fn trim_zeros(s: Seq<char>) -> Seq<char>
    decreases s.len(),
{
    if s.len() > 0 && s.last() == '0' {
        trim_zeros(s.drop_last())
    } else {
        s
    }
}

/// Textual form of a scalar's value `u / SCALE`: optional minus sign, the
/// integer part in decimal, and, when the fractional part is not zero, a dot
/// and the fractional digits with trailing zeros removed.
pub open spec fn scalar_chars(u: int) -> Seq<char> {
    let m = abs_int(u);
    let sign: Seq<char> = if u < 0 {
        seq!['-']
    } else {
        Seq::empty()
    };
    let ip = m / (SCALE as int);
    let fp = m % (SCALE as int);
    if fp == 0 {
        sign + dec_nat(ip as nat)
    } else {
        sign + dec_nat(ip as nat) + seq!['.'] + trim_zeros(frac6(fp))
    }
}

/// Format a scalar as characters.
pub(crate) fn scalar_to_chars(s: Scalar) -> (v: Vec<char>)
    ensures
        v@ == scalar_chars(s.units as int),
{
    let mag: u64 = if s.units < 0 {
        (-(s.units as i128)) as u64
    } else {
        s.units as u64
    };
    assert(mag as int == abs_int(s.units as int));
    let ip: u64 = mag / (SCALE as u64);
    let fp: u64 = mag % (SCALE as u64);
    let mut v: Vec<char> = Vec::new();
    if s.units < 0 {
        v.push('-');
    }
    let mut ipd = fmt_u64(ip);
    v.append(&mut ipd);
    if fp != 0 {
        v.push('.');
        let mut fd: Vec<char> = Vec::new();
        fd.push(dec_digit(fp / 100000 % 10));
        fd.push(dec_digit(fp / 10000 % 10));
        fd.push(dec_digit(fp / 1000 % 10));
        fd.push(dec_digit(fp / 100 % 10));
        fd.push(dec_digit(fp / 10 % 10));
        fd.push(dec_digit(fp % 10));
        assert(fd@ =~= frac6(fp as int));
        while fd.len() > 0 && fd[fd.len() - 1] == '0'
            invariant
                trim_zeros(fd@) == trim_zeros(frac6(fp as int)),
            decreases fd.len(),
        {
            assert(fd@.last() == '0');
            fd.pop();
        }
        assert(trim_zeros(fd@) == fd@);
        v.append(&mut fd);
    }
    assert(v@ =~= scalar_chars(s.units as int));
    v
}

impl Scalar {
    /// Render the scalar's value as text (e.g. `0`, `4`, `-1.5`).
    pub fn to_text(self) -> (r: String)
        ensures
            r@ == scalar_chars(self.units as int),
    {
        string_from_chars(scalar_to_chars(self))
    }
}

/// Scalars joined with `", "`.
pub open spec fn join_scalars(s: Seq<Scalar>) -> Seq<char>
    decreases s.len(),
{
    if s.len() == 0 {
        Seq::empty()
    } else if s.len() == 1 {
        scalar_chars(s[0].units as int)
    } else {
        scalar_chars(s[0].units as int) + ", "@ + join_scalars(s.drop_first())
    }
}

fn join_scalars_from(v: &Vec<Scalar>, i: usize) -> (r: Vec<char>)
    requires
        i <= v@.len(),
    ensures
        r@ == join_scalars(v@.skip(i as int)),
    decreases v@.len() - i,
{
    if i >= v.len() {
        let r: Vec<char> = Vec::new();
        assert(v@.skip(i as int).len() == 0);
        r
    } else if i + 1 == v.len() {
        let r = scalar_to_chars(v[i]);
        assert(v@.skip(i as int).len() == 1);
        assert(v@.skip(i as int)[0] == v@[i as int]);
        r
    } else {
        let mut r = scalar_to_chars(v[i]);
        let mut sep = str_to_chars(", ");
        r.append(&mut sep);
        let mut rest = join_scalars_from(v, i + 1);
        r.append(&mut rest);
        assert(v@.skip(i as int).drop_first() =~= v@.skip(i as int + 1));
        assert(v@.skip(i as int)[0] == v@[i as int]);
        assert(r@ =~= join_scalars(v@.skip(i as int)));
        r
    }
}

/// Format a list of scalars joined with `", "`.
pub(crate) fn join_scalars_exec(v: &Vec<Scalar>) -> (r: Vec<char>)
    ensures
        r@ == join_scalars(v@),
{
    let r = join_scalars_from(v, 0);
    assert(v@.skip(0) =~= v@);
    r
}

} // verus!
