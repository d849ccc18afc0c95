//! Parsing of comma/space-delimited lists of decimal numbers into scalars.
//!
//! The accepted grammar for one token is an optional sign, decimal digits
//! with at most one dot and at least one digit, then an optional exponent
//! clause (`e` or `E`, an optional sign, digits); the exponent scales the
//! value by a power of ten. Limits of the fixed-point model: `inf` and `NaN`
//! cannot be held by a [`Scalar`] and are rejected; fractional digits beyond
//! the six the representation can hold are dropped; a token whose whole part
//! exceeds [`WHOLE_LIMIT`], or whose scaled value exceeds the scalar range,
//! is rejected.

use vstd::prelude::*;
use crate::num::Scalar;

verus! {

/// Largest whole part a parsed scalar may have (so that
/// `whole * 1_000_000 + fraction` stays inside `i64`).
pub const WHOLE_LIMIT: i64 = 9_223_372_036_853;

/// Token separators: comma and space.
pub open spec fn is_sep(b: u8) -> bool {
    b == 44 || b == 32
}

/// ASCII decimal digit.
pub open spec fn is_digit(b: u8) -> bool {
    48 <= b && b <= 57
}

/// First index at or after `i` that holds a separator (or the length).
pub open spec fn run_end(bs: Seq<u8>, i: int) -> int
    decreases bs.len() - i,
{
    if i >= bs.len() || is_sep(bs[i]) {
        i
    } else {
        run_end(bs, i + 1)
    }
}

pub proof fn lemma_run_end_bounds(bs: Seq<u8>, i: int)
    requires
        0 <= i <= bs.len(),
    ensures
        i <= run_end(bs, i) <= bs.len(),
    decreases bs.len() - i,
{
    if i < bs.len() && !is_sep(bs[i]) {
        lemma_run_end_bounds(bs, i + 1);
    }
}

/// The separator-delimited tokens of `bs` from index `i` on; empty tokens
/// (consecutive separators) are skipped.
pub open spec fn tokens_from(bs: Seq<u8>, i: int) -> Seq<Seq<u8>>
    decreases bs.len() - i,
    when 0 <= i
    via tokens_from_decreases
{
    if i >= bs.len() {
        Seq::empty()
    } else if is_sep(bs[i]) {
        tokens_from(bs, i + 1)
    } else {
        seq![bs.subrange(i, run_end(bs, i))] + tokens_from(bs, run_end(bs, i))
    }
}

#[via_fn]
proof fn tokens_from_decreases(bs: Seq<u8>, i: int) {
    if 0 <= i < bs.len() && !is_sep(bs[i]) {
        lemma_run_end_bounds(bs, i + 1);
    }
}

/// Number of leading ASCII digits.
pub open spec fn digit_run(s: Seq<u8>) -> nat
    decreases s.len(),
{
    if s.len() == 0 || !is_digit(s[0]) {
        0
    } else {
        1 + digit_run(s.drop_first())
    }
}

/// Value of a sequence of ASCII digits read in base ten.
pub open spec fn digits_val(s: Seq<u8>) -> int
    decreases s.len(),
{
    if s.len() == 0 {
        0
    } else {
        digits_val(s.drop_last()) * 10 + (s.last() - 48)
    }
}

/// Power of ten for fractional digit positions.
pub open spec fn pow10(e: int) -> int {
    if e == 0 {
        1
    } else if e == 1 {
        10
    } else if e == 2 {
        100
    } else if e == 3 {
        1000
    } else if e == 4 {
        10000
    } else {
        100000
    }
}

/// Units contributed by fractional digits from position `i` on (only the
/// first six fractional digits contribute).
pub open spec fn frac_units_from(f: Seq<u8>, i: int) -> int
    decreases 6 - i,
    when 0 <= i <= 6
{
    if i >= 6 || i >= f.len() {
        0
    } else {
        (f[i] - 48) * pow10(5 - i) + frac_units_from(f, i + 1)
    }
}

/// Units (millionths) contributed by a fraction-digit sequence.
pub open spec fn frac_units(f: Seq<u8>) -> int {
    frac_units_from(f, 0)
}

/// Ten to the `e`-th power.
pub open spec fn pow10_int(e: nat) -> int
    decreases e,
{
    if e == 0 {
        1
    } else {
        10 * pow10_int((e - 1) as nat)
    }
}

pub proof fn lemma_pow10_pos(e: nat)
    ensures
        pow10_int(e) >= 1,
    decreases e,
{
    if e > 0 {
        lemma_pow10_pos((e - 1) as nat);
    }
}

pub proof fn lemma_pow10_mono(a: nat, b: nat)
    requires
        a <= b,
    ensures
        pow10_int(a) <= pow10_int(b),
    decreases b,
{
    if a < b {
        lemma_pow10_mono(a, (b - 1) as nat);
        lemma_pow10_pos((b - 1) as nat);
    }
}

/// The value denoted by an exponent clause `e`/`E`, an optional sign and
/// digits, applied to `m_units` (a nonnegative value in millionths): the
/// value is scaled by the power of ten, truncating toward zero for negative
/// exponents. Exponent magnitudes are capped at 100, which changes nothing:
/// past ten to the nineteenth every positive scaling overflows and every
/// negative scaling yields zero. A scaled value over the scalar range is
/// rejected.
pub open spec fn exp_clause(neg: bool, m_units: int, e: Seq<u8>) -> Option<Scalar> {
    if e.len() >= 2 && (e[0] == 101 || e[0] == 69) {
        let eneg = e[1] == 45;
        let rest = if e[1] == 43 || e[1] == 45 {
            e.skip(2)
        } else {
            e.skip(1)
        };
        if rest.len() > 0 && digit_run(rest) == rest.len() {
            let ev = digits_val(rest);
            let evs = if ev > 100 {
                100
            } else if ev < 0 {
                0
            } else {
                ev
            };
            let val = if eneg {
                m_units / pow10_int(evs as nat)
            } else {
                m_units * pow10_int(evs as nat)
            };
            if val > i64::MAX as int {
                None
            } else {
                Some(Scalar { units: (if neg { -val } else { val }) as i64 })
            }
        } else {
            None
        }
    } else {
        None
    }
}

/// A token with any leading sign removed.
pub open spec fn token_body(t: Seq<u8>) -> Seq<u8> {
    if t.len() > 0 && (t[0] == 43 || t[0] == 45) {
        t.drop_first()
    } else {
        t
    }
}

/// Parse one token into a scalar: optional sign, digits, at most one dot,
/// at least one digit, then an optional exponent clause; whole part at most
/// [`WHOLE_LIMIT`].
pub open spec fn parse_token(t: Seq<u8>) -> Option<Scalar> {
    let neg = t.len() > 0 && t[0] == 45;
    let body = token_body(t);
    let k = digit_run(body) as int;
    let whole = digits_val(body.take(k));
    if whole > WHOLE_LIMIT as int {
        None
    } else if k == body.len() {
        if k > 0 {
            Some(Scalar { units: (if neg { -(whole * 1000000) } else { whole * 1000000 }) as i64 })
        } else {
            None
        }
    } else if body[k] == 46 {
        let frest = body.skip(k + 1);
        let fk = digit_run(frest) as int;
        let m_units = whole * 1000000 + frac_units(frest.take(fk));
        if k + fk == 0 {
            None
        } else if fk == frest.len() {
            Some(Scalar { units: (if neg { -m_units } else { m_units }) as i64 })
        } else {
            exp_clause(neg, m_units, frest.skip(fk))
        }
    } else if k > 0 {
        exp_clause(neg, whole * 1000000, body.skip(k))
    } else {
        None
    }
}

/// Parse every token; any failing token fails the whole list.
pub open spec fn parse_all(ts: Seq<Seq<u8>>) -> Option<Seq<Scalar>>
    decreases ts.len(),
{
    if ts.len() == 0 {
        Some(Seq::empty())
    } else {
        match (parse_token(ts[0]), parse_all(ts.drop_first())) {
            (Some(s), Some(rest)) => Some(seq![s] + rest),
            _ => None,
        }
    }
}

/// The scalars denoted by a comma/space-delimited list of decimal numbers,
/// if every token parses.
pub open spec fn parse_scalar_list(bs: Seq<u8>) -> Option<Seq<Scalar>> {
    parse_all(tokens_from(bs, 0))
}

// --- facts about digit runs and digit values ---

proof fn lemma_digit_run_prefix(s: Seq<u8>)
    ensures
        digit_run(s) <= s.len(),
        forall|i: int| 0 <= i < digit_run(s) ==> is_digit(#[trigger] s[i]),
        digit_run(s) == s.len() || !is_digit(s[digit_run(s) as int]),
    decreases s.len(),
{
    if s.len() > 0 && is_digit(s[0]) {
        lemma_digit_run_prefix(s.drop_first());
        assert forall|i: int| 0 <= i < digit_run(s) implies is_digit(#[trigger] s[i]) by {
            if i > 0 {
                assert(s.drop_first()[i - 1] == s[i]);
            }
        }
        if digit_run(s) < s.len() {
            assert(s.drop_first()[digit_run(s.drop_first()) as int] == s[digit_run(s) as int]);
        }
    }
}

proof fn lemma_digit_run_exact(s: Seq<u8>, m: int)
    requires
        0 <= m <= s.len(),
        forall|i: int| 0 <= i < m ==> is_digit(#[trigger] s[i]),
        m == s.len() || !is_digit(s[m]),
    ensures
        digit_run(s) == m,
    decreases m,
{
    if m == 0 {
    } else {
        let t = s.drop_first();
        assert forall|i: int| 0 <= i < m - 1 implies is_digit(#[trigger] t[i]) by {
            assert(t[i] == s[i + 1]);
        }
        if m - 1 < t.len() {
            assert(t[m - 1] == s[m]);
        }
        lemma_digit_run_exact(t, m - 1);
    }
}

proof fn lemma_digits_val_nonneg(s: Seq<u8>)
    requires
        forall|i: int| 0 <= i < s.len() ==> is_digit(#[trigger] s[i]),
    ensures
        digits_val(s) >= 0,
    decreases s.len(),
{
    if s.len() > 0 {
        lemma_digits_val_nonneg(s.drop_last());
    }
}

proof fn lemma_digits_val_mono(s: Seq<u8>, m: int)
    requires
        0 <= m <= s.len(),
        forall|i: int| 0 <= i < s.len() ==> is_digit(#[trigger] s[i]),
    ensures
        digits_val(s.take(m)) <= digits_val(s),
    decreases s.len(),
{
    if m == s.len() {
        assert(s.take(m) =~= s);
    } else {
        let d = s.drop_last();
        lemma_digits_val_mono(d, m);
        assert(d.take(m) =~= s.take(m));
        lemma_digits_val_nonneg(d);
    }
}


fn run_end_exec(bs: &[u8], i: usize) -> (j: usize)
    requires
        i <= bs@.len(),
    ensures
        j as int == run_end(bs@, i as int),
        i <= j <= bs@.len(),
{
    let mut j = i;
    while j < bs.len() && !(bs[j] == 44 || bs[j] == 32)
        invariant
            i <= j <= bs@.len(),
            run_end(bs@, i as int) == run_end(bs@, j as int),
        decreases bs@.len() - j,
    {
        j = j + 1;
    }
    proof {
        lemma_run_end_bounds(bs@, i as int);
    }
    j
}


/// If an all-digit prefix of the body already exceeds the limit, the token
/// is rejected.
proof fn lemma_parse_token_overflow(t: Seq<u8>, m: int)
    requires
        0 < m <= token_body(t).len(),
        forall|i: int| 0 <= i < m ==> is_digit(#[trigger] token_body(t)[i]),
        digits_val(token_body(t).take(m)) > WHOLE_LIMIT as int,
    ensures
        parse_token(t) is None,
{
    let body = token_body(t);
    let k = digit_run(body) as int;
    lemma_digit_run_prefix(body);
    assert(k >= m);
    let full = body.take(k);
    assert forall|i: int| 0 <= i < full.len() implies is_digit(#[trigger] full[i]) by {
        assert(full[i] == body[i]);
    }
    lemma_digits_val_mono(full, m);
    assert(full.take(m) =~= body.take(m));
}

#[verifier::rlimit(60)]
fn parse_token_exec(bs: &[u8], from: usize, to: usize) -> (r: Option<Scalar>)
    requires
        from < to <= bs@.len(),
    ensures
        r == parse_token(bs@.subrange(from as int, to as int)),
{
    let ghost t = bs@.subrange(from as int, to as int);
    let neg = bs[from] == 45;
    let mut p = from;
    if bs[from] == 43 || bs[from] == 45 {
        p = from + 1;
    }
    let ghost body = bs@.subrange(p as int, to as int);
    proof {
        if bs[from as int] == 43 || bs[from as int] == 45 {
            assert(body =~= t.drop_first());
        } else {
            assert(body =~= t);
        }
        assert(body == token_body(t));
    }

    // scan the whole part
    let mut q = p;
    let mut acc: i64 = 0;
    while q < to && 48 <= bs[q] && bs[q] <= 57
        invariant
            from < p <= q <= to <= bs@.len() || from == p <= q <= to <= bs@.len(),
            body == bs@.subrange(p as int, to as int),
            body == token_body(t),
            t == bs@.subrange(from as int, to as int),
            neg == (t.len() > 0 && t[0] == 45),
            forall|i: int| p <= i < q ==> is_digit(#[trigger] bs@[i]),
            acc as int == digits_val(bs@.subrange(p as int, q as int)),
            0 <= acc <= WHOLE_LIMIT,
        decreases to - q,
    {
        let d: i64 = (bs[q] - 48) as i64;
        let na: i64 = acc * 10 + d;
        proof {
            assert(bs@.subrange(p as int, q as int + 1).drop_last() =~= bs@.subrange(
                p as int,
                q as int,
            ));
        }
        if na > WHOLE_LIMIT {
            proof {
                let m = q + 1 - p;
                assert forall|i: int| 0 <= i < m implies is_digit(#[trigger] body[i]) by {
                    assert(body[i] == bs@[p + i]);
                }
                assert(body.take(m) =~= bs@.subrange(p as int, q as int + 1));
                lemma_parse_token_overflow(t, m);
            }
            return None;
        }
        acc = na;
        q = q + 1;
    }
    proof {
        let m = q - p;
        assert forall|i: int| 0 <= i < m implies is_digit(#[trigger] body[i]) by {
            assert(body[i] == bs@[p + i]);
        }
        if (q as int) < to as int {
            assert(body[m] == bs@[q as int]);
        }
        lemma_digit_run_exact(body, m);
        assert(body.take(m) =~= bs@.subrange(p as int, q as int));
    }

    if q == to {
        // digits only
        if q == p {
            return None;
        }
        let units: i64 = acc * 1000000;
        return Some(Scalar { units: if neg { -units } else { units } });
    }
    if bs[q] != 46 {
        // possible exponent clause directly after the whole part
        if q == p {
            return None;
        }
        proof {
            assert(body.skip(q - p) =~= bs@.subrange(q as int, to as int));
        }
        return parse_exp(bs, q, to, acc * 1000000, neg);
    }
    // fractional digits from q + 1, then an optional exponent clause
    let fstart = q + 1;
    let ghost frest = body.skip(q - p + 1);
    proof {
        assert(frest =~= bs@.subrange(fstart as int, to as int));
    }
    let mut w = fstart;
    while w < to && 48 <= bs[w] && bs[w] <= 57
        invariant
            fstart <= w <= to <= bs@.len(),
            forall|i: int| fstart <= i < w ==> is_digit(#[trigger] bs@[i]),
        decreases to - w,
    {
        w = w + 1;
    }
    proof {
        let m = w - fstart;
        assert forall|i: int| 0 <= i < m implies is_digit(#[trigger] frest[i]) by {
            assert(frest[i] == bs@[fstart + i]);
        }
        if (w as int) < to as int {
            assert(frest[m] == bs@[w as int]);
        }
        lemma_digit_run_exact(frest, m);
    }
    if q == p && w == fstart {
        // a dot with no digits on either side (possibly signed)
        return None;
    }
    // collect the first six fractional digits
    let ghost frac = frest.take(w - fstart);
    proof {
        assert(frac =~= bs@.subrange(fstart as int, w as int));
    }
    let mut fval: i64 = 0;
    let fk = w - fstart;
    if fk > 0 {
        fval = fval + ((bs[fstart] - 48) as i64) * 100000;
    }
    if fk > 1 {
        fval = fval + ((bs[fstart + 1] - 48) as i64) * 10000;
    }
    if fk > 2 {
        fval = fval + ((bs[fstart + 2] - 48) as i64) * 1000;
    }
    if fk > 3 {
        fval = fval + ((bs[fstart + 3] - 48) as i64) * 100;
    }
    if fk > 4 {
        fval = fval + ((bs[fstart + 4] - 48) as i64) * 10;
    }
    if fk > 5 {
        fval = fval + ((bs[fstart + 5] - 48) as i64) * 1;
    }
    proof {
        reveal_with_fuel(frac_units_from, 8);
        assert(fval as int == frac_units(frac));
    }
    let m_units: i64 = acc * 1000000 + fval;
    if w == to {
        return Some(Scalar { units: if neg { -m_units } else { m_units } });
    }
    proof {
        assert(frest.skip(fk as int) =~= bs@.subrange(w as int, to as int));
    }
    parse_exp(bs, w, to, m_units, neg)
}

fn pow10_exec(e: u64) -> (r: i64)
    requires
        e <= 18,
    ensures
        r as int == pow10_int(e as nat),
        r >= 1,
{
    proof {
        lemma_pow10_pos(e as nat);
    }
    let mut r: i64 = 1;
    let mut i: u64 = 0;
    while i < e
        invariant
            i <= e <= 18,
            r as int == pow10_int(i as nat),
        decreases e - i,
    {
        proof {
            lemma_pow10_mono(i as nat, 17);
            reveal_with_fuel(pow10_int, 19);
            assert(pow10_int(17) == 100000000000000000);
        }
        r = r * 10;
        i = i + 1;
    }
    proof {
        lemma_pow10_pos(e as nat);
    }
    r
}

/// Parse an exponent clause over `bs[i..to]` and apply it to `m_units`.
#[verifier::loop_isolation(false)]
#[verifier::rlimit(100)]
fn parse_exp(bs: &[u8], i: usize, to: usize, m_units: i64, neg: bool) -> (r: Option<Scalar>)
    requires
        i <= to <= bs@.len(),
        0 <= m_units,
    ensures
        r == exp_clause(neg, m_units as int, bs@.subrange(i as int, to as int)),
{
    let ghost e = bs@.subrange(i as int, to as int);
    if to - i < 2 {
        return None;
    }
    if !(bs[i] == 101 || bs[i] == 69) {
        return None;
    }
    let eneg = bs[i + 1] == 45;
    let j: usize = if bs[i + 1] == 43 || bs[i + 1] == 45 {
        i + 2
    } else {
        i + 1
    };
    let ghost rest = bs@.subrange(j as int, to as int);
    proof {
        if e[1] == 43 || e[1] == 45 {
            assert(rest =~= e.skip(2));
        } else {
            assert(rest =~= e.skip(1));
        }
    }
    if j >= to {
        return None;
    }
    // the exponent digits, with the value capped at 100
    let mut w = j;
    let mut acc: i64 = 0;
    while w < to
        invariant
            j <= w <= to <= bs@.len(),
            rest == bs@.subrange(j as int, to as int),
            forall|i2: int| j <= i2 < w ==> is_digit(#[trigger] bs@[i2]),
            0 <= acc <= 100,
            acc as int == (if digits_val(bs@.subrange(j as int, w as int)) > 100 {
                100int
            } else {
                digits_val(bs@.subrange(j as int, w as int))
            }),
        decreases to - w,
    {
        if !(48 <= bs[w] && bs[w] <= 57) {
            proof {
                let m = w - j;
                assert forall|i2: int| 0 <= i2 < m implies is_digit(#[trigger] rest[i2]) by {
                    assert(rest[i2] == bs@[j + i2]);
                }
                assert(rest[m] == bs@[w as int]);
                lemma_digit_run_exact(rest, m);
                assert(digit_run(rest) < rest.len());
            }
            return None;
        }
        let d: i64 = (bs[w] - 48) as i64;
        proof {
            assert(bs@.subrange(j as int, w as int + 1).drop_last() =~= bs@.subrange(
                j as int,
                w as int,
            ));
            assert forall|i2: int| 0 <= i2 < w - j implies is_digit(
                #[trigger] bs@.subrange(j as int, w as int)[i2],
            ) by {
                assert(bs@.subrange(j as int, w as int)[i2] == bs@[j + i2]);
            }
            lemma_digits_val_nonneg(bs@.subrange(j as int, w as int));
        }
        acc = if acc * 10 + d > 100 {
            100
        } else {
            acc * 10 + d
        };
        w = w + 1;
    }
    proof {
        assert forall|i2: int| 0 <= i2 < rest.len() implies is_digit(#[trigger] rest[i2]) by {
            assert(rest[i2] == bs@[j + i2]);
        }
        lemma_digit_run_exact(rest, rest.len() as int);
        lemma_digits_val_nonneg(rest);
        assert(rest =~= bs@.subrange(j as int, to as int));
    }
    // acc is now the capped exponent value
    if eneg {
        if acc >= 19 {
            proof {
                lemma_pow10_mono(19, acc as nat);
                reveal_with_fuel(pow10_int, 21);
                assert(pow10_int(19) == 10000000000000000000);
                vstd::arithmetic::div_mod::lemma_basic_div(m_units as int, pow10_int(acc as nat));
            }
            return Some(Scalar { units: 0 });
        }
        let p = pow10_exec(acc as u64);
        let quo: u64 = (m_units as u64) / (p as u64);
        proof {
            vstd::arithmetic::div_mod::lemma_div_nonincreasing(m_units as int, p as int);
        }
        let units = quo as i64;
        Some(Scalar { units: if neg { -units } else { units } })
    } else {
        if acc >= 19 {
            if m_units == 0 {
                proof {
                    lemma_pow10_pos(acc as nat);
                }
                return Some(Scalar { units: 0 });
            }
            proof {
                lemma_pow10_mono(19, acc as nat);
                reveal_with_fuel(pow10_int, 21);
                assert(pow10_int(19) == 10000000000000000000);
                let pw = pow10_int(acc as nat);
                assert(m_units as int * pw >= pw) by (nonlinear_arith)
                    requires
                        m_units as int >= 1,
                        pw >= 1,
                ;
            }
            return None;
        }
        let p = pow10_exec(acc as u64);
        proof {
            lemma_pow10_mono(acc as nat, 18);
            reveal_with_fuel(pow10_int, 20);
            assert(pow10_int(18) == 1000000000000000000);
            let pw = pow10_int(acc as nat);
            assert(m_units as int * pw <= i128::MAX as int && m_units as int * pw >= 0)
                by (nonlinear_arith)
                requires
                    0 <= m_units as int <= 0x7fffffffffffffff,
                    1 <= pw <= 1000000000000000000,
                    i128::MAX as int == 0x7fffffffffffffffffffffffffffffff,
            ;
        }
        let wide: i128 = (m_units as i128) * (p as i128);
        if wide > i64::MAX as i128 {
            return None;
        }
        let units = wide as i64;
        Some(Scalar { units: if neg { -units } else { units } })
    }
}

/// Parse the token list of `bs` from index `i` on.
fn parse_list_from(bs: &[u8], i: usize) -> (r: Option<Vec<Scalar>>)
    requires
        i <= bs@.len(),
    ensures
        match r {
            Some(v) => parse_all(tokens_from(bs@, i as int)) == Some(v@),
            None => parse_all(tokens_from(bs@, i as int)) is None,
        },
    decreases bs@.len() - i,
{
    if i >= bs.len() {
        Some(Vec::new())
    } else if bs[i] == 44 || bs[i] == 32 {
        parse_list_from(bs, i + 1)
    } else {
        let j = run_end_exec(bs, i);
        proof {
            lemma_run_end_bounds(bs@, i as int);
            assert(run_end(bs@, i as int) > i as int);
        }
        let first = parse_token_exec(bs, i, j);
        proof {
            let ts = tokens_from(bs@, i as int);
            assert(ts == seq![bs@.subrange(i as int, run_end(bs@, i as int))] + tokens_from(
                bs@,
                run_end(bs@, i as int),
            ));
            assert(ts[0] == bs@.subrange(i as int, j as int));
            assert(ts.drop_first() =~= tokens_from(bs@, j as int));
        }
        match first {
            None => None,
            Some(s) => {
                let rest = parse_list_from(bs, j);
                match rest {
                    None => None,
                    Some(mut v) => {
                        let ghost vv = v@;
                        let mut out: Vec<Scalar> = Vec::new();
                        out.push(s);
                        out.append(&mut v);
                        proof {
                            let ts = tokens_from(bs@, i as int);
                            assert(ts == seq![bs@.subrange(i as int, run_end(bs@, i as int))]
                                + tokens_from(bs@, run_end(bs@, i as int)));
                            assert(ts[0] == bs@.subrange(i as int, j as int));
                            assert(ts.drop_first() =~= tokens_from(bs@, j as int));
                            assert(parse_token(ts[0]) == Some(s));
                            assert(parse_all(ts.drop_first()) == Some(vv));
                            assert(out@ =~= seq![s] + vv);
                            assert(parse_all(ts) == Some(seq![s] + vv));
                        }
                        Some(out)
                    },
                }
            },
        }
    }
}

/// Parse a separator-delimited list of decimal numbers into scalars.
pub(crate) fn parse_scalars(bs: &[u8]) -> (r: Option<Vec<Scalar>>)
    ensures
        match r {
            Some(v) => parse_scalar_list(bs@) == Some(v@),
            None => parse_scalar_list(bs@) is None,
        },
{
    parse_list_from(bs, 0)
}

} // verus!
