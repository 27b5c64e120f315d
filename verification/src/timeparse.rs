//! Verified duration parsing.
//!
//! Time-kind option values are durations, parsed to a signed microsecond
//! count.  The accepted grammar has two forms:
//!
//! - clock form: `H:MM:SS` or `MM:SS`, optionally followed by `.` and
//!   fraction digits; the first component is unrestricted, the later
//!   components have one or two digits and value at most 59;
//! - plain form: seconds digits, optionally followed by `.` and fraction
//!   digits, optionally followed by a unit suffix `s`, `ms` or `us`.
//!
//! Fractions are scaled to the microsecond grid and truncated beyond it.
//! Negative durations are invalid, so the grammar admits no sign.

use vstd::prelude::*;

use crate::numparse::{
    all_digits,
    digit_prefix_len,
    digit_val,
    digits_value,
    is_digit,
    lemma_digit_prefix_len_at,
    lemma_digits_value_nonneg,
    lemma_digits_value_push,
    s_len,
    scan_digits,
};

verus! {

/// 10 to the power `e`.
pub open spec fn pow10(e: nat) -> int
    decreases e,
{
    if e == 0 {
        1
    } else {
        10 * pow10((e - 1) as nat)
    }
}

/// The digit string `d` truncated or right-padded with '0' to length `p`.
pub open spec fn pad_digits(d: Seq<char>, p: nat) -> Seq<char> {
    Seq::new(p, |i: int| if i < d.len() { d[i] } else { '0' })
}

/// The value of fraction digits `d` on a grid of `p` decimal places.
pub open spec fn frac_value(d: Seq<char>, p: nat) -> int {
    digits_value(pad_digits(d, p))
}

/// Microseconds denoted by a duration literal, unbounded; `None` when the
/// literal does not match the duration grammar.
pub open spec fn spec_duration_micros(s: Seq<char>) -> Option<int> {
    let k = digit_prefix_len(s);
    if k == 0 {
        Option::<int>::None
    } else {
        let a = digits_value(s.take(k));
        let rest = s.subrange(k, s.len() as int);
        if rest.len() > 0 && rest[0] == ':' {
            spec_hms_tail(a, rest.subrange(1, rest.len() as int))
        } else {
            spec_plain_tail(a, rest)
        }
    }
}

/// The part of the plain form after the seconds digits.
pub open spec fn spec_plain_tail(a: int, rest: Seq<char>) -> Option<int> {
    if rest.len() == 0 {
        Option::Some(a * 1000000)
    } else if rest[0] == '.' {
        let t = rest.subrange(1, rest.len() as int);
        let f = digit_prefix_len(t);
        if f == 0 {
            Option::<int>::None
        } else {
            spec_unit_apply(a, t.take(f), t.subrange(f, t.len() as int))
        }
    } else {
        spec_unit_apply(a, Seq::empty(), rest)
    }
}

/// Apply a unit suffix to a plain-form count and fraction.
pub open spec fn spec_unit_apply(a: int, fd: Seq<char>, u: Seq<char>) -> Option<int> {
    if u.len() == 0 || (u.len() == 1 && u[0] == 's') {
        Option::Some(a * 1000000 + frac_value(fd, 6))
    } else if u.len() == 2 && u[0] == 'm' && u[1] == 's' {
        Option::Some(a * 1000 + frac_value(fd, 3))
    } else if u.len() == 2 && u[0] == 'u' && u[1] == 's' {
        Option::Some(a)
    } else {
        Option::<int>::None
    }
}

/// The part of the clock form after the first ':' (with `a` the first
/// component's value).
pub open spec fn spec_hms_tail(a: int, rest: Seq<char>) -> Option<int> {
    let k2 = digit_prefix_len(rest);
    if k2 < 1 || k2 > 2 {
        Option::<int>::None
    } else {
        let b = digits_value(rest.take(k2));
        let r2 = rest.subrange(k2, rest.len() as int);
        if r2.len() > 0 && r2[0] == ':' {
            let r3 = r2.subrange(1, r2.len() as int);
            let k3 = digit_prefix_len(r3);
            if k3 < 1 || k3 > 2 {
                Option::<int>::None
            } else if b <= 59 && digits_value(r3.take(k3)) <= 59 {
                spec_secs_frac(
                    a * 3600 + b * 60 + digits_value(r3.take(k3)),
                    r3.subrange(k3, r3.len() as int),
                )
            } else {
                Option::<int>::None
            }
        } else if b <= 59 {
            spec_secs_frac(a * 60 + b, r2)
        } else {
            Option::<int>::None
        }
    }
}

/// The optional fraction after the seconds of the clock form.
pub open spec fn spec_secs_frac(secs: int, rest: Seq<char>) -> Option<int> {
    if rest.len() == 0 {
        Option::Some(secs * 1000000)
    } else if rest[0] == '.' {
        let t = rest.subrange(1, rest.len() as int);
        let f = digit_prefix_len(t);
        if f >= 1 && f == t.len() {
            Option::Some(secs * 1000000 + frac_value(t, 6))
        } else {
            Option::<int>::None
        }
    } else {
        Option::<int>::None
    }
}

/// A rejected duration literal, carrying the option context and the
/// literal for the error report.
#[derive(Debug)]
pub struct TimeError {
    pub context: String,
    pub literal: String,
}

proof fn lemma_digits_value_bound(s: Seq<char>)
    requires
        all_digits(s),
    ensures
        0 <= digits_value(s) < pow10(s.len()),
    decreases s.len(),
{
    if s.len() == 0 {
    } else {
        let t = s.take(s.len() - 1);
        assert(all_digits(t));
        lemma_digits_value_bound(t);
        assert(digits_value(t) <= pow10(t.len()) - 1);
        assert(digits_value(s) == digits_value(t) * 10 + digit_val(s.last()));
        assert(digits_value(t) * 10 <= (pow10(t.len()) - 1) * 10) by (nonlinear_arith)
            requires
                digits_value(t) <= pow10(t.len()) - 1,
        ;
        assert(pow10(s.len()) == 10 * pow10(t.len()));
    }
}

proof fn lemma_full_digit_prefix(s: Seq<char>)
    requires
        digit_prefix_len(s) == s.len(),
    ensures
        all_digits(s),
    decreases s.len(),
{
    if s.len() > 0 {
        let t = s.subrange(1, s.len() as int);
        lemma_full_digit_prefix(t);
        assert(forall|i: int| 1 <= i < s.len() ==> s[i] == t[i - 1]);
    }
}

proof fn lemma_frac_value_nonneg(d: Seq<char>, p: nat)
    requires
        all_digits(d),
    ensures
        0 <= frac_value(d, p) < pow10(p),
{
    let pad = pad_digits(d, p);
    assert(all_digits(pad));
    lemma_digits_value_bound(pad);
}

/// If the whole-second count exceeds the unsigned 64-bit range, any
/// denoted microsecond value exceeds the signed 64-bit range.
proof fn lemma_secs_frac_too_big(secs: int, tail: Seq<char>)
    requires
        secs > u64::MAX,
    ensures
        match spec_secs_frac(secs, tail) {
            Option::None => true,
            Option::Some(v) => v > i64::MAX,
        },
{
    assert(secs * 1000000 >= secs * 1) by (nonlinear_arith)
        requires
            secs > 0,
    ;
    if tail.len() > 0 && tail[0] == '.' {
        let t = tail.subrange(1, tail.len() as int);
        let f = digit_prefix_len(t);
        if f >= 1 && f == t.len() {
            lemma_full_digit_prefix(t);
            lemma_frac_value_nonneg(t, 6);
        }
    }
}

/// Compute `frac_value` of the digit run `[from, from + flen)` of `s` on a
/// grid of `p` decimal places.
fn frac_part(s: &str, from: usize, flen: usize, p: usize) -> (r: u64)
    requires
        from + flen <= s@.len(),
        from + flen <= usize::MAX,
        forall|j: int| from <= j < from + flen ==> is_digit(s@[j]),
        p <= 6,
    ensures
        r == frac_value(s@.subrange(from as int, (from + flen) as int), p as nat),
        r < pow10(p as nat),
{
    let ghost d = s@.subrange(from as int, (from + flen) as int);
    let ghost pad = pad_digits(d, p as nat);
    proof {
        reveal_with_fuel(pow10, 8);
        assert(all_digits(pad));
        assert(pad.take(0) =~= Seq::<char>::empty());
    }
    let mut acc: u64 = 0;
    let mut j: usize = 0;
    while j < p
        invariant
            j <= p,
            p <= 6,
            from + flen <= s@.len(),
            from + flen <= usize::MAX,
            forall|i: int| from <= i < from + flen ==> is_digit(s@[i]),
            d == s@.subrange(from as int, (from + flen) as int),
            pad == pad_digits(d, p as nat),
            acc == digits_value(pad.take(j as int)),
            acc < pow10(j as nat),
        decreases p - j,
    {
        let c: char = if j < flen {
            s.get_char(from + j)
        } else {
            '0'
        };
        proof {
            reveal_with_fuel(pow10, 8);
            assert(pad[j as int] == c);
            assert(pad.take(j + 1) =~= pad.take(j as int).push(c));
            lemma_digits_value_push(pad.take(j as int), c);
        }
        acc = acc * 10 + ((c as u32 as u64) - 48);
        j = j + 1;
    }
    proof {
        assert(pad.take(p as int) =~= pad);
    }
    acc
}

/// Multiply a component count by its scale, add the fraction, and check
/// the result against the signed 64-bit range.  `a` is the exact count:
/// `mag` when it fits, something beyond the unsigned 64-bit range when
/// `over` is set.
fn scale_and_check(mag: u64, over: bool, scale: u64, frac: u64, Ghost(a): Ghost<int>) -> (r:
    Option<i64>)
    requires
        1 <= scale <= 1000000,
        frac < scale,
        !over ==> a == mag,
        over ==> a > u64::MAX,
        a >= 0,
    ensures
        match r {
            Option::Some(us) => us >= 0 && us as int == a * scale + frac,
            Option::None => a * scale + frac > i64::MAX,
        },
{
    if over {
        proof {
            assert(a * scale >= a * 1) by (nonlinear_arith)
                requires
                    a > 0,
                    scale >= 1,
            ;
        }
        return Option::None;
    }
    match mag.checked_mul(scale) {
        Option::Some(m) => {
            match m.checked_add(frac) {
                Option::Some(v) => {
                    if v <= i64::MAX as u64 {
                        Option::Some(v as i64)
                    } else {
                        Option::None
                    }
                },
                Option::None => Option::None,
            }
        },
        Option::None => Option::None,
    }
}

/// Parse a time-kind option value: a non-negative duration, returned as
/// microseconds.
///
/// `context` names the option for error reports.  The call succeeds
/// exactly when `timestr` matches the duration grammar and its value fits
/// a signed 64-bit microsecond count, and the result is that count.
pub fn parse_time(context: &str, timestr: &str) -> (r: Result<i64, TimeError>)
    ensures
        match r {
            Result::Ok(us) => us >= 0 && spec_duration_micros(timestr@) == Option::Some(us as int),
            Result::Err(e) => {
                &&& e.context@ == context@
                &&& e.literal@ == timestr@
                &&& (match spec_duration_micros(timestr@) {
                    Option::None => true,
                    Option::Some(v) => v > i64::MAX,
                })
            },
        },
{
    match parse_time_inner(timestr) {
        Option::Some(us) => Result::Ok(us),
        Option::None => Result::Err(
            TimeError { context: String::from_str(context), literal: String::from_str(timestr) },
        ),
    }
}

/// The computational part of duration parsing.
fn parse_time_inner(timestr: &str) -> (r: Option<i64>)
    ensures
        match r {
            Option::Some(us) => us >= 0 && spec_duration_micros(timestr@) == Option::Some(
                us as int,
            ),
            Option::None => match spec_duration_micros(timestr@) {
                Option::None => true,
                Option::Some(v) => v > i64::MAX,
            },
        },
{
    let n = s_len(timestr);
    let (k, a_mag, a_over) = scan_digits(timestr, 0);
    proof {
        lemma_digit_prefix_len_at(timestr@, k as int);
        assert(timestr@.take(k as int) =~= timestr@.subrange(0, k as int));
    }
    if k == 0 {
        return Option::None;
    }
    let ghost av = digits_value(timestr@.take(k as int));
    proof {
        lemma_digits_value_nonneg(timestr@.take(k as int));
    }
    let ghost rest = timestr@.subrange(k as int, timestr@.len() as int);
    if k == n {
        // plain form, no tail
        proof {
            assert(rest.len() == 0);
            assert(spec_duration_micros(timestr@) == Option::Some(av * 1000000));
        }
        return scale_and_check(a_mag, a_over, 1000000, 0, Ghost(av));
    }
    let c = timestr.get_char(k);
    proof {
        assert(rest[0] == timestr@[k as int]);
    }
    if c == ':' {
        parse_clock_tail(timestr, k, a_mag, a_over)
    } else {
        parse_plain_tail(timestr, k, a_mag, a_over)
    }
}

/// Parse the plain form's tail: optional '.' fraction, optional unit.
fn parse_plain_tail(timestr: &str, k: usize, a_mag: u64, a_over: bool) -> (r: Option<i64>)
    requires
        0 < k < timestr@.len(),
        digit_prefix_len(timestr@) == k,
        !a_over ==> a_mag == digits_value(timestr@.take(k as int)),
        a_over ==> digits_value(timestr@.take(k as int)) > u64::MAX,
        timestr@[k as int] != ':',
        forall|j: int| 0 <= j < k ==> is_digit(timestr@[j]),
    ensures
        match r {
            Option::Some(us) => us >= 0 && spec_duration_micros(timestr@) == Option::Some(
                us as int,
            ),
            Option::None => match spec_duration_micros(timestr@) {
                Option::None => true,
                Option::Some(v) => v > i64::MAX,
            },
        },
{
    let n = s_len(timestr);
    let ghost av = digits_value(timestr@.take(k as int));
    let ghost rest = timestr@.subrange(k as int, timestr@.len() as int);
    proof {
        assert(rest[0] == timestr@[k as int]);
        lemma_digits_value_nonneg(timestr@.take(k as int));
    }
    let c = timestr.get_char(k);
    let fstart: usize;
    let flen: usize;
    if c == '.' {
        fstart = k + 1;
        let (f, _fm, _fo) = scan_digits(timestr, fstart);
        proof {
            let t = rest.subrange(1, rest.len() as int);
            assert(t =~= timestr@.subrange(fstart as int, timestr@.len() as int));
            assert(forall|j: int| 0 <= j < f ==> t[j] == timestr@[fstart + j] && is_digit(t[j]));
            assert(f < t.len() ==> !is_digit(t[f as int]));
            lemma_digit_prefix_len_at(t, f as int);
        }
        if f == 0 {
            return Option::None;
        }
        flen = f;
    } else {
        fstart = k;
        flen = 0;
    }
    let unit_start = fstart + flen;
    let ghost fd = timestr@.subrange(fstart as int, (fstart + flen) as int);
    let ghost u = timestr@.subrange(unit_start as int, timestr@.len() as int);
    proof {
        if c == '.' {
            let t = rest.subrange(1, rest.len() as int);
            assert(t.subrange(flen as int, t.len() as int) =~= u);
            assert(t.take(flen as int) =~= fd);
            assert(spec_duration_micros(timestr@) == spec_unit_apply(av, fd, u));
        } else {
            assert(u =~= rest);
            assert(fd =~= Seq::<char>::empty());
            assert(pad_digits(fd, 6) =~= pad_digits(Seq::<char>::empty(), 6));
            assert(pad_digits(fd, 3) =~= pad_digits(Seq::<char>::empty(), 3));
            assert(spec_duration_micros(timestr@) == spec_unit_apply(av, Seq::empty(), u));
        }
    }
    // decide the unit
    let ulen = n - unit_start;
    let scale: u64;
    let places: usize;
    if ulen == 0 {
        scale = 1000000;
        places = 6;
    } else if ulen == 1 && timestr.get_char(unit_start) == 's' {
        proof {
            assert(u[0] == 's');
        }
        scale = 1000000;
        places = 6;
    } else if ulen == 2 && timestr.get_char(unit_start) == 'm' && timestr.get_char(unit_start + 1)
        == 's' {
        proof {
            assert(u[0] == 'm' && u[1] == 's');
        }
        scale = 1000;
        places = 3;
    } else if ulen == 2 && timestr.get_char(unit_start) == 'u' && timestr.get_char(unit_start + 1)
        == 's' {
        proof {
            assert(u[0] == 'u' && u[1] == 's');
        }
        scale = 1;
        places = 0;
    } else {
        proof {
            if u.len() == 1 {
                assert(u[0] == timestr@[unit_start as int]);
            }
            if u.len() == 2 {
                assert(u[0] == timestr@[unit_start as int]);
                assert(u[1] == timestr@[unit_start as int + 1]);
            }
            assert(spec_unit_apply(av, if c == '.' {
                fd
            } else {
                Seq::empty()
            }, u) is None);
        }
        return Option::None;
    }
    let frac: u64 = frac_part(timestr, fstart, flen, places);
    proof {
        reveal_with_fuel(pow10, 8);
        if places == 0 {
            assert(pad_digits(fd, 0) =~= Seq::<char>::empty());
        }
    }
    scale_and_check(a_mag, a_over, scale, frac, Ghost(av))
}

/// Parse the clock form's tail after the first ':'.
#[verifier::rlimit(60)]
fn parse_clock_tail(timestr: &str, k: usize, a_mag: u64, a_over: bool) -> (r: Option<i64>)
    requires
        0 < k < timestr@.len(),
        digit_prefix_len(timestr@) == k,
        !a_over ==> a_mag == digits_value(timestr@.take(k as int)),
        a_over ==> digits_value(timestr@.take(k as int)) > u64::MAX,
        timestr@[k as int] == ':',
        forall|j: int| 0 <= j < k ==> is_digit(timestr@[j]),
    ensures
        match r {
            Option::Some(us) => us >= 0 && spec_duration_micros(timestr@) == Option::Some(
                us as int,
            ),
            Option::None => match spec_duration_micros(timestr@) {
                Option::None => true,
                Option::Some(v) => v > i64::MAX,
            },
        },
{
    let n = s_len(timestr);
    let ghost av = digits_value(timestr@.take(k as int));
    let ghost rest = timestr@.subrange(k as int, timestr@.len() as int);
    let ghost hrest = rest.subrange(1, rest.len() as int);
    proof {
        assert(rest[0] == ':');
        assert(hrest =~= timestr@.subrange(k as int + 1, timestr@.len() as int));
        lemma_digits_value_nonneg(timestr@.take(k as int));
    }
    let ms_start = k + 1;
    let (k2, b_mag, b_over) = scan_digits(timestr, ms_start);
    proof {
        assert(forall|j: int| 0 <= j < k2 ==> hrest[j] == timestr@[ms_start + j] && is_digit(
            hrest[j],
        ));
        assert(k2 < hrest.len() ==> !is_digit(hrest[k2 as int]));
        lemma_digit_prefix_len_at(hrest, k2 as int);
        assert(hrest.take(k2 as int) =~= timestr@.subrange(
            ms_start as int,
            (ms_start + k2) as int,
        ));
    }
    if k2 < 1 || k2 > 2 {
        return Option::None;
    }
    let ghost bv = digits_value(hrest.take(k2 as int));
    proof {
        lemma_digits_value_bound(hrest.take(k2 as int));
        reveal_with_fuel(pow10, 3);
        assert(bv < 100);
        assert(!b_over);
    }
    let after2 = ms_start + k2;
    let ghost r2 = hrest.subrange(k2 as int, hrest.len() as int);
    proof {
        assert(r2 =~= timestr@.subrange(after2 as int, timestr@.len() as int));
    }
    if after2 < n && timestr.get_char(after2) == ':' {
        // H:M:S
        proof {
            assert(r2[0] == ':');
        }
        let ghost r3 = r2.subrange(1, r2.len() as int);
        let s_start = after2 + 1;
        proof {
            assert(r3 =~= timestr@.subrange(s_start as int, timestr@.len() as int));
        }
        let (k3, c_mag, c_over) = scan_digits(timestr, s_start);
        proof {
            assert(forall|j: int| 0 <= j < k3 ==> r3[j] == timestr@[s_start + j] && is_digit(
                r3[j],
            ));
            assert(k3 < r3.len() ==> !is_digit(r3[k3 as int]));
            lemma_digit_prefix_len_at(r3, k3 as int);
            assert(r3.take(k3 as int) =~= timestr@.subrange(
                s_start as int,
                (s_start + k3) as int,
            ));
        }
        if k3 < 1 || k3 > 2 {
            return Option::None;
        }
        let ghost cv = digits_value(r3.take(k3 as int));
        proof {
            lemma_digits_value_bound(r3.take(k3 as int));
            reveal_with_fuel(pow10, 3);
            assert(cv < 100);
            assert(!c_over);
        }
        if b_mag > 59 || c_mag > 59 {
            return Option::None;
        }
        let ghost sv = av * 3600 + bv * 60 + cv;
        let ghost r4 = r3.subrange(k3 as int, r3.len() as int);
        let tail_start = s_start + k3;
        proof {
            assert(r4 =~= timestr@.subrange(tail_start as int, timestr@.len() as int));
            assert(spec_duration_micros(timestr@) == spec_secs_frac(sv, r4));
        }
        if a_over {
            proof {
                assert(av * 3600 >= av * 1) by (nonlinear_arith)
                    requires
                        av > 0,
                ;
                lemma_secs_frac_too_big(sv, r4);
            }
            return Option::None;
        }
        let secs: u64 = match a_mag.checked_mul(3600) {
            Option::Some(h) => {
                match h.checked_add(b_mag * 60 + c_mag) {
                    Option::Some(t) => t,
                    Option::None => {
                        proof {
                            lemma_secs_frac_too_big(sv, r4);
                        }
                        return Option::None;
                    },
                }
            },
            Option::None => {
                proof {
                    lemma_secs_frac_too_big(sv, r4);
                }
                return Option::None;
            },
        };
        finish_secs_frac(timestr, tail_start, secs)
    } else {
        // M:S
        if b_mag > 59 {
            return Option::None;
        }
        let ghost sv = av * 60 + bv;
        proof {
            assert(spec_duration_micros(timestr@) == spec_secs_frac(sv, r2));
        }
        if a_over {
            proof {
                assert(av * 60 >= av * 1) by (nonlinear_arith)
                    requires
                        av > 0,
                ;
                lemma_secs_frac_too_big(sv, r2);
            }
            return Option::None;
        }
        let secs: u64 = match a_mag.checked_mul(60) {
            Option::Some(m) => {
                match m.checked_add(b_mag) {
                    Option::Some(t) => t,
                    Option::None => {
                        proof {
                            lemma_secs_frac_too_big(sv, r2);
                        }
                        return Option::None;
                    },
                }
            },
            Option::None => {
                proof {
                    lemma_secs_frac_too_big(sv, r2);
                }
                return Option::None;
            },
        };
        finish_secs_frac(timestr, after2, secs)
    }
}

/// Parse the optional '.'-fraction ending the clock form and assemble the
/// microsecond count.
fn finish_secs_frac(timestr: &str, tail_start: usize, secs: u64) -> (r: Option<i64>)
    requires
        tail_start <= timestr@.len(),
    ensures
        ({
            let tail = timestr@.subrange(tail_start as int, timestr@.len() as int);
            match r {
                Option::Some(us) => us >= 0 && spec_secs_frac(secs as int, tail) == Option::Some(
                    us as int,
                ),
                Option::None => match spec_secs_frac(secs as int, tail) {
                    Option::None => true,
                    Option::Some(v) => v > i64::MAX,
                },
            }
        }),
{
    let n = s_len(timestr);
    let ghost tail = timestr@.subrange(tail_start as int, timestr@.len() as int);
    let frac: u64;
    let ghost fv: int;
    if tail_start == n {
        proof {
            assert(tail.len() == 0);
        }
        frac = 0;
        proof {
            fv = 0;
        }
    } else {
        proof {
            assert(tail[0] == timestr@[tail_start as int]);
        }
        if timestr.get_char(tail_start) != '.' {
            return Option::None;
        }
        let fstart = tail_start + 1;
        let (f, _fm, _fo) = scan_digits(timestr, fstart);
        let ghost t = tail.subrange(1, tail.len() as int);
        proof {
            assert(t =~= timestr@.subrange(fstart as int, timestr@.len() as int));
            assert(forall|j: int| 0 <= j < f ==> t[j] == timestr@[fstart + j] && is_digit(t[j]));
            assert(f < t.len() ==> !is_digit(t[f as int]));
            lemma_digit_prefix_len_at(t, f as int);
        }
        if f == 0 {
            return Option::None;
        }
        if fstart + f != n {
            return Option::None;
        }
        frac = frac_part(timestr, fstart, f, 6);
        proof {
            assert(timestr@.subrange(fstart as int, (fstart + f) as int) =~= t);
            fv = frac_value(t, 6);
        }
    }
    proof {
        reveal_with_fuel(pow10, 8);
        assert(spec_secs_frac(secs as int, tail) == Option::Some(secs * 1000000 + fv));
    }
    match secs.checked_mul(1000000) {
        Option::Some(m) => {
            match m.checked_add(frac) {
                Option::Some(v) => {
                    if v <= i64::MAX as u64 {
                        Option::Some(v as i64)
                    } else {
                        Option::None
                    }
                },
                Option::None => Option::None,
            }
        },
        Option::None => Option::None,
    }
}

} // verus!
