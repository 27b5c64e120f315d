//! Verified numeral parsing.
//!
//! Integer-kind option values are parsed from a decimal numeral — an
//! optional sign, integer digits, an optional '.' and fraction digits —
//! and accepted only when the value round-trips exactly at the declared
//! width: the fraction must be zero, the value must lie in the declared
//! range, and the magnitude must be exactly representable in a 53-bit
//! significand, so no silent truncation can occur.
//!
//! Floating-point-kind option values are validated against the same
//! grammar and a significant-digit cap and stored as literal text.

use vstd::prelude::*;

use crate::flags::{OPT_INT, OPT_INT64};

verus! {

/// Largest magnitude exactly representable with a 53-bit significand at
/// unit scale.
pub const TWO_POW_53: u64 = 9007199254740992;

/// Whether `c` is a decimal digit.
pub open spec fn is_digit(c: char) -> bool {
    48 <= c as int <= 57
}

/// The numeric value of a digit character.
pub open spec fn digit_val(c: char) -> int {
    c as int - 48
}

/// Whether every character of `s` is a decimal digit.
pub open spec fn all_digits(s: Seq<char>) -> bool {
    forall|i: int| 0 <= i < s.len() ==> is_digit(s[i])
}

/// The value of a digit string read in base ten.
pub open spec fn digits_value(s: Seq<char>) -> int
    decreases s.len(),
{
    if s.len() == 0 {
        0
    } else {
        digits_value(s.take(s.len() - 1)) * 10 + digit_val(s.last())
    }
}

/// Length of the longest digit prefix of `s`.
pub open spec fn digit_prefix_len(s: Seq<char>) -> int
    decreases s.len(),
{
    if s.len() == 0 {
        0
    } else if !is_digit(s[0]) {
        0
    } else {
        1 + digit_prefix_len(s.subrange(1, s.len() as int))
    }
}

/// Whether `s` begins with an explicit sign character.
pub open spec fn num_has_sign(s: Seq<char>) -> bool {
    s.len() > 0 && (s[0] == '-' || s[0] == '+')
}

/// Whether `s` denotes a negative value.
pub open spec fn num_is_neg(s: Seq<char>) -> bool {
    s.len() > 0 && s[0] == '-'
}

/// `s` without its sign character.
pub open spec fn num_body(s: Seq<char>) -> Seq<char> {
    if num_has_sign(s) {
        s.subrange(1, s.len() as int)
    } else {
        s
    }
}

/// Whether an unsigned body is a well-formed numeral: digits, optionally
/// followed by '.' and further digits, with at least one digit in all.
pub open spec fn body_ok(b: Seq<char>) -> bool {
    let k = digit_prefix_len(b);
    if k == b.len() {
        k >= 1
    } else {
        b[k] == '.' && all_digits(b.subrange(k + 1, b.len() as int)) && b.len() >= 2
    }
}

/// Whether `s` is a well-formed decimal numeral.
pub open spec fn is_numeral(s: Seq<char>) -> bool {
    body_ok(num_body(s))
}

/// The integer-part magnitude of a numeral.
pub open spec fn num_mag(s: Seq<char>) -> int {
    let b = num_body(s);
    digits_value(b.take(digit_prefix_len(b)))
}

/// The fraction digits of a numeral (empty when it has no point).
pub open spec fn num_frac(s: Seq<char>) -> Seq<char> {
    let b = num_body(s);
    let k = digit_prefix_len(b);
    if k == b.len() {
        Seq::empty()
    } else {
        b.subrange(k + 1, b.len() as int)
    }
}

/// Whether the fraction digits denote a nonzero fraction.
pub open spec fn frac_nonzero(f: Seq<char>) -> bool {
    exists|i: int| 0 <= i < f.len() && f[i] != '0'
}

/// The largest integer not above the numeral's value.
pub open spec fn num_floor(s: Seq<char>) -> int {
    if !num_is_neg(s) {
        num_mag(s)
    } else if frac_nonzero(num_frac(s)) {
        -num_mag(s) - 1
    } else {
        -num_mag(s)
    }
}

/// Whether the magnitude `m` is exactly representable with a 53-bit
/// significand: some `m == c * pow2(e)` with `c < 2^53`.
pub open spec fn spec_repr53(m: nat) -> bool
    decreases m,
{
    if m < TWO_POW_53 {
        true
    } else if m % 2 != 0 {
        false
    } else {
        spec_repr53(m / 2)
    }
}

/// Outcome of checking a numeral against an integer kind.
pub enum NumCheck {
    /// The text is not a well-formed numeral.
    NotNumber,
    /// The value lies outside the declared range.
    OutOfRange,
    /// The value has a nonzero fraction, or its magnitude is not exactly
    /// representable with a 53-bit significand.
    NotExact,
    /// The exact integer value.
    Val(int),
}

/// The integer reading of numeral `s` against range `[min, max]`.
pub open spec fn spec_parse_number(s: Seq<char>, min: int, max: int) -> NumCheck {
    if !is_numeral(s) {
        NumCheck::NotNumber
    } else {
        let fz = frac_nonzero(num_frac(s));
        let floor = num_floor(s);
        if floor < min || floor > max || (floor == max && fz) {
            NumCheck::OutOfRange
        } else if fz || !spec_repr53(num_mag(s) as nat) {
            NumCheck::NotExact
        } else if num_is_neg(s) {
            NumCheck::Val(-num_mag(s))
        } else {
            NumCheck::Val(num_mag(s))
        }
    }
}

/// Why a numeral was rejected.
#[derive(Clone, Copy, PartialEq, Eq, Structural, Debug)]
pub enum NumErrKind {
    /// "Expected number for ... but found ..."
    NotNumber,
    /// "The value for ... was ... which is not within ..."
    OutOfRange,
    /// "Expected an exact integer for ... but found ..."
    NotExact,
}

/// A rejected numeral, carrying everything an error report names: the
/// option context, the offending literal and the declared range.
#[derive(Debug)]
pub struct NumError {
    pub kind: NumErrKind,
    pub context: String,
    pub literal: String,
    pub min: i64,
    pub max: i64,
}

pub(crate) proof fn lemma_digits_value_nonneg(s: Seq<char>)
    requires
        all_digits(s),
    ensures
        digits_value(s) >= 0,
    decreases s.len(),
{
    if s.len() > 0 {
        let t = s.take(s.len() - 1);
        assert(all_digits(t));
        lemma_digits_value_nonneg(t);
    }
}

pub(crate) proof fn lemma_digits_value_push(s: Seq<char>, c: char)
    ensures
        digits_value(s.push(c)) == digits_value(s) * 10 + digit_val(c),
{
    let p = s.push(c);
    assert(p.take(p.len() - 1) =~= s);
    assert(p.last() == c);
}

pub(crate) proof fn lemma_digit_prefix_len_at(s: Seq<char>, k: int)
    requires
        0 <= k <= s.len(),
        forall|j: int| 0 <= j < k ==> is_digit(s[j]),
        k < s.len() ==> !is_digit(s[k]),
    ensures
        digit_prefix_len(s) == k,
    decreases s.len(),
{
    if s.len() == 0 {
    } else if k == 0 {
    } else {
        let t = s.subrange(1, s.len() as int);
        assert(forall|j: int| 0 <= j < k - 1 ==> t[j] == s[j + 1] && is_digit(t[j]));
        lemma_digit_prefix_len_at(t, k - 1);
    }
}

/// Scan a digit run of `s` starting at `from`, returning the count of
/// digits and their value, the latter saturated at `u64::MAX + 1` meaning
/// "too large for a 64-bit magnitude".
pub(crate) fn scan_digits(s: &str, from: usize) -> (r: (usize, u64, bool))
    requires
        from <= s@.len(),
    ensures
        ({
            let (count, mag, over) = r;
            &&& from + count <= s@.len()
            &&& forall|j: int| from <= j < from + count ==> is_digit(s@[j])
            &&& (from + count < s@.len() ==> !is_digit(s@[from + count]))
            &&& (!over ==> mag == digits_value(s@.subrange(from as int, (from + count) as int)))
            &&& (over ==> digits_value(s@.subrange(from as int, (from + count) as int))
                > u64::MAX)
        }),
{
    let n = s.unicode_len();
    let mut i: usize = from;
    let mut mag: u64 = 0;
    let mut over: bool = false;
    proof {
        assert(s@.subrange(from as int, from as int) =~= Seq::<char>::empty());
    }
    loop
        invariant
            from <= i <= n,
            n == s@.len(),
            forall|j: int| from <= j < i ==> is_digit(s@[j]),
            !over ==> mag == digits_value(s@.subrange(from as int, i as int)),
            over ==> digits_value(s@.subrange(from as int, i as int)) > u64::MAX,
        ensures
            from <= i <= n,
            n == s@.len(),
            forall|j: int| from <= j < i ==> is_digit(s@[j]),
            i < n ==> !is_digit(s@[i as int]),
            !over ==> mag == digits_value(s@.subrange(from as int, i as int)),
            over ==> digits_value(s@.subrange(from as int, i as int)) > u64::MAX,
        decreases n - i,
    {
        if i >= n {
            break;
        }
        let c = s.get_char(i);
        if !(c >= '0' && c <= '9') {
            break;
        }
        let d: u64 = (c as u32 as u64) - 48;
        proof {
            let pre = s@.subrange(from as int, i as int);
            let post = s@.subrange(from as int, i as int + 1);
            assert(post =~= pre.push(s@[i as int]));
            lemma_digits_value_push(pre, s@[i as int]);
            assert(all_digits(pre));
            lemma_digits_value_nonneg(pre);
        }
        if !over {
            match mag.checked_mul(10) {
                Option::Some(m10) => {
                    match m10.checked_add(d) {
                        Option::Some(m) => {
                            mag = m;
                        },
                        Option::None => {
                            over = true;
                        },
                    }
                },
                Option::None => {
                    over = true;
                },
            }
        }
        i = i + 1;
    }
    (i - from, mag, over)
}

/// Whether `m` is exactly representable with a 53-bit significand.
fn repr53(m: u64) -> (r: bool)
    ensures
        r == spec_repr53(m as nat),
{
    let mut v: u64 = m;
    while v >= TWO_POW_53
        invariant
            spec_repr53(v as nat) == spec_repr53(m as nat),
        decreases v,
    {
        if v % 2 != 0 {
            return false;
        }
        v = v / 2;
    }
    true
}

/// Decomposition of a well-formed numeral produced by [`scan_numeral`].
struct ScannedNum {
    neg: bool,
    mag: u64,
    mag_over: bool,
    frac_nz: bool,
}

/// Scan `numstr` against the numeral grammar.
fn scan_numeral(numstr: &str) -> (r: Option<ScannedNum>)
    ensures
        match r {
            Option::Some(sc) => {
                &&& is_numeral(numstr@)
                &&& sc.neg == num_is_neg(numstr@)
                &&& !sc.mag_over ==> sc.mag == num_mag(numstr@)
                &&& sc.mag_over ==> num_mag(numstr@) > u64::MAX
                &&& sc.frac_nz == frac_nonzero(num_frac(numstr@))
            },
            Option::None => !is_numeral(numstr@),
        },
{
    let n = s_len(numstr);
    let mut start: usize = 0;
    let mut neg = false;
    if n > 0 {
        let c0 = numstr.get_char(0);
        if c0 == '-' {
            neg = true;
            start = 1;
        } else if c0 == '+' {
            start = 1;
        }
    }
    let ghost b = num_body(numstr@);
    proof {
        assert(b =~= numstr@.subrange(start as int, numstr@.len() as int));
    }
    let (k, mag, mag_over) = scan_digits(numstr, start);
    proof {
        assert(forall|j: int| 0 <= j < k ==> b[j] == numstr@[start + j] && is_digit(b[j]));
        assert(k < b.len() ==> !is_digit(b[k as int]));
        lemma_digit_prefix_len_at(b, k as int);
        assert(b.take(k as int) =~= numstr@.subrange(start as int, (start + k) as int));
    }
    let after_int = start + k;
    if after_int == n {
        if k == 0 {
            return Option::None;
        }
        proof {
            assert(num_frac(numstr@) =~= Seq::<char>::empty());
        }
        return Option::Some(ScannedNum { neg, mag, mag_over, frac_nz: false });
    }
    let c = numstr.get_char(after_int);
    if c != '.' {
        return Option::None;
    }
    let fstart = after_int + 1;
    let (f, _fmag, _fover) = scan_digits(numstr, fstart);
    if fstart + f != n {
        proof {
            assert(b[k as int] == '.');
            assert(!is_digit(numstr@[(fstart + f) as int]));
            assert(b.subrange(k as int + 1, b.len() as int)[f as int] == b[k as int + 1 + f]);
            assert(!all_digits(b.subrange(k as int + 1, b.len() as int)));
        }
        return Option::None;
    }
    if k == 0 && f == 0 {
        return Option::None;
    }
    proof {
        assert(b[k as int] == '.');
        assert(num_frac(numstr@) =~= numstr@.subrange(fstart as int, n as int));
        assert(all_digits(b.subrange(k as int + 1, b.len() as int)));
        assert(b.len() >= 2);
    }
    let mut frac_nz = false;
    let mut i: usize = fstart;
    while i < n
        invariant
            fstart <= i <= n,
            n == numstr@.len(),
            frac_nz == (exists|j: int| fstart <= j < i && numstr@[j] != '0'),
        decreases n - i,
    {
        if numstr.get_char(i) != '0' {
            frac_nz = true;
        }
        i = i + 1;
    }
    proof {
        let fr = num_frac(numstr@);
        assert(frac_nonzero(fr) == (exists|j: int| fstart <= j < n && numstr@[j] != '0')) by {
            if frac_nonzero(fr) {
                let w = choose|w: int| 0 <= w < fr.len() && fr[w] != '0';
                assert(numstr@[fstart + w] != '0');
            }
            if exists|j: int| fstart <= j < n && numstr@[j] != '0' {
                let w = choose|w: int| fstart <= w < n && numstr@[w] != '0';
                assert(fr[w - fstart] != '0');
            }
        }
    }
    Option::Some(ScannedNum { neg, mag, mag_over, frac_nz })
}

/// The character length of `s`.
pub(crate) fn s_len(s: &str) -> (r: usize)
    ensures
        r == s@.len(),
{
    s.unicode_len()
}

/// Parse an integer-kind option value.
///
/// `context` names the option for error reports, `num_type` is the
/// declared integer kind (`OPT_INT` or `OPT_INT64`) and `[min, max]` is
/// the declared range.  The literal is accepted exactly when it is a
/// well-formed decimal numeral whose value is an integer within the range
/// and exactly representable with a 53-bit significand; the result is that
/// integer.
pub fn parse_number(context: &str, numstr: &str, num_type: u64, min: i64, max: i64) -> (r: Result<
    i64,
    NumError,
>)
    requires
        num_type == OPT_INT || num_type == OPT_INT64,
        min <= max,
    ensures
        match r {
            Result::Ok(v) => spec_parse_number(numstr@, min as int, max as int) == NumCheck::Val(
                v as int,
            ),
            Result::Err(e) => {
                &&& e.context@ == context@
                &&& e.literal@ == numstr@
                &&& e.min == min
                &&& e.max == max
                &&& (match e.kind {
                    NumErrKind::NotNumber => spec_parse_number(numstr@, min as int, max as int)
                        == NumCheck::NotNumber,
                    NumErrKind::OutOfRange => spec_parse_number(numstr@, min as int, max as int)
                        == NumCheck::OutOfRange,
                    NumErrKind::NotExact => spec_parse_number(numstr@, min as int, max as int)
                        == NumCheck::NotExact,
                })
            },
        },
{
    let sc = match scan_numeral(numstr) {
        Option::Some(sc) => sc,
        Option::None => {
            return Result::Err(
                NumError {
                    kind: NumErrKind::NotNumber,
                    context: String::from_str(context),
                    literal: String::from_str(numstr),
                    min,
                    max,
                },
            );
        },
    };
    // Range check over the floor of the value.
    let ghost fl = num_floor(numstr@);
    let out_of_range: bool = if sc.mag_over {
        // magnitude beyond u64: the floor lies outside any 64-bit range
        true
    } else if !sc.neg {
        let lt_min = min > 0 && sc.mag < min as u64;
        let gt_max = max < 0 || sc.mag > max as u64;
        let at_max_frac = max >= 0 && sc.mag == max as u64 && sc.frac_nz;
        proof {
            assert(fl == sc.mag as int);
            assert(lt_min == (fl < min));
            assert(gt_max == (fl > max));
        }
        lt_min || gt_max || at_max_frac
    } else {
        // negative value: the floor is -(mag) or -(mag + 1)
        if sc.frac_nz && sc.mag == u64::MAX {
            // the floor is below the smallest 64-bit integer
            true
        } else {
            let fm: u64 = if sc.frac_nz {
                sc.mag + 1
            } else {
                sc.mag
            };
            proof {
                assert(fl == -(fm as int));
            }
            let lt_min = if min > 0 {
                true
            } else if min == 0 {
                fm > 0
            } else {
                fm > neg_abs(min)
            };
            let gt_max = if max >= 0 {
                false
            } else {
                fm < neg_abs(max)
            };
            let at_max_frac = if max > 0 {
                false
            } else if max == 0 {
                fm == 0 && sc.frac_nz
            } else {
                fm == neg_abs(max) && sc.frac_nz
            };
            proof {
                assert(lt_min == (fl < min));
                assert(gt_max == (fl > max));
                assert(at_max_frac == (fl == max && sc.frac_nz));
            }
            lt_min || gt_max || at_max_frac
        }
    };
    if out_of_range {
        return Result::Err(
            NumError {
                kind: NumErrKind::OutOfRange,
                context: String::from_str(context),
                literal: String::from_str(numstr),
                min,
                max,
            },
        );
    }
    if sc.frac_nz || !repr53(sc.mag) {
        return Result::Err(
            NumError {
                kind: NumErrKind::NotExact,
                context: String::from_str(context),
                literal: String::from_str(numstr),
                min,
                max,
            },
        );
    }
    let v: i64 = if sc.neg {
        if sc.mag == 9223372036854775808u64 {
            i64::MIN
        } else {
            -(sc.mag as i64)
        }
    } else {
        sc.mag as i64
    };
    Result::Ok(v)
}

/// The magnitude of a negative 64-bit integer.
fn neg_abs(v: i64) -> (r: u64)
    requires
        v < 0,
    ensures
        r == -(v as int),
{
    if v == i64::MIN {
        9223372036854775808u64
    } else {
        (-v) as u64
    }
}

/// Length of the longest '0' prefix of `s`.
pub open spec fn zero_prefix_len(s: Seq<char>) -> int
    decreases s.len(),
{
    if s.len() == 0 {
        0
    } else if s[0] != '0' {
        0
    } else {
        1 + zero_prefix_len(s.subrange(1, s.len() as int))
    }
}

proof fn lemma_zero_prefix_len_at(s: Seq<char>, k: int)
    requires
        0 <= k <= s.len(),
        forall|j: int| 0 <= j < k ==> s[j] == '0',
        k < s.len() ==> s[k] != '0',
    ensures
        zero_prefix_len(s) == k,
    decreases s.len(),
{
    if s.len() == 0 {
    } else if k == 0 {
    } else {
        let t = s.subrange(1, s.len() as int);
        assert(forall|j: int| 0 <= j < k - 1 ==> t[j] == s[j + 1] && t[j] == '0');
        lemma_zero_prefix_len_at(t, k - 1);
    }
}

/// Count of significant integer digits of a numeral: the integer-part
/// digits without their leading zeros.
pub open spec fn num_sig_digits(s: Seq<char>) -> int {
    let b = num_body(s);
    let k = digit_prefix_len(b);
    k - zero_prefix_len(b.take(k))
}

/// Validate a floating-point-kind option value.
///
/// The literal must be a well-formed decimal numeral whose integer part
/// carries at most `max_sig` significant digits, the coarse magnitude cap
/// standing for the kind's representable span; the validated literal
/// itself is what the engine stores.
pub fn check_float_literal(context: &str, numstr: &str, max_sig: usize) -> (r: Result<
    (),
    NumError,
>)
    ensures
        match r {
            Result::Ok(()) => is_numeral(numstr@) && num_sig_digits(numstr@) <= max_sig,
            Result::Err(e) => {
                &&& e.context@ == context@
                &&& e.literal@ == numstr@
                &&& (match e.kind {
                    NumErrKind::NotNumber => !is_numeral(numstr@),
                    NumErrKind::OutOfRange => is_numeral(numstr@) && num_sig_digits(numstr@)
                        > max_sig,
                    NumErrKind::NotExact => false,
                })
            },
        },
{
    match scan_numeral(numstr) {
        Option::Some(_) => {},
        Option::None => {
            return Result::Err(
                NumError {
                    kind: NumErrKind::NotNumber,
                    context: String::from_str(context),
                    literal: String::from_str(numstr),
                    min: 0,
                    max: 0,
                },
            );
        },
    }
    let n = s_len(numstr);
    let mut start: usize = 0;
    if n > 0 {
        let c0 = numstr.get_char(0);
        if c0 == '-' || c0 == '+' {
            start = 1;
        }
    }
    let ghost b = num_body(numstr@);
    proof {
        assert(b =~= numstr@.subrange(start as int, numstr@.len() as int));
    }
    let (k, _mag, _over) = scan_digits(numstr, start);
    proof {
        assert(forall|j: int| 0 <= j < k ==> b[j] == numstr@[start + j] && is_digit(b[j]));
        assert(k < b.len() ==> !is_digit(b[k as int]));
        lemma_digit_prefix_len_at(b, k as int);
    }
    let ghost ip = b.take(k as int);
    let mut z: usize = 0;
    loop
        invariant
            z <= k,
            start + k <= numstr@.len(),
            n == numstr@.len(),
            forall|j: int| 0 <= j < z ==> #[trigger] numstr@[start + j] == '0',
            ip =~= numstr@.subrange(start as int, (start + k) as int),
        ensures
            z <= k,
            forall|j: int| 0 <= j < z ==> #[trigger] numstr@[start + j] == '0',
            z < k ==> numstr@[(start + z) as int] != '0',
        decreases k - z,
    {
        if z >= k {
            break;
        }
        if numstr.get_char(start + z) != '0' {
            break;
        }
        z = z + 1;
    }
    proof {
        assert(forall|j: int| 0 <= j < z ==> ip[j] == numstr@[start + j] && ip[j] == '0');
        assert(z < k ==> ip[z as int] != '0');
        lemma_zero_prefix_len_at(ip, z as int);
    }
    if k - z <= max_sig {
        Result::Ok(())
    } else {
        Result::Err(
            NumError {
                kind: NumErrKind::OutOfRange,
                context: String::from_str(context),
                literal: String::from_str(numstr),
                min: 0,
                max: 0,
            },
        )
    }
}

} // verus!
