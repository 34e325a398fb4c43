//! Decimal text for fixed-point values.
//!
//! Formatting renders a [`Fixed`] the way the host renders its metric
//! values: minus sign for negatives, the whole part without leading
//! zeros, and the fractional part with trailing zeros removed and
//! omitted entirely when zero.  Parsing accepts an optional sign, a run
//! of digits, and an optional point followed by more digits; fractional
//! digits beyond the six the representation can hold are truncated.

use vstd::prelude::*;
use vstd::string::StrSliceExecFns;
use vstd::string::StringExecFns;
use crate::fixed::Fixed;
use crate::fixed::SCALE;

verus! {

broadcast use vstd::string::group_string_axioms;

pub open spec fn is_digit(c: char) -> bool {
    48 <= c as int <= 57
}

/// Numeric value of a digit character.
pub open spec fn digit_val(c: char) -> int {
    c as int - 48
}

/// The character that writes the digit `d`.
pub open spec fn digit_char(d: int) -> char {
    "0123456789"@[d]
}

/// Decimal digits of `n`, most significant first, no leading zeros.
pub open spec fn dec_digits(n: nat) -> Seq<char>
    decreases n,
{
    if n < 10 {
        seq![digit_char(n as int)]
    } else {
        dec_digits(n / 10) + seq![digit_char((n % 10) as int)]
    }
}

/// The last `w` decimal digits of `n`, zero padded to width `w`.
pub open spec fn pad_digits(n: nat, w: nat) -> Seq<char>
    decreases w,
{
    if w == 0 {
        Seq::empty()
    } else {
        pad_digits(n / 10, (w - 1) as nat) + seq![digit_char((n % 10) as int)]
    }
}

/// `pad_digits(n, w)` with trailing zeros removed.
pub open spec fn frac_digits(n: nat, w: nat) -> Seq<char>
    decreases w,
{
    if w == 0 {
        Seq::empty()
    } else if n % 10 == 0 {
        frac_digits(n / 10, (w - 1) as nat)
    } else {
        pad_digits(n, w)
    }
}

/// The rendering of the fixed-point value `v` (a count of millionths).
pub open spec fn fixed_str(v: int) -> Seq<char> {
    let a = vstd::math::abs(v) as nat;
    let sign: Seq<char> = if v < 0 {
        seq!['-']
    } else {
        Seq::empty()
    };
    let whole = dec_digits(a / 1_000_000);
    let frac = frac_digits(a % 1_000_000, 6);
    if frac.len() == 0 {
        sign + whole
    } else {
        sign + whole + seq!['.'] + frac
    }
}

fn digit_str(d: u64) -> (r: &'static str)
    requires
        d < 10,
    ensures
        r@ =~= seq![digit_char(d as int)],
{
    proof {
        reveal_strlit("0123456789");
        reveal_strlit("0");
        reveal_strlit("1");
        reveal_strlit("2");
        reveal_strlit("3");
        reveal_strlit("4");
        reveal_strlit("5");
        reveal_strlit("6");
        reveal_strlit("7");
        reveal_strlit("8");
        reveal_strlit("9");
    }
    match d {
        0 => "0",
        1 => "1",
        2 => "2",
        3 => "3",
        4 => "4",
        5 => "5",
        6 => "6",
        7 => "7",
        8 => "8",
        _ => "9",
    }
}

fn push_dec_digits(out: &mut String, n: u64)
    ensures
        final(out)@ == old(out)@ + dec_digits(n as nat),
    decreases n,
{
    if n >= 10 {
        push_dec_digits(out, n / 10);
    }
    let d = digit_str(n % 10);
    out.append(d);
    proof {
        if n < 10 {
            assert(final(out)@ =~= old(out)@ + dec_digits(n as nat));
        } else {
            assert(final(out)@ =~= old(out)@ + dec_digits(n as nat));
        }
    }
}

fn push_pad_digits(out: &mut String, n: u64, w: u64)
    ensures
        final(out)@ == old(out)@ + pad_digits(n as nat, w as nat),
    decreases w,
{
    if w > 0 {
        push_pad_digits(out, n / 10, w - 1);
        let d = digit_str(n % 10);
        out.append(d);
    }
    proof {
        assert(final(out)@ =~= old(out)@ + pad_digits(n as nat, w as nat));
    }
}

/// Renders `v` exactly as [`fixed_str`] describes.
pub fn fixed_to_string(v: Fixed) -> (r: String)
    ensures
        r@ == fixed_str(v@),
{
    let m = v.micros();
    let a: u64 = if m < 0 {
        (-(m as i128)) as u64
    } else {
        m as u64
    };
    let mut out = String::new();
    if m < 0 {
        proof {
            reveal_strlit("-");
        }
        out.append("-");
        proof {
            assert(out@ =~= seq!['-']);
        }
    }
    let whole = a / 1_000_000;
    let frac = a % 1_000_000;
    push_dec_digits(&mut out, whole);
    if frac != 0 {
        proof {
            reveal_strlit(".");
            reveal_with_fuel(spec_pow10_u64, 7);
        }
        out.append(".");
        let mut f = frac;
        let mut w: u64 = 6;
        while f % 10 == 0
            invariant
                0 < f < 1_000_000,
                w <= 6,
                f < spec_pow10_u64(w as nat),
                frac_digits(f as nat, w as nat) == frac_digits(frac as nat, 6),
            decreases w,
        {
            proof {
                lemma_div_bound(f as nat, w as nat);
            }
            f = f / 10;
            w = w - 1;
        }
        proof {
            if w == 0 {
                reveal_with_fuel(spec_pow10_u64, 1);
                assert(f < 1);
            }
            lemma_pad_len(f as nat, w as nat);
        }
        push_pad_digits(&mut out, f, w);
        proof {
            assert(frac_digits(frac as nat, 6) == pad_digits(f as nat, w as nat));
            assert(out@ =~= fixed_str(v@));
        }
    } else {
        proof {
            lemma_frac_digits_zero(6);
            assert(out@ =~= fixed_str(v@));
        }
    }
    out
}

proof fn lemma_pad_len(n: nat, w: nat)
    ensures
        pad_digits(n, w).len() == w,
    decreases w,
{
    if w > 0 {
        lemma_pad_len(n / 10, (w - 1) as nat);
    }
}

proof fn lemma_frac_digits_zero(w: nat)
    ensures
        frac_digits(0, w).len() == 0,
    decreases w,
{
    if w > 0 {
        lemma_frac_digits_zero((w - 1) as nat);
    }
}

/// `10^w`, for bounding stripped fraction digits.
pub open spec fn spec_pow10_u64(w: nat) -> nat
    decreases w,
{
    if w == 0 {
        1
    } else {
        10 * spec_pow10_u64((w - 1) as nat)
    }
}

proof fn lemma_div_bound(f: nat, w: nat)
    requires
        0 < f < spec_pow10_u64(w),
        f % 10 == 0,
    ensures
        w >= 1,
        f / 10 < spec_pow10_u64((w - 1) as nat),
        f / 10 > 0,
{
    if w == 0 {
        assert(f < 1);
    }
    assert(f / 10 < spec_pow10_u64((w - 1) as nat)) by {
        assert(spec_pow10_u64(w) == 10 * spec_pow10_u64((w - 1) as nat));
        assert(f / 10 * 10 <= f) by (nonlinear_arith)
            requires
                f >= 0,
        ;
    }
}

/// Position of the first `'.'` in `s` at or after `i`, or `s.len()`.
pub open spec fn find_dot(s: Seq<char>, i: int) -> int
    decreases s.len() - i,
{
    if i < 0 || i >= s.len() {
        s.len() as int
    } else if s[i] == '.' {
        i
    } else {
        find_dot(s, i + 1)
    }
}

pub open spec fn all_digits(s: Seq<char>) -> bool {
    forall|i: int| 0 <= i < s.len() ==> is_digit(#[trigger] s[i])
}

/// Value of a digit string read most significant first.
pub open spec fn digits_val(s: Seq<char>) -> int
    decreases s.len(),
{
    if s.len() == 0 {
        0
    } else {
        digits_val(s.drop_last()) * 10 + digit_val(s.last())
    }
}

/// Millionths written by a fraction digit string; digits beyond the
/// sixth are below the representable resolution and do not count.
pub open spec fn frac_val(s: Seq<char>) -> int {
    let k: int = if s.len() < 6 {
        s.len() as int
    } else {
        6
    };
    digits_val(s.subrange(0, k)) * spec_pow10_u64((6 - k) as nat)
}

/// The number of millionths denoted by an unsigned decimal: digits, an
/// optional point, more digits; at least one digit in all.
pub open spec fn parse_unsigned(s: Seq<char>) -> Option<int> {
    let p = find_dot(s, 0);
    let ip = s.subrange(0, p);
    let fp: Seq<char> = if p < s.len() {
        s.subrange(p + 1, s.len() as int)
    } else {
        Seq::empty()
    };
    if all_digits(ip) && all_digits(fp) && ip.len() + fp.len() > 0 {
        Some(digits_val(ip) * (SCALE as int) + frac_val(fp))
    } else {
        None
    }
}

/// The number of millionths denoted by a decimal with an optional sign.
pub open spec fn parse_decimal(s: Seq<char>) -> Option<int> {
    if s.len() > 0 && (s[0] == '+' || s[0] == '-') {
        match parse_unsigned(s.subrange(1, s.len() as int)) {
            Some(v) => Some(
                if s[0] == '-' {
                    -v
                } else {
                    v
                },
            ),
            None => None,
        }
    } else {
        parse_unsigned(s)
    }
}

/// What [`parse_fixed`] returns: the denoted value when representable.
pub open spec fn parse_fixed_spec(s: Seq<char>) -> Option<int> {
    match parse_decimal(s) {
        Some(v) => if -(i64::MAX as int) <= v <= i64::MAX as int {
            Some(v)
        } else {
            None
        },
        None => None,
    }
}

/// Digit accumulators saturate here; any value this large is out of
/// range for a metric whatever digits follow.
pub const DIGIT_CAP: u128 = 100_000_000_000_000_000_000;

pub open spec fn cap_val(v: int) -> int {
    if v > DIGIT_CAP as int {
        DIGIT_CAP as int
    } else {
        v
    }
}

fn digit_of(c: char) -> (r: Option<u64>)
    ensures
        match r {
            Some(d) => is_digit(c) && d == digit_val(c) && d <= 9,
            None => !is_digit(c),
        },
{
    let u = c as u32;
    if 48 <= u && u <= 57 {
        Some((u - 48) as u64)
    } else {
        None
    }
}

proof fn lemma_digits_val_bounds(s: Seq<char>)
    requires
        all_digits(s),
    ensures
        0 <= digits_val(s) < spec_pow10_u64(s.len()),
    decreases s.len(),
{
    if s.len() > 0 {
        assert(all_digits(s.drop_last()));
        lemma_digits_val_bounds(s.drop_last());
        assert(is_digit(s.last()));
    }
}

proof fn lemma_find_dot_reaches(s: Seq<char>, i: int, k: int)
    requires
        0 <= i <= k <= s.len(),
        forall|j: int| i <= j < k ==> #[trigger] s[j] != '.',
    ensures
        find_dot(s, i) == find_dot(s, k),
    decreases k - i,
{
    if i < k {
        lemma_find_dot_reaches(s, i + 1, k);
    }
}

proof fn lemma_find_dot_le(s: Seq<char>, i: int)
    requires
        0 <= i <= s.len(),
    ensures
        i <= find_dot(s, i) <= s.len(),
        find_dot(s, i) < s.len() ==> s[find_dot(s, i)] == '.',
    decreases s.len() - i,
{
    if i < s.len() && s[i] != '.' {
        lemma_find_dot_le(s, i + 1);
    }
}

/// Reads the digit run of `s` that starts at `from`: its end, its value
/// capped at [`DIGIT_CAP`], and the value of its first six digits.
fn scan_digits(s: &str, from: usize, n: usize) -> (r: (usize, u128, u64))
    requires
        n == s@.len(),
        from <= n,
    ensures
        ({
            let (end, acc, first6) = r;
            let k: int = if end - from < 6 {
                end - from
            } else {
                6
            };
            &&& from <= end <= n
            &&& forall|j: int| from <= j < end ==> is_digit(#[trigger] s@[j])
            &&& (end < n ==> !is_digit(s@[end as int]))
            &&& acc == cap_val(digits_val(s@.subrange(from as int, end as int)))
            &&& first6 == digits_val(s@.subrange(from as int, from + k))
            &&& first6 < 1_000_000
        }),
{
    let mut i = from;
    let mut acc: u128 = 0;
    let mut first6: u64 = 0;
    proof {
        reveal_with_fuel(spec_pow10_u64, 7);
    }
    while i < n
        invariant_except_break
            n == s@.len(),
            from <= i <= n,
            forall|j: int| from <= j < i ==> is_digit(#[trigger] s@[j]),
            acc == cap_val(digits_val(s@.subrange(from as int, i as int))),
            acc <= DIGIT_CAP,
            ({
                let k: int = if i - from < 6 {
                    i - from
                } else {
                    6
                };
                first6 == digits_val(s@.subrange(from as int, from + k)) && first6
                    < spec_pow10_u64(k as nat)
            }),
        ensures
            from <= i <= n,
            forall|j: int| from <= j < i ==> is_digit(#[trigger] s@[j]),
            i < n ==> !is_digit(s@[i as int]),
            acc == cap_val(digits_val(s@.subrange(from as int, i as int))),
            ({
                let k: int = if i - from < 6 {
                    i - from
                } else {
                    6
                };
                first6 == digits_val(s@.subrange(from as int, from + k)) && first6
                    < spec_pow10_u64(k as nat)
            }),
        decreases n - i,
    {
        let c = s.get_char(i);
        match digit_of(c) {
            None => {
                break ;
            },
            Some(d) => {
                proof {
                    let pref = s@.subrange(from as int, i as int);
                    let next = s@.subrange(from as int, i as int + 1);
                    assert(next.drop_last() =~= pref);
                    assert(next.last() == s@[i as int]);
                    assert(all_digits(pref));
                    lemma_digits_val_bounds(pref);
                    if i - from < 6 {
                        let kpref = s@.subrange(from as int, from + (i - from));
                        let knext = s@.subrange(from as int, from + (i - from) + 1);
                        assert(knext.drop_last() =~= kpref);
                        assert(all_digits(kpref));
                        lemma_digits_val_bounds(kpref);
                    }
                    reveal_with_fuel(spec_pow10_u64, 7);
                }
                let t: u128 = acc * 10 + d as u128;
                acc = if t > DIGIT_CAP {
                    DIGIT_CAP
                } else {
                    t
                };
                if i - from < 6 {
                    first6 = first6 * 10 + d;
                }
                i = i + 1;
            },
        }
    }
    proof {
        reveal_with_fuel(spec_pow10_u64, 7);
    }
    (i, acc, first6)
}

fn pow10_exec(w: u64) -> (r: u64)
    requires
        w <= 6,
    ensures
        r as nat == spec_pow10_u64(w as nat),
        1 <= r <= 1_000_000,
{
    proof {
        reveal_with_fuel(spec_pow10_u64, 7);
    }
    match w {
        0 => 1,
        1 => 10,
        2 => 100,
        3 => 1_000,
        4 => 10_000,
        5 => 100_000,
        _ => 1_000_000,
    }
}

/// Parses a decimal with an optional sign into a fixed-point value,
/// exactly as [`parse_fixed_spec`] describes.
#[verifier::rlimit(50)]
pub fn parse_fixed(s: &str) -> (r: Option<Fixed>)
    ensures
        (match r {
            Some(f) => Some(f@),
            None => None::<int>,
        }) == parse_fixed_spec(s@),
{
    let n = s.unicode_len();
    let mut start: usize = 0;
    let mut neg = false;
    if n > 0 {
        let c0 = s.get_char(0);
        if c0 == '-' {
            neg = true;
            start = 1;
        } else if c0 == '+' {
            start = 1;
        }
    }
    let ghost body = s@.subrange(start as int, n as int);
    proof {
        if start == 0 {
            assert(body =~= s@);
        }
    }
    let (iend, acc, _ifirst) = scan_digits(s, start, n);
    proof {
        assert forall|j: int| 0 <= j < iend - start implies #[trigger] body[j] != '.' by {
            assert(body[j] == s@[start + j]);
            assert(is_digit(s@[start + j]));
        }
        lemma_find_dot_reaches(body, 0, iend - start);
    }
    let ghost p = find_dot(body, 0);
    let ghost ip = body.subrange(0, p);
    let ghost fp: Seq<char> = if p < body.len() {
        body.subrange(p + 1, body.len() as int)
    } else {
        Seq::empty()
    };
    if iend == n {
        // the whole body is one digit run: no dot, no fraction
        proof {
            assert(p == find_dot(body, iend - start));
            assert(p == body.len());
            assert(ip =~= body);
            assert(ip =~= s@.subrange(start as int, iend as int));
            assert(all_digits(ip)) by {
                assert forall|t: int| 0 <= t < ip.len() implies is_digit(#[trigger] ip[t]) by {
                    assert(ip[t] == s@[start + t]);
                }
            }
        }
        if iend == start {
            proof {
                assert(ip.len() + fp.len() == 0);
                assert(parse_unsigned(body) is None);
            }
            return None;
        }
        finish_parse(acc, 0, neg, Ghost(s@), Ghost(ip), Ghost(fp))
    } else {
        let cd = s.get_char(iend);
        if cd == '.' {
            proof {
                assert(body[iend - start] == '.');
                assert(find_dot(body, iend - start) == iend - start);
                assert(p == iend - start);
                assert(ip =~= s@.subrange(start as int, iend as int));
                assert(all_digits(ip)) by {
                    assert forall|t: int| 0 <= t < ip.len() implies is_digit(#[trigger] ip[t]) by {
                        assert(ip[t] == s@[start + t]);
                    }
                }
                assert(fp =~= s@.subrange(iend + 1, n as int));
            }
            let fstart = iend + 1;
            let (fend, _facc, frac6) = scan_digits(s, fstart, n);
            if fend < n {
                // something that is neither a digit nor the first dot remains
                proof {
                    let t = fend - fstart;
                    assert(fp[t] == s@[fend as int]);
                    assert(!is_digit(fp[t]));
                    assert(!all_digits(fp));
                    assert(parse_unsigned(body) is None);
                }
                return None;
            }
            if iend == start && fend == fstart {
                proof {
                    assert(ip.len() + fp.len() == 0);
                    assert(parse_unsigned(body) is None);
                }
                return None;
            }
            let fcount = fend - fstart;
            let kk: usize = if fcount < 6 {
                fcount
            } else {
                6
            };
            let pw = pow10_exec(6 - kk as u64);
            proof {
                assert(frac6 * pw <= 1_000_000 * 1_000_000) by (nonlinear_arith)
                    requires
                        frac6 <= 1_000_000 && pw <= 1_000_000,
                ;
            }
            let frac_micros: u64 = frac6 * pw;
            proof {
                assert(all_digits(fp)) by {
                    assert forall|t: int| 0 <= t < fp.len() implies is_digit(#[trigger] fp[t]) by {
                        assert(fp[t] == s@[fstart + t]);
                    }
                }
                assert(fp.subrange(0, kk as int) =~= s@.subrange(fstart as int, fstart + kk));
                assert(frac_micros as int == frac_val(fp));
            }
            finish_parse(acc, frac_micros, neg, Ghost(s@), Ghost(ip), Ghost(fp))
        } else {
            // a character that is neither a digit nor a dot stops the parse
            proof {
                lemma_find_dot_le(body, iend - start);
                if p == iend - start {
                    assert(body[p] == '.');
                }
                assert(p > iend - start);
                assert(ip[iend - start] == s@[iend as int]);
                assert(!is_digit(ip[iend - start]));
                assert(!all_digits(ip));
                assert(parse_unsigned(body) is None);
            }
            None
        }
    }
}

/// Builds the signed fixed-point result from the scanned parts and
/// applies the range check.
fn finish_parse(
    acc: u128,
    frac_micros: u64,
    neg: bool,
    Ghost(sv): Ghost<Seq<char>>,
    Ghost(ip): Ghost<Seq<char>>,
    Ghost(fp): Ghost<Seq<char>>,
) -> (r: Option<Fixed>)
    requires
        all_digits(ip),
        all_digits(fp),
        ip.len() + fp.len() > 0,
        acc == cap_val(digits_val(ip)),
        frac_micros as int == frac_val(fp),
        frac_micros <= 1_000_000_000_000,
        parse_decimal(sv) == Some(
            if neg {
                -(digits_val(ip) * (SCALE as int) + frac_val(fp))
            } else {
                digits_val(ip) * (SCALE as int) + frac_val(fp)
            },
        ),
    ensures
        (match r {
            Some(f) => Some(f@),
            None => None::<int>,
        }) == parse_fixed_spec(sv),
{
    proof {
        lemma_digits_val_bounds(ip);
        let k: int = if fp.len() < 6 {
            fp.len() as int
        } else {
            6
        };
        assert(all_digits(fp.subrange(0, k))) by {
            assert forall|t: int| 0 <= t < k implies is_digit(#[trigger] fp.subrange(0, k)[t]) by {
                assert(fp.subrange(0, k)[t] == fp[t]);
            }
        }
        lemma_digits_val_bounds(fp.subrange(0, k));
        vstd::arithmetic::mul::lemma_mul_nonnegative(
            digits_val(fp.subrange(0, k)),
            spec_pow10_u64((6 - k) as nat) as int,
        );
        assert(frac_val(fp) >= 0);
    }
    let total: u128 = acc * 1_000_000 + frac_micros as u128;
    let ghost v = digits_val(ip) * (SCALE as int) + frac_val(fp);
    proof {
        if acc == DIGIT_CAP {
            assert(digits_val(ip) >= DIGIT_CAP as int);
            assert(digits_val(ip) * (SCALE as int) >= DIGIT_CAP as int * (SCALE as int))
                by (nonlinear_arith)
                requires
                    digits_val(ip) >= DIGIT_CAP as int && (SCALE as int) > 0,
            ;
            assert(v > i64::MAX as int);
            assert(total > i64::MAX as u128);
        } else {
            assert(acc as int == digits_val(ip));
            assert(total as int == v);
        }
    }
    if total > i64::MAX as u128 {
        proof {
            assert(v > i64::MAX as int);
            assert(parse_fixed_spec(sv) is None);
        }
        None
    } else {
        let m = total as i64;
        if neg {
            proof {
                assert(parse_fixed_spec(sv) == Some(-v));
            }
            Some(Fixed::from_micros(-m))
        } else {
            proof {
                assert(parse_fixed_spec(sv) == Some(v));
            }
            Some(Fixed::from_micros(m))
        }
    }
}

/// The integer denoted by an optionally signed digit string.
pub open spec fn parse_int_spec(s: Seq<char>) -> Option<int> {
    let body: Seq<char> = if s.len() > 0 && (s[0] == '+' || s[0] == '-') {
        s.subrange(1, s.len() as int)
    } else {
        s
    };
    if all_digits(body) && body.len() > 0 {
        if s.len() > 0 && s[0] == '-' {
            Some(-digits_val(body))
        } else {
            Some(digits_val(body))
        }
    } else {
        None
    }
}

/// What [`parse_i64`] returns: the denoted integer when it fits.
pub open spec fn parse_i64_spec(s: Seq<char>) -> Option<int> {
    match parse_int_spec(s) {
        Some(v) => if i64::MIN as int <= v <= i64::MAX as int {
            Some(v)
        } else {
            None
        },
        None => None,
    }
}

/// What [`parse_u64`] returns: unsigned, so a minus sign is refused.
pub open spec fn parse_u64_spec(s: Seq<char>) -> Option<int> {
    if s.len() > 0 && s[0] == '-' {
        None
    } else {
        match parse_int_spec(s) {
            Some(v) => if v <= u64::MAX as int {
                Some(v)
            } else {
                None
            },
            None => None,
        }
    }
}

/// Parses an optionally signed run of digits as a 64-bit integer,
/// exactly as [`parse_i64_spec`] describes.
pub fn parse_i64(s: &str) -> (r: Option<i64>)
    ensures
        (match r {
            Some(v) => Some(v as int),
            None => None::<int>,
        }) == parse_i64_spec(s@),
{
    let n = s.unicode_len();
    let mut start: usize = 0;
    let mut neg = false;
    if n > 0 {
        let c0 = s.get_char(0);
        if c0 == '-' {
            neg = true;
            start = 1;
        } else if c0 == '+' {
            start = 1;
        }
    }
    let ghost body = s@.subrange(start as int, n as int);
    proof {
        if start == 0 {
            assert(body =~= s@);
        }
    }
    let (iend, acc, _first6) = scan_digits(s, start, n);
    if iend < n {
        proof {
            assert(!is_digit(body[iend - start]));
            assert(!all_digits(body));
        }
        return None;
    }
    if iend == start {
        proof {
            assert(body.len() == 0);
        }
        return None;
    }
    proof {
        assert(body =~= s@.subrange(start as int, iend as int));
        assert(all_digits(body)) by {
            assert forall|t: int| 0 <= t < body.len() implies is_digit(#[trigger] body[t]) by {
                assert(body[t] == s@[start + t]);
            }
        }
        lemma_digits_val_bounds(body);
        if acc == DIGIT_CAP {
            assert(digits_val(body) >= DIGIT_CAP as int);
        } else {
            assert(acc as int == digits_val(body));
        }
    }
    if neg {
        if acc > 9_223_372_036_854_775_808u128 {
            None
        } else if acc == 9_223_372_036_854_775_808u128 {
            Some(i64::MIN)
        } else {
            Some(-(acc as i64))
        }
    } else {
        if acc > i64::MAX as u128 {
            None
        } else {
            Some(acc as i64)
        }
    }
}

/// Parses an unsigned run of digits (a leading plus allowed) as a
/// 64-bit integer, exactly as [`parse_u64_spec`] describes.
pub fn parse_u64(s: &str) -> (r: Option<u64>)
    ensures
        (match r {
            Some(v) => Some(v as int),
            None => None::<int>,
        }) == parse_u64_spec(s@),
{
    let n = s.unicode_len();
    let mut start: usize = 0;
    if n > 0 {
        let c0 = s.get_char(0);
        if c0 == '-' {
            return None;
        }
        if c0 == '+' {
            start = 1;
        }
    }
    let ghost body = s@.subrange(start as int, n as int);
    proof {
        if start == 0 {
            assert(body =~= s@);
        }
    }
    let (iend, acc, _first6) = scan_digits(s, start, n);
    if iend < n {
        proof {
            assert(!is_digit(body[iend - start]));
            assert(!all_digits(body));
        }
        return None;
    }
    if iend == start {
        proof {
            assert(body.len() == 0);
        }
        return None;
    }
    proof {
        assert(body =~= s@.subrange(start as int, iend as int));
        assert(all_digits(body)) by {
            assert forall|t: int| 0 <= t < body.len() implies is_digit(#[trigger] body[t]) by {
                assert(body[t] == s@[start + t]);
            }
        }
        lemma_digits_val_bounds(body);
        if acc == DIGIT_CAP {
            assert(digits_val(body) >= DIGIT_CAP as int);
        } else {
            assert(acc as int == digits_val(body));
        }
    }
    if acc > u64::MAX as u128 {
        None
    } else {
        Some(acc as u64)
    }
}

proof fn lemma_digit_char_val(d: int)
    requires
        0 <= d <= 9,
    ensures
        is_digit(digit_char(d)),
        digit_val(digit_char(d)) == d,
{
    reveal_strlit("0123456789");
    if d == 0 {
        assert(digit_char(0) == '0');
    } else if d == 1 {
        assert(digit_char(1) == '1');
    } else if d == 2 {
        assert(digit_char(2) == '2');
    } else if d == 3 {
        assert(digit_char(3) == '3');
    } else if d == 4 {
        assert(digit_char(4) == '4');
    } else if d == 5 {
        assert(digit_char(5) == '5');
    } else if d == 6 {
        assert(digit_char(6) == '6');
    } else if d == 7 {
        assert(digit_char(7) == '7');
    } else if d == 8 {
        assert(digit_char(8) == '8');
    } else {
        assert(digit_char(9) == '9');
    }
}

proof fn lemma_dec_digits_val(n: nat)
    ensures
        all_digits(dec_digits(n)),
        digits_val(dec_digits(n)) == n,
        dec_digits(n).len() >= 1,
    decreases n,
{
    if n < 10 {
        lemma_digit_char_val(n as int);
        let dd = dec_digits(n);
        assert(dd.len() == 1);
        assert(dd.drop_last() =~= Seq::<char>::empty());
        assert(digits_val(dd.drop_last()) == 0);
        assert(dd.last() == digit_char(n as int));
        assert(digit_val(dd.last()) == n);
        assert(digits_val(dd) == digits_val(dd.drop_last()) * 10 + digit_val(dd.last()));
    } else {
        lemma_dec_digits_val(n / 10);
        lemma_digit_char_val((n % 10) as int);
        let pre = dec_digits(n / 10);
        let dd = dec_digits(n);
        assert(dd.len() == pre.len() + 1);
        assert(dd.drop_last() =~= pre);
        assert(dd.last() == digit_char((n % 10) as int));
        assert(digits_val(dd) == digits_val(pre) * 10 + digit_val(dd.last()));
        assert(n / 10 * 10 + n % 10 == n);
        assert(all_digits(dd)) by {
            assert forall|i: int| 0 <= i < dd.len() implies is_digit(#[trigger] dd[i]) by {
                if i < pre.len() {
                    assert(dd[i] == pre[i]);
                }
            }
        }
    }
}

proof fn lemma_pad_digits_val(f: nat, w: nat)
    requires
        f < spec_pow10_u64(w),
    ensures
        all_digits(pad_digits(f, w)),
        digits_val(pad_digits(f, w)) == f,
        pad_digits(f, w).len() == w,
    decreases w,
{
    lemma_pad_len(f, w);
    if w == 0 {
        assert(f < 1);
    } else {
        assert(spec_pow10_u64(w) == 10 * spec_pow10_u64((w - 1) as nat));
        assert(f / 10 < spec_pow10_u64((w - 1) as nat)) by {
            assert(f / 10 * 10 <= f) by (nonlinear_arith)
                requires
                    f >= 0,
            ;
        }
        lemma_pad_digits_val(f / 10, (w - 1) as nat);
        lemma_digit_char_val((f % 10) as int);
        let pre = pad_digits(f / 10, (w - 1) as nat);
        let pd = pad_digits(f, w);
        assert(pd.drop_last() =~= pre);
        assert(pd.last() == digit_char((f % 10) as int));
        assert(all_digits(pd)) by {
            assert forall|i: int| 0 <= i < pd.len() implies is_digit(#[trigger] pd[i]) by {
                if i < pre.len() {
                    assert(pd[i] == pre[i]);
                }
            }
        }
    }
}

proof fn lemma_frac_digits_val(f: nat, w: nat)
    requires
        0 < f < spec_pow10_u64(w),
    ensures
        all_digits(frac_digits(f, w)),
        1 <= frac_digits(f, w).len() <= w,
        digits_val(frac_digits(f, w)) * spec_pow10_u64((w - frac_digits(f, w).len()) as nat) == f,
    decreases w,
{
    if w == 0 {
        assert(f < 1);
    } else if f % 10 == 0 {
        lemma_div_bound(f, w);
        lemma_frac_digits_val(f / 10, (w - 1) as nat);
        let fd = frac_digits(f, w);
        let dv = digits_val(fd);
        let k = ((w - 1) - fd.len()) as nat;
        assert(dv * spec_pow10_u64(k) == f / 10);
        assert(spec_pow10_u64((w - fd.len()) as nat) == 10 * spec_pow10_u64(k));
        assert(dv * (10 * spec_pow10_u64(k)) == dv * spec_pow10_u64(k) * 10) by (nonlinear_arith);
        assert(f / 10 * 10 == f);
    } else {
        lemma_pad_digits_val(f, w);
        let fd = frac_digits(f, w);
        assert(fd.len() == w);
        assert(spec_pow10_u64(0) == 1);
        assert((w - fd.len()) as nat == 0);
        assert(digits_val(fd) * 1 == f);
        assert(fd.len() >= 1) by {
            if w == 0 {
                assert(f < 1);
            }
        }
    }
}

/// Formatting and parsing agree: the rendering of any representable
/// value reads back as exactly that value.  The one value left out is
/// the far end of the range, whose magnitude has no representable
/// negation.
#[verifier::rlimit(50)]
pub proof fn lemma_fixed_str_parses_back(v: int)
    requires
        -(i64::MAX as int) <= v <= i64::MAX as int,
    ensures
        parse_fixed_spec(fixed_str(v)) == Some(v),
{
    let a = vstd::math::abs(v) as nat;
    let whole = a / 1_000_000;
    let frac = a % 1_000_000;
    let wd = dec_digits(whole);
    lemma_dec_digits_val(whole);
    reveal_with_fuel(spec_pow10_u64, 7);
    let s = fixed_str(v);
    let b: Seq<char> = if frac == 0 {
        wd
    } else {
        wd + seq!['.'] + frac_digits(frac, 6)
    };
    if frac == 0 {
        lemma_frac_digits_zero(6);
        if v < 0 {
            assert(s =~= seq!['-'] + wd);
        } else {
            assert(s =~= wd);
        }
    } else {
        lemma_frac_digits_val(frac, 6);
        if v < 0 {
            assert(s =~= seq!['-'] + b);
        } else {
            assert(s =~= b);
        }
    }
    // the unsigned body b is digits, then possibly a dot and more digits
    let fd = frac_digits(frac, 6);
    assert(parse_unsigned(b) == Some(a as int)) by {
        assert forall|j: int| 0 <= j < wd.len() implies #[trigger] b[j] != '.' by {
            assert(b[j] == wd[j]);
            assert(is_digit(wd[j]));
        }
        lemma_find_dot_reaches(b, 0, wd.len() as int);
        if frac == 0 {
            assert(find_dot(b, wd.len() as int) == b.len());
            let ip = b.subrange(0, b.len() as int);
            assert(ip =~= wd);
            assert(digits_val(wd) * (SCALE as int) + frac_val(Seq::<char>::empty()) == a) by {
                assert(Seq::<char>::empty().subrange(0, 0) =~= Seq::<char>::empty());
                assert(frac_val(Seq::<char>::empty()) == 0);
            }
        } else {
            lemma_frac_digits_val(frac, 6);
            assert(b[wd.len() as int] == '.');
            assert(find_dot(b, wd.len() as int) == wd.len());
            let p = wd.len() as int;
            let ip = b.subrange(0, p);
            let fp = b.subrange(p + 1, b.len() as int);
            assert(ip =~= wd);
            assert(fp =~= fd);
            assert(frac_val(fp) == frac) by {
                let k: int = if fp.len() < 6 {
                    fp.len() as int
                } else {
                    6
                };
                assert(fd.len() <= 6);
                assert(k == fd.len());
                assert(fp.subrange(0, k) =~= fd);
            }
            assert(digits_val(ip) * (SCALE as int) + frac_val(fp) == a);
        }
    }
    // the sign strips off to the unsigned body
    if v < 0 {
        assert(s[0] == '-');
        assert(s.subrange(1, s.len() as int) =~= b);
        assert(parse_decimal(s) == Some(-(a as int)));
        assert(parse_fixed_spec(s) == Some(v));
    } else {
        assert(s[0] == b[0]);
        assert(is_digit(b[0])) by {
            if wd.len() > 0 {
                assert(b[0] == wd[0]);
            }
        }
        assert(s[0] != '+' && s[0] != '-');
        assert(s =~= b);
        assert(parse_decimal(s) == Some(a as int));
        assert(parse_fixed_spec(s) == Some(v));
    }
}

} // verus!
