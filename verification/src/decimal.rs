//! Decimal text for fixed-point quantities.
//!
//! Parsing accepts an optional sign, a run of digits, and an optional
//! fractional part introduced by `'.'`; the value is truncated to the
//! four fractional digits the fixed-point representation keeps.
//! Formatting renders a fixed-point value back as decimal text, either
//! with the full four fractional digits or rounded to one.

use vstd::prelude::*;
use vstd::seq_lib::*;

verus! {

/// Largest whole-unit magnitude the parser accepts (eight nines); this
/// keeps every parsed fixed-point value within `FIXED_MAG_LIMIT`.
pub const MAX_WHOLE_UNITS: u64 = 99_999_999;

/// Whether `c` is a decimal digit.
pub open spec fn is_digit_char(c: char) -> bool {
    48 <= c as int <= 57
}

/// Numeric value of a digit character.
pub open spec fn char_digit(c: char) -> int {
    c as int - 48
}

/// Whether every character of `s` is a decimal digit.
pub open spec fn all_digits(s: Seq<char>) -> bool {
    forall|i: int| 0 <= i < s.len() ==> is_digit_char(#[trigger] s[i])
}

/// Value of a digit string read most-significant first.
pub open spec fn digits_val(s: Seq<char>) -> int
    decreases s.len(),
{
    if s.len() == 0 {
        0
    } else {
        digits_val(s.drop_last()) * 10 + char_digit(s.last())
    }
}

/// Ten to the `n`th power.
pub open spec fn pow10(n: nat) -> int
    decreases n,
{
    if n == 0 {
        1
    } else {
        10 * pow10((n - 1) as nat)
    }
}

/// Value in ten-thousandths contributed by the fractional digit string
/// `s`: the first four digits, zero-padded on the right.
pub open spec fn frac4_val(s: Seq<char>) -> int {
    if s.len() >= 4 {
        digits_val(s.subrange(0, 4))
    } else {
        digits_val(s) * pow10((4 - s.len()) as nat)
    }
}

/// Value of an unsigned decimal string in fixed-point ten-thousandths,
/// or `None` when the text is not a plain decimal or its whole part
/// exceeds `MAX_WHOLE_UNITS`.
pub open spec fn spec_parse_unsigned(s: Seq<char>) -> Option<int> {
    match s.index_of_first('.') {
        None => if s.len() > 0 && all_digits(s) && digits_val(s) <= MAX_WHOLE_UNITS {
            Some(digits_val(s) * 10000)
        } else {
            None
        },
        Some(dot) => {
            let whole = s.subrange(0, dot);
            let frac = s.subrange(dot + 1, s.len() as int);
            if whole.len() > 0 && frac.len() > 0 && all_digits(whole) && all_digits(frac)
                && digits_val(whole) <= MAX_WHOLE_UNITS {
                Some(digits_val(whole) * 10000 + frac4_val(frac))
            } else {
                None
            }
        },
    }
}

/// Value of a signed decimal string in fixed-point ten-thousandths.
pub open spec fn spec_parse_fixed(s: Seq<char>) -> Option<int> {
    let neg = s.len() > 0 && s[0] == '-';
    let body = if s.len() > 0 && (s[0] == '-' || s[0] == '+') {
        s.drop_first()
    } else {
        s
    };
    match spec_parse_unsigned(body) {
        None => None,
        Some(m) => Some(if neg { -m } else { m }),
    }
}

/// A digit string has a nonnegative value.
pub proof fn lemma_digits_val_nonneg(s: Seq<char>)
    requires
        all_digits(s),
    ensures
        digits_val(s) >= 0,
    decreases s.len(),
{
    if s.len() > 0 {
        assert(all_digits(s.drop_last()));
        lemma_digits_val_nonneg(s.drop_last());
    }
}

/// Extending a digit string never lowers its value.
pub proof fn lemma_digits_val_prefix(s: Seq<char>, i: int)
    requires
        all_digits(s),
        0 <= i <= s.len(),
    ensures
        digits_val(s.subrange(0, i)) <= digits_val(s),
    decreases s.len(),
{
    if i == s.len() {
        assert(s.subrange(0, i) =~= s);
    } else {
        let shorter = s.drop_last();
        assert(all_digits(shorter));
        lemma_digits_val_prefix(shorter, i);
        assert(shorter.subrange(0, i) =~= s.subrange(0, i));
        lemma_digits_val_nonneg(shorter);
    }
}

/// Tests whether `c` is a decimal digit and returns its value.
pub fn char_to_digit(c: char) -> (r: Option<u8>)
    ensures
        r is Some <==> is_digit_char(c),
        r matches Some(d) ==> d == char_digit(c),
{
    let x = c as u32;
    if 48 <= x && x <= 57 {
        Some((x - 48) as u8)
    } else {
        None
    }
}

/// Reads the digit-string value of `s[lo..hi)`, refusing empty or
/// non-digit text and values above `MAX_WHOLE_UNITS`.
pub fn parse_digits_range(s: &str, lo: usize, hi: usize) -> (r: Option<u64>)
    requires
        lo <= hi <= s@.len(),
    ensures
        ({
            let part = s@.subrange(lo as int, hi as int);
            match r {
                Some(v) => part.len() > 0 && all_digits(part) && v == digits_val(part)
                    && v <= MAX_WHOLE_UNITS,
                None => !(part.len() > 0 && all_digits(part) && digits_val(part)
                    <= MAX_WHOLE_UNITS),
            }
        }),
{
    let ghost part = s@.subrange(lo as int, hi as int);
    if lo == hi {
        return None;
    }
    let mut acc: u64 = 0;
    let mut j: usize = lo;
    while j < hi
        invariant
            lo <= j <= hi <= s@.len(),
            part == s@.subrange(lo as int, hi as int),
            all_digits(s@.subrange(lo as int, j as int)),
            acc == digits_val(s@.subrange(lo as int, j as int)),
            acc <= MAX_WHOLE_UNITS,
        decreases hi - j,
    {
        let c = s.get_char(j);
        let ghost pre = s@.subrange(lo as int, j as int);
        let ghost cur = s@.subrange(lo as int, j + 1 as int);
        proof {
            assert(cur.drop_last() =~= pre);
            assert(cur.last() == s@[j as int]);
        }
        match char_to_digit(c) {
            None => {
                proof {
                    assert(!is_digit_char(part[j - lo]));
                }
                return None;
            },
            Some(d) => {
                let next: u64 = acc * 10 + (d as u64);
                proof {
                    assert(forall|k: int| 0 <= k < cur.len() ==> is_digit_char(#[trigger] cur[k]));
                    assert(digits_val(cur) == digits_val(pre) * 10 + char_digit(s@[j as int]));
                }
                if next > MAX_WHOLE_UNITS {
                    proof {
                        if all_digits(part) {
                            lemma_digits_val_prefix(part, j + 1 - lo as int);
                            assert(part.subrange(0, j + 1 - lo as int) =~= cur);
                        }
                    }
                    return None;
                }
                acc = next;
            },
        }
        j = j + 1;
    }
    proof {
        assert(s@.subrange(lo as int, j as int) =~= part);
    }
    Some(acc)
}

/// Reads the fractional digit string `s[lo..hi)` as ten-thousandths,
/// refusing empty or non-digit text.
pub fn parse_frac_range(s: &str, lo: usize, hi: usize) -> (r: Option<u64>)
    requires
        lo <= hi <= s@.len(),
    ensures
        ({
            let part = s@.subrange(lo as int, hi as int);
            match r {
                Some(v) => part.len() > 0 && all_digits(part) && v == frac4_val(part) && v < 10000,
                None => !(part.len() > 0 && all_digits(part)),
            }
        }),
{
    let ghost part = s@.subrange(lo as int, hi as int);
    if lo == hi {
        return None;
    }
    // Every character must be a digit, even past the four that are kept.
    let mut j: usize = lo;
    while j < hi
        invariant
            lo <= j <= hi <= s@.len(),
            part == s@.subrange(lo as int, hi as int),
            all_digits(s@.subrange(lo as int, j as int)),
        decreases hi - j,
    {
        let c = s.get_char(j);
        let ghost cur = s@.subrange(lo as int, j + 1 as int);
        proof {
            assert(cur.drop_last() =~= s@.subrange(lo as int, j as int));
            assert(cur.last() == s@[j as int]);
        }
        if char_to_digit(c).is_none() {
            proof {
                assert(!is_digit_char(part[j - lo]));
            }
            return None;
        }
        proof {
            assert(forall|k: int| 0 <= k < cur.len() ==> is_digit_char(#[trigger] cur[k]));
        }
        j = j + 1;
    }
    proof {
        assert(s@.subrange(lo as int, j as int) =~= part);
    }
    let kept: usize = if hi - lo < 4 {
        hi - lo
    } else {
        4
    };
    let mut acc: u64 = 0;
    let mut k: usize = lo;
    while k < lo + kept
        invariant
            lo <= k <= lo + kept,
            kept <= 4,
            lo + kept <= hi <= s@.len(),
            part == s@.subrange(lo as int, hi as int),
            all_digits(part),
            acc == digits_val(s@.subrange(lo as int, k as int)),
            acc < 10000,
        decreases lo + kept - k,
    {
        let c = s.get_char(k);
        let ghost pre = s@.subrange(lo as int, k as int);
        let ghost cur = s@.subrange(lo as int, k + 1 as int);
        proof {
            assert(cur.drop_last() =~= pre);
            assert(cur.last() == s@[k as int]);
            assert(is_digit_char(part[k - lo]));
            lemma_digits_val_nonneg(pre);
            assert(pre.len() <= 3);
            lemma_digits_small(pre);
            lemma_pow10_vals();
            lemma_pow10_mono(pre.len(), 3);
        }
        let d = match char_to_digit(c) {
            Some(d) => d,
            None => {
                proof {
                    assert(false);
                }
                0
            },
        };
        acc = acc * 10 + (d as u64);
        k = k + 1;
    }
    // Pad with zeros up to four fractional digits.
    let ghost keptseq = s@.subrange(lo as int, (lo + kept) as int);
    proof {
        lemma_digits_small(keptseq);
        lemma_digits_val_nonneg(keptseq);
        lemma_pow10_vals();
        lemma_pow10_mono(keptseq.len(), 4);
    }
    let mut pad: usize = kept;
    while pad < 4
        invariant
            kept <= pad <= 4,
            kept <= 4,
            keptseq == s@.subrange(lo as int, (lo + kept) as int),
            keptseq.len() == kept,
            0 <= digits_val(keptseq) < pow10(kept as nat),
            acc == digits_val(keptseq) * pow10((pad - kept) as nat),
            acc <= 99_990_000,
        decreases 4 - pad,
    {
        proof {
            lemma_pow10_vals();
            lemma_pow10_mono((pad - kept) as nat, 3);
            lemma_pow10_mono(kept as nat, 4);
            lemma_pow10_pos((pad - kept) as nat);
            assert(pow10(((pad + 1) - kept) as nat) == 10 * pow10((pad - kept) as nat));
            assert(digits_val(keptseq) * (10 * pow10((pad - kept) as nat)) == 10 * (digits_val(
                keptseq,
            ) * pow10((pad - kept) as nat))) by (nonlinear_arith);
            assert(acc <= 9999 * 1000) by (nonlinear_arith)
                requires
                    acc == digits_val(keptseq) * pow10((pad - kept) as nat),
                    0 <= digits_val(keptseq) <= 9999,
                    0 <= pow10((pad - kept) as nat) <= 1000,
            ;
        }
        acc = acc * 10;
        pad = pad + 1;
    }
    proof {
        lemma_pow10_vals();
        assert(pow10(kept as nat) * pow10((4 - kept) as nat) == 10000) by {
            if kept == 0 {
            } else if kept == 1 {
            } else if kept == 2 {
            } else if kept == 3 {
            } else {
                assert(kept == 4);
            }
        }
        assert(acc < 10000) by (nonlinear_arith)
            requires
                acc == digits_val(keptseq) * pow10((4 - kept) as nat),
                0 <= digits_val(keptseq) < pow10(kept as nat),
                pow10(kept as nat) * pow10((4 - kept) as nat) == 10000,
                pow10((4 - kept) as nat) >= 1,
        ;
        if part.len() >= 4 {
            assert(kept == 4);
            assert(keptseq =~= part.subrange(0, 4));
            assert(acc == digits_val(keptseq));
        } else {
            assert(keptseq =~= part);
        }
        lemma_pow10_pos((4 - kept) as nat);
    }
    Some(acc)
}

/// The concrete powers of ten up to the fourth.
pub proof fn lemma_pow10_vals()
    ensures
        pow10(0) == 1,
        pow10(1) == 10,
        pow10(2) == 100,
        pow10(3) == 1000,
        pow10(4) == 10000,
{
    assert(pow10(0) == 1);
    assert(pow10(1) == 10);
    assert(pow10(2) == 100);
    assert(pow10(3) == 1000);
    assert(pow10(4) == 10000);
}

/// Powers of ten grow with the exponent.
pub proof fn lemma_pow10_mono(n: nat, m: nat)
    requires
        n <= m,
    ensures
        pow10(n) <= pow10(m),
    decreases m,
{
    if n < m {
        lemma_pow10_mono(n, (m - 1) as nat);
        lemma_pow10_pos((m - 1) as nat);
    }
}

/// A digit string of length `n` is worth less than ten to the `n`.
pub proof fn lemma_digits_small(s: Seq<char>)
    requires
        all_digits(s),
    ensures
        digits_val(s) < pow10(s.len()),
    decreases s.len(),
{
    if s.len() == 0 {
    } else {
        assert(all_digits(s.drop_last()));
        lemma_digits_small(s.drop_last());
        lemma_digits_val_nonneg(s.drop_last());
    }
}

/// Ten to any power is positive.
pub proof fn lemma_pow10_pos(n: nat)
    ensures
        pow10(n) >= 1,
    decreases n,
{
    if n > 0 {
        lemma_pow10_pos((n - 1) as nat);
    }
}

/// Parses signed decimal text into a fixed-point value in
/// ten-thousandths, exactly as `spec_parse_fixed` describes.
pub fn parse_fixed(s: &str) -> (r: Option<i64>)
    ensures
        match r {
            Some(v) => spec_parse_fixed(s@) == Some(v as int) && -1_000_000_000_000 <= v
                <= 1_000_000_000_000,
            None => spec_parse_fixed(s@) is None,
        },
{
    let n = s.unicode_len();
    let mut start: usize = 0;
    let mut neg = false;
    if n > 0 {
        let c0 = s.get_char(0);
        if c0 == '-' {
            neg = true;
            start = 1;
        } else if c0 == '+' {
            start = 1;
        }
    }
    let ghost body = if start == 1 {
        s@.drop_first()
    } else {
        s@
    };
    proof {
        if start == 1 {
            assert(body =~= s@.subrange(1, n as int));
        } else {
            assert(body =~= s@.subrange(0, n as int));
        }
    }
    // Find the first '.' at or after `start`.
    let mut dot: usize = n;
    let mut j: usize = start;
    let mut found = false;
    while j < n && !found
        invariant
            start <= j <= n == s@.len(),
            found ==> dot == j && j < n && s@[j as int] == '.',
            forall|k: int| start <= k < j ==> s@[k] != '.',
            !found ==> dot == n,
        decreases n - j + (if found { 0int } else { 1int }),
    {
        if s.get_char(j) == '.' {
            dot = j;
            found = true;
        } else {
            j = j + 1;
        }
    }
    proof {
        body.index_of_first_ensures('.');
        if found {
            assert(body[dot - start as int] == '.');
            assert(forall|k: int| 0 <= k < dot - start as int ==> body[k] != '.');
            match body.index_of_first('.') {
                Some(idx) => {
                    if idx < dot - start as int {
                        assert(body[idx] == '.');
                        assert(false);
                    }
                    if idx > dot - start as int {
                        assert(false);
                    }
                },
                None => {
                    assert(false);
                },
            }
        } else {
            assert(forall|k: int| 0 <= k < body.len() ==> body[k] != '.');
            match body.index_of_first('.') {
                Some(idx) => {
                    assert(body[idx] == '.');
                    assert(false);
                },
                None => {},
            }
        }
    }
    let whole = parse_digits_range(s, start, dot);
    proof {
        assert(s@.subrange(start as int, dot as int) =~= body.subrange(
            0,
            dot - start as int,
        ));
        if !found {
            assert(body.subrange(0, dot - start as int) =~= body);
        }
    }
    let w = match whole {
        Some(w) => w,
        None => {
            return None;
        },
    };
    let frac: u64 = if found {
        proof {
            assert(s@.subrange(dot + 1 as int, n as int) =~= body.subrange(
                dot + 1 - start as int,
                body.len() as int,
            ));
        }
        match parse_frac_range(s, dot + 1, n) {
            Some(f) => f,
            None => {
                return None;
            },
        }
    } else {
        0
    };
    let mag: u64 = w * 10000 + frac;
    let signed: i64 = if neg {
        -(mag as i64)
    } else {
        mag as i64
    };
    Some(signed)
}

/// The digit character for the value `d`.
pub open spec fn digit_char(d: int) -> char
    recommends
        0 <= d < 10,
{
    if d == 0 {
        '0'
    } else if d == 1 {
        '1'
    } else if d == 2 {
        '2'
    } else if d == 3 {
        '3'
    } else if d == 4 {
        '4'
    } else if d == 5 {
        '5'
    } else if d == 6 {
        '6'
    } else if d == 7 {
        '7'
    } else if d == 8 {
        '8'
    } else {
        '9'
    }
}

/// Decimal text of a nonnegative whole number, most significant digit
/// first, with no leading zeros except for zero itself.
pub open spec fn dec_string(n: nat) -> Seq<char>
    decreases n,
{
    if n < 10 {
        seq![digit_char(n as int)]
    } else {
        dec_string(n / 10).push(digit_char((n % 10) as int))
    }
}

/// Decimal text of a fixed-point value with all four fractional digits.
pub open spec fn fixed_string(v: int) -> Seq<char> {
    let mag = if v >= 0 {
        v
    } else {
        -v
    };
    let sign: Seq<char> = if v < 0 {
        seq!['-']
    } else {
        Seq::empty()
    };
    sign + dec_string((mag / 10000) as nat) + seq!['.'] + seq![
        digit_char((mag / 1000) % 10),
        digit_char((mag / 100) % 10),
        digit_char((mag / 10) % 10),
        digit_char(mag % 10),
    ]
}

/// Decimal text of a fixed-point value rounded to one fractional digit,
/// the magnitude rounded half away from zero.
pub open spec fn fixed1_string(v: int) -> Seq<char> {
    let mag = if v >= 0 {
        v
    } else {
        -v
    };
    let tenths = (mag + 500) / 1000;
    let sign: Seq<char> = if v < 0 {
        seq!['-']
    } else {
        Seq::empty()
    };
    sign + dec_string((tenths / 10) as nat) + seq!['.'] + seq![digit_char(tenths % 10)]
}

/// Decimal text of a fixed-point value rounded to a whole number, the
/// magnitude rounded half away from zero.
pub open spec fn fixed0_string(v: int) -> Seq<char> {
    let mag = if v >= 0 {
        v
    } else {
        -v
    };
    let whole = (mag + 5000) / 10000;
    let sign: Seq<char> = if v < 0 {
        seq!['-']
    } else {
        Seq::empty()
    };
    sign + dec_string(whole as nat)
}

/// Decimal text of a fixed-point value rounded to two fractional
/// digits, the magnitude rounded half away from zero.
pub open spec fn fixed2_string(v: int) -> Seq<char> {
    let mag = if v >= 0 {
        v
    } else {
        -v
    };
    let hundredths = (mag + 50) / 100;
    let sign: Seq<char> = if v < 0 {
        seq!['-']
    } else {
        Seq::empty()
    };
    sign + dec_string((hundredths / 100) as nat) + seq!['.'] + seq![
        digit_char((hundredths / 10) % 10),
        digit_char(hundredths % 10),
    ]
}

/// Appends the digit character for `d`.
pub fn push_digit(out: &mut String, d: u64)
    requires
        d < 10,
    ensures
        final(out)@ == old(out)@.push(digit_char(d as int)),
{
    let digits = "0123456789";
    proof {
        reveal_strlit("0123456789");
    }
    let c = digits.substring_char(d as usize, (d as usize) + 1);
    out.append(c);
    proof {
        assert(c@ =~= seq![digit_char(d as int)]);
        assert(old(out)@ + c@ =~= old(out)@.push(digit_char(d as int)));
    }
}

/// Appends the decimal text of `n`.
pub fn push_decimal(out: &mut String, n: u64)
    ensures
        final(out)@ == old(out)@ + dec_string(n as nat),
    decreases n,
{
    if n < 10 {
        push_digit(out, n);
        proof {
            assert(old(out)@.push(digit_char(n as int)) =~= old(out)@ + dec_string(n as nat));
        }
    } else {
        push_decimal(out, n / 10);
        push_digit(out, n % 10);
        proof {
            assert((old(out)@ + dec_string((n / 10) as nat)).push(
                digit_char((n % 10) as int),
            ) =~= old(out)@ + dec_string(n as nat));
        }
    }
}

/// Renders a fixed-point value with all four fractional digits.
pub fn format_fixed(v: i64) -> (r: String)
    requires
        v > i64::MIN,
    ensures
        r@ == fixed_string(v as int),
{
    let mut out = String::new();
    if v < 0 {
        out.append("-");
    }
    let mag: u64 = if v < 0 {
        (-v) as u64
    } else {
        v as u64
    };
    push_decimal(&mut out, mag / 10000);
    out.append(".");
    push_digit(&mut out, (mag / 1000) % 10);
    push_digit(&mut out, (mag / 100) % 10);
    push_digit(&mut out, (mag / 10) % 10);
    push_digit(&mut out, mag % 10);
    proof {
        reveal_strlit("-");
        reveal_strlit(".");
        assert(out@ =~= fixed_string(v as int));
    }
    out
}

/// Renders a fixed-point value rounded to one fractional digit.
pub fn format_fixed1(v: i64) -> (r: String)
    requires
        v > i64::MIN,
    ensures
        r@ == fixed1_string(v as int),
{
    let mut out = String::new();
    if v < 0 {
        out.append("-");
    }
    let mag: u64 = if v < 0 {
        (-v) as u64
    } else {
        v as u64
    };
    let tenths: u64 = (mag / 1000) + (if mag % 1000 >= 500 {
        1
    } else {
        0
    });
    proof {
        assert(tenths == (mag + 500) / 1000);
    }
    push_decimal(&mut out, tenths / 10);
    out.append(".");
    push_digit(&mut out, tenths % 10);
    proof {
        reveal_strlit("-");
        reveal_strlit(".");
        assert(out@ =~= fixed1_string(v as int));
    }
    out
}

/// Renders a fixed-point value rounded to a whole number.
pub fn format_fixed0(v: i64) -> (r: String)
    requires
        v > i64::MIN,
    ensures
        r@ == fixed0_string(v as int),
{
    let mut out = String::new();
    if v < 0 {
        out.append("-");
    }
    let mag: u64 = if v < 0 {
        (-v) as u64
    } else {
        v as u64
    };
    let whole: u64 = (mag / 10000) + (if mag % 10000 >= 5000 {
        1
    } else {
        0
    });
    proof {
        assert(whole == (mag + 5000) / 10000);
    }
    push_decimal(&mut out, whole);
    proof {
        reveal_strlit("-");
        assert(out@ =~= fixed0_string(v as int));
    }
    out
}

/// Renders a fixed-point value rounded to two fractional digits.
pub fn format_fixed2(v: i64) -> (r: String)
    requires
        v > i64::MIN,
    ensures
        r@ == fixed2_string(v as int),
{
    let mut out = String::new();
    if v < 0 {
        out.append("-");
    }
    let mag: u64 = if v < 0 {
        (-v) as u64
    } else {
        v as u64
    };
    let hundredths: u64 = (mag / 100) + (if mag % 100 >= 50 {
        1
    } else {
        0
    });
    proof {
        assert(hundredths == (mag + 50) / 100);
    }
    push_decimal(&mut out, hundredths / 100);
    out.append(".");
    push_digit(&mut out, (hundredths / 10) % 10);
    push_digit(&mut out, hundredths % 10);
    proof {
        reveal_strlit("-");
        reveal_strlit(".");
        assert(out@ =~= fixed2_string(v as int));
    }
    out
}

/// Decimal text of a signed whole number.
pub open spec fn int_string(v: int) -> Seq<char> {
    if v >= 0 {
        dec_string(v as nat)
    } else {
        seq!['-'] + dec_string((-v) as nat)
    }
}

/// Renders a signed whole number in decimal.
pub fn i64_to_string(v: i64) -> (r: String)
    requires
        v > i64::MIN,
    ensures
        r@ == int_string(v as int),
{
    let mut out = String::new();
    if v < 0 {
        out.append("-");
    }
    let mag: u64 = if v < 0 {
        (-v) as u64
    } else {
        v as u64
    };
    push_decimal(&mut out, mag);
    proof {
        reveal_strlit("-");
        if v < 0 {
            assert(out@ =~= seq!['-'] + dec_string((-v) as nat));
        } else {
            assert(out@ =~= dec_string(v as nat));
        }
    }
    out
}

/// Renders an unsigned whole number in decimal.
pub fn u64_to_string(n: u64) -> (r: String)
    ensures
        r@ == dec_string(n as nat),
{
    let mut out = String::new();
    push_decimal(&mut out, n);
    proof {
        assert(out@ =~= dec_string(n as nat));
    }
    out
}

} // verus!
