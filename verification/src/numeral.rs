//! Decimal numerals, and the test whether one of them stands for the number two.
//!
//! A numeral is an optional sign, digits with at most one point among them
//! (at least one digit in all), and an optional exponent: `e` or `E`, an
//! optional sign, and at least one digit. Its value is taken exactly: a
//! numeral that is only close to two, such as `2.00000001`, does not stand
//! for two.

use vstd::prelude::*;
use crate::text::{decimal, digit_char, signed_decimal};

verus! {

/// Whether `c` is a decimal digit.
pub open spec fn is_digit(c: char) -> bool {
    '0' <= c && c <= '9'
}

/// Whether `c` is a sign.
pub open spec fn is_sign(c: char) -> bool {
    c == '+' || c == '-'
}

/// The number that a digit stands for.
pub open spec fn digit_of(c: char) -> nat {
    (c as u32 - '0' as u32) as nat
}

/// The end of the run of digits of `s` that starts at `from`.
pub open spec fn digits_end(s: Seq<char>, from: int) -> int
    decreases s.len() - from,
{
    if 0 <= from < s.len() && is_digit(s[from]) {
        digits_end(s, from + 1)
    } else {
        from
    }
}

/// The number that a sequence of digits stands for.
pub open spec fn digits_value(ds: Seq<char>) -> nat
    decreases ds.len(),
{
    if ds.len() == 0 {
        0
    } else {
        digits_value(ds.drop_last()) * 10 + digit_of(ds.last())
    }
}

/// Where the parts of a numeral lie in a text, as indices into it.
pub struct Spans {
    /// Where the digits before the point begin.
    pub whole: int,
    /// Where they end.
    pub whole_end: int,
    /// Where the digits behind the point begin (behind the point, if there is one).
    pub fraction: int,
    /// Where they end.
    pub fraction_end: int,
    /// Whether an `e` or `E` follows them.
    pub has_exponent: bool,
    /// Whether that exponent has a minus sign.
    pub exponent_negative: bool,
    /// Where the exponent's digits begin.
    pub exponent: int,
    /// Where they end.
    pub exponent_end: int,
}

/// The spans of `s`, read from its start as far as it is a numeral.
pub open spec fn spans(s: Seq<char>) -> Spans {
    let a: int = if s.len() > 0 && is_sign(s[0]) {
        1
    } else {
        0
    };
    let b = digits_end(s, a);
    let c = if b < s.len() && s[b] == '.' {
        b + 1
    } else {
        b
    };
    let d = digits_end(s, c);
    let has_exp = d < s.len() && (s[d] == 'e' || s[d] == 'E');
    let exp_signed = has_exp && d + 1 < s.len() && is_sign(s[d + 1]);
    let f = if !has_exp {
        d
    } else if exp_signed {
        d + 2
    } else {
        d + 1
    };
    Spans {
        whole: a,
        whole_end: b,
        fraction: c,
        fraction_end: d,
        has_exponent: has_exp,
        exponent_negative: exp_signed && s[d + 1] == '-',
        exponent: f,
        exponent_end: digits_end(s, f),
    }
}

/// Whether `s` is a numeral: it has a digit before or behind the point, an
/// exponent, if one is begun, has a digit, and nothing follows.
pub open spec fn is_numeral(s: Seq<char>) -> bool {
    let sp = spans(s);
    &&& (sp.whole_end - sp.whole) + (sp.fraction_end - sp.fraction) >= 1
    &&& (sp.has_exponent ==> sp.exponent_end > sp.exponent)
    &&& sp.exponent_end == s.len()
}

/// What a numeral is made of.
pub struct NumeralParts {
    /// Whether it begins with a minus sign.
    pub negative: bool,
    /// The digits before the point and those behind it, as one sequence.
    pub digits: Seq<char>,
    /// How many of `digits` stand behind the point.
    pub fraction_len: int,
    /// The exponent; zero where none is written.
    pub exponent: int,
}

/// The parts of `s` read as a numeral; `None` where `s` is not a numeral.
pub open spec fn numeral_parts(s: Seq<char>) -> Option<NumeralParts> {
    let sp = spans(s);
    if is_numeral(s) {
        Some(
            NumeralParts {
                negative: s.len() > 0 && s[0] == '-',
                digits: s.subrange(sp.whole, sp.whole_end) + s.subrange(
                    sp.fraction,
                    sp.fraction_end,
                ),
                fraction_len: sp.fraction_end - sp.fraction,
                exponent: if sp.exponent_negative {
                    -(digits_value(s.subrange(sp.exponent, sp.exponent_end)) as int)
                } else {
                    digits_value(s.subrange(sp.exponent, sp.exponent_end)) as int
                },
            },
        )
    } else {
        None
    }
}

/// Whether every one of `ds` is the digit zero.
pub open spec fn all_zero(ds: Seq<char>) -> bool {
    forall|i: int| 0 <= i < ds.len() ==> ds[i] == '0'
}

/// Whether `ds` has a `2` at index `p` and the digit zero everywhere else.
pub open spec fn lone_two_at(ds: Seq<char>, p: int) -> bool {
    &&& 0 <= p < ds.len()
    &&& ds[p] == '2'
    &&& forall|i: int| 0 <= i < ds.len() && i != p ==> ds[i] == '0'
}

/// Whether `s` is a numeral for the number two: it is not negative, its only
/// digit other than zero is a `2`, and with the exponent applied that `2`
/// stands in the units' place. So `2`, `+2.0`, `02`, `20e-1` and `.2E1` are,
/// and `-2`, `2.5`, `22`, `2e1` and the empty text are not.
///
/// This reads the number off the digits. That it is the same as to ask
/// whether the numeral's value is two, exactly and without rounding, is
/// [`lemma_denotes_two_by_value`].
pub open spec fn denotes_two(s: Seq<char>) -> bool {
    match numeral_parts(s) {
        Some(n) => !n.negative && exists|p: int|
            #[trigger] lone_two_at(n.digits, p) && (n.digits.len() - 1 - p) + n.exponent
                == n.fraction_len,
        None => false,
    }
}

/// A run of digits lies within the text, holds digits only, and ends at the
/// text's end or before a character that is no digit.
pub proof fn lemma_digits_end(s: Seq<char>, from: int)
    requires
        0 <= from <= s.len(),
    ensures
        from <= digits_end(s, from) <= s.len(),
        forall|i: int| from <= i < digits_end(s, from) ==> is_digit(#[trigger] s[i]),
        digits_end(s, from) < s.len() ==> !is_digit(s[digits_end(s, from)]),
    decreases s.len() - from,
{
    if from < s.len() && is_digit(s[from]) {
        lemma_digits_end(s, from + 1);
    }
}

/// A numeral is made of ASCII characters.
pub proof fn lemma_numeral_is_ascii(s: Seq<char>)
    requires
        is_numeral(s),
    ensures
        forall|i: int| 0 <= i < s.len() ==> '\0' <= #[trigger] s[i] <= '\u{7f}',
{
    let sp = spans(s);
    lemma_digits_end(s, sp.whole);
    lemma_digits_end(s, sp.fraction);
    lemma_digits_end(s, sp.exponent);
    assert forall|i: int| 0 <= i < s.len() implies '\0' <= #[trigger] s[i] <= '\u{7f}' by {
        if i < sp.whole {
        } else if i < sp.whole_end {
            assert(is_digit(s[i]));
        } else if i < sp.fraction {
        } else if i < sp.fraction_end {
            assert(is_digit(s[i]));
        } else if i < sp.exponent {
        } else {
            assert(is_digit(s[i]));
        }
    }
}

/// Ten to the power of `n`.
pub open spec fn pow10(n: nat) -> nat
    decreases n,
{
    if n == 0 {
        1
    } else {
        10 * pow10((n - 1) as nat)
    }
}

/// Whether every one of `ds` is a digit.
pub open spec fn all_digits(ds: Seq<char>) -> bool {
    forall|i: int| 0 <= i < ds.len() ==> is_digit(#[trigger] ds[i])
}

/// Whether the number that a numeral stands for is two: its digits, read as
/// one number, times ten to the exponent, is two times ten to the number of
/// digits behind the point. (A negative exponent is moved to the other side,
/// so that no division is needed.)
pub open spec fn value_is_two(n: NumeralParts) -> bool {
    let up: nat = if n.exponent > 0 {
        n.exponent as nat
    } else {
        0
    };
    let down: nat = if n.exponent < 0 {
        (n.fraction_len - n.exponent) as nat
    } else {
        n.fraction_len as nat
    };
    !n.negative && digits_value(n.digits) * pow10(up) == 2 * pow10(down)
}

/// Powers of ten multiply as their exponents add.
pub proof fn lemma_pow10_add(a: nat, b: nat)
    ensures
        pow10(a + b) == pow10(a) * pow10(b),
    decreases a,
{
    if a > 0 {
        lemma_pow10_add((a - 1) as nat, b);
        assert(pow10(a + b) == 10 * pow10((a - 1 + b) as nat));
        assert(10 * (pow10((a - 1) as nat) * pow10(b)) == (10 * pow10((a - 1) as nat)) * pow10(b))
            by (nonlinear_arith);
    } else {
        assert(1 * pow10(b) == pow10(b));
    }
}

/// A power of ten is positive, and a multiple of ten unless it is one.
pub proof fn lemma_pow10_size(n: nat)
    ensures
        pow10(n) >= 1,
        n > 0 ==> pow10(n) >= 10 && pow10(n) % 10 == 0,
    decreases n,
{
    if n > 0 {
        lemma_pow10_size((n - 1) as nat);
    }
}

/// Digits that are all zero stand for zero, and only they do.
pub proof fn lemma_zero_value(ds: Seq<char>)
    requires
        all_digits(ds),
    ensures
        digits_value(ds) == 0 <==> all_zero(ds),
    decreases ds.len(),
{
    if ds.len() > 0 {
        let front = ds.drop_last();
        assert forall|i: int| 0 <= i < front.len() implies is_digit(#[trigger] front[i]) by {
            assert(front[i] == ds[i]);
        }
        lemma_zero_value(front);
        assert(is_digit(ds[ds.len() - 1]));
        if all_zero(ds) {
            assert forall|i: int| 0 <= i < front.len() implies front[i] == '0' by {
                assert(front[i] == ds[i]);
            }
            assert(ds.last() == '0');
        }
        if digits_value(ds) == 0 {
            assert(all_zero(front));
            assert forall|i: int| 0 <= i < ds.len() implies ds[i] == '0' by {
                if i < front.len() {
                    assert(front[i] == ds[i]);
                }
            }
        }
    }
}

/// Digits with a lone `2` stand for two times a power of ten: ten to the
/// number of digits behind the `2`.
pub proof fn lemma_lone_two_value(ds: Seq<char>, p: int)
    requires
        lone_two_at(ds, p),
    ensures
        digits_value(ds) == 2 * pow10((ds.len() - 1 - p) as nat),
    decreases ds.len(),
{
    let front = ds.drop_last();
    if p == ds.len() - 1 {
        assert forall|i: int| 0 <= i < front.len() implies is_digit(#[trigger] front[i]) by {
            assert(front[i] == ds[i]);
        }
        assert forall|i: int| 0 <= i < front.len() implies front[i] == '0' by {
            assert(front[i] == ds[i]);
        }
        lemma_zero_value(front);
    } else {
        assert(ds.last() == '0');
        assert(front[p] == ds[p]);
        assert forall|i: int| 0 <= i < front.len() && i != p implies front[i] == '0' by {
            assert(front[i] == ds[i]);
        }
        lemma_lone_two_value(front, p);
        assert(pow10((ds.len() - 1 - p) as nat) == 10 * pow10((front.len() - 1 - p) as nat));
    }
}

/// Digits that stand, times a power of ten, for two times a power of ten
/// have a lone `2`, and it stands where the powers say.
pub proof fn lemma_value_two(ds: Seq<char>, a: nat, b: nat)
    requires
        all_digits(ds),
        digits_value(ds) * pow10(a) == 2 * pow10(b),
    ensures
        exists|p: int| #[trigger] lone_two_at(ds, p) && (ds.len() - 1 - p) + a == b,
    decreases ds.len(),
{
    lemma_pow10_size(a);
    lemma_pow10_size(b);
    if ds.len() == 0 {
        assert(0 * pow10(a) == 0);
    } else {
        let front = ds.drop_last();
        let d = digit_of(ds.last());
        let v = digits_value(front);
        assert(is_digit(ds[ds.len() - 1]));
        assert forall|i: int| 0 <= i < front.len() implies is_digit(#[trigger] front[i]) by {
            assert(front[i] == ds[i]);
        }
        if d == 0 {
            assert(pow10(a + 1) == 10 * pow10(a));
            assert(v * pow10(a + 1) == 2 * pow10(b)) by (nonlinear_arith)
                requires
                    (v * 10 + 0) * pow10(a) == 2 * pow10(b),
                    pow10(a + 1) == 10 * pow10(a),
            ;
            lemma_value_two(front, a + 1, b);
            let p = choose|p: int| #[trigger]
                lone_two_at(front, p) && (front.len() - 1 - p) + a + 1 == b;
            assert(ds[p] == front[p]);
            assert forall|i: int| 0 <= i < ds.len() && i != p implies ds[i] == '0' by {
                if i < front.len() {
                    assert(front[i] == ds[i]);
                }
            }
            assert(lone_two_at(ds, p));
        } else {
            let w = v * 10 + d;
            if b > a {
                lemma_pow10_add(a, (b - a) as nat);
                lemma_pow10_size((b - a) as nat);
                let q = pow10((b - a) as nat);
                assert(w == 2 * q) by (nonlinear_arith)
                    requires
                        w * pow10(a) == 2 * (pow10(a) * q),
                        pow10(a) >= 1,
                ;
                assert(false) by (nonlinear_arith)
                    requires
                        v * 10 + d == 2 * q,
                        q % 10 == 0,
                        0 < d < 10,
                ;
            } else if b < a {
                lemma_pow10_add(b, (a - b) as nat);
                lemma_pow10_size((a - b) as nat);
                let q = pow10((a - b) as nat);
                assert(w * q == 2) by (nonlinear_arith)
                    requires
                        w * (pow10(b) * q) == 2 * pow10(b),
                        pow10(b) >= 1,
                ;
                assert(false) by (nonlinear_arith)
                    requires
                        w * q == 2,
                        q >= 10,
                        w >= 1,
                ;
            } else {
                assert(w == 2) by (nonlinear_arith)
                    requires
                        w * pow10(a) == 2 * pow10(a),
                        pow10(a) >= 1,
                ;
                assert(v == 0 && d == 2);
                lemma_zero_value(front);
                let p = ds.len() - 1;
                assert(ds[p] == '2');
                assert forall|i: int| 0 <= i < ds.len() && i != p implies ds[i] == '0' by {
                    assert(front[i] == ds[i]);
                }
                assert(lone_two_at(ds, p));
            }
        }
    }
}

/// The digits of a numeral are digits.
pub proof fn lemma_numeral_digits(s: Seq<char>)
    requires
        is_numeral(s),
    ensures
        all_digits(numeral_parts(s).unwrap().digits),
        0 <= numeral_parts(s).unwrap().fraction_len <= numeral_parts(s).unwrap().digits.len(),
{
    let sp = spans(s);
    lemma_digits_end(s, sp.whole);
    lemma_digits_end(s, sp.fraction);
    let x = s.subrange(sp.whole, sp.whole_end);
    let y = s.subrange(sp.fraction, sp.fraction_end);
    assert forall|i: int| 0 <= i < (x + y).len() implies is_digit(#[trigger] (x + y)[i]) by {
        if i < x.len() {
            assert((x + y)[i] == s[sp.whole + i]);
        } else {
            assert((x + y)[i] == s[sp.fraction + (i - x.len())]);
        }
    }
}

/// A numeral stands for two, as [`denotes_two`] reads it from the digits,
/// exactly where the number that it stands for is two.
pub proof fn lemma_denotes_two_by_value(s: Seq<char>)
    ensures
        denotes_two(s) <==> is_numeral(s) && value_is_two(numeral_parts(s).unwrap()),
{
    if is_numeral(s) {
        let n = numeral_parts(s).unwrap();
        lemma_numeral_digits(s);
        let up: nat = if n.exponent > 0 {
            n.exponent as nat
        } else {
            0
        };
        let down: nat = if n.exponent < 0 {
            (n.fraction_len - n.exponent) as nat
        } else {
            n.fraction_len as nat
        };
        if denotes_two(s) {
            let p = choose|p: int| #[trigger]
                lone_two_at(n.digits, p) && (n.digits.len() - 1 - p) + n.exponent
                    == n.fraction_len;
            lemma_lone_two_value(n.digits, p);
            let behind = (n.digits.len() - 1 - p) as nat;
            lemma_pow10_add(behind, up);
            assert(behind + up == down);
            assert(digits_value(n.digits) * pow10(up) == 2 * pow10(down)) by (nonlinear_arith)
                requires
                    digits_value(n.digits) == 2 * pow10(behind),
                    pow10(down) == pow10(behind) * pow10(up),
            ;
        }
        if value_is_two(n) {
            lemma_value_two(n.digits, up, down);
            let p = choose|p: int| #[trigger]
                lone_two_at(n.digits, p) && (n.digits.len() - 1 - p) + up == down;
            assert(lone_two_at(n.digits, p) && (n.digits.len() - 1 - p) + n.exponent
                == n.fraction_len);
        }
    }
}

/// Where only digits follow, the run of digits ends at the end of the text.
pub proof fn lemma_digits_to_the_end(s: Seq<char>, from: int)
    requires
        0 <= from <= s.len(),
        forall|i: int| from <= i < s.len() ==> is_digit(#[trigger] s[i]),
    ensures
        digits_end(s, from) == s.len(),
    decreases s.len() - from,
{
    if from < s.len() {
        assert(is_digit(s[from]));
        lemma_digits_to_the_end(s, from + 1);
    }
}

/// The decimal numeral of a number is made of digits, at least one, and
/// stands for that number.
pub proof fn lemma_decimal_digits(n: nat)
    ensures
        all_digits(decimal(n)),
        decimal(n).len() >= 1,
        digits_value(decimal(n)) == n,
    decreases n,
{
    if n < 10 {
        let ds = seq![digit_char(n)];
        assert(ds.drop_last() =~= Seq::<char>::empty());
        assert(digits_value(ds.drop_last()) == 0);
        assert(ds.last() == digit_char(n));
        assert(digit_of(digit_char(n)) == n);
    } else {
        lemma_decimal_digits(n / 10);
        let front = decimal(n / 10);
        let ds = front.push(digit_char(n % 10));
        assert(ds.drop_last() =~= front);
        assert(ds.last() == digit_char(n % 10));
        assert(digit_of(digit_char(n % 10)) == n % 10);
        assert forall|i: int| 0 <= i < ds.len() implies is_digit(#[trigger] ds[i]) by {
            if i < front.len() {
                assert(ds[i] == front[i]);
            }
        }
    }
}

/// The decimal numeral of an integer stands for two exactly where the
/// integer is two.
pub proof fn lemma_decimal_is_two(i: int)
    ensures
        denotes_two(signed_decimal(i)) <==> i == 2,
{
    let s = signed_decimal(i);
    if i < 0 {
        assert(s[0] == '-');
    } else {
        let n = i as nat;
        lemma_decimal_digits(n);
        assert(is_digit(s[0]));
        lemma_digits_to_the_end(s, 0);
        lemma_digits_to_the_end(s, s.len() as int);
        let parts = numeral_parts(s).unwrap();
        assert(parts.digits =~= s);
        assert(s.subrange(s.len() as int, s.len() as int) =~= Seq::<char>::empty());
        assert(parts.exponent == 0);
        assert(parts.fraction_len == 0);
        lemma_denotes_two_by_value(s);
        assert(pow10(0) == 1);
        assert(digits_value(s) * 1 == n);
    }
}

/// What a scan of a run of digits for a lone `2` has found.
pub enum LoneTwo {
    /// Every digit is zero.
    Zeros,
    /// A `2` at this index, and zero everywhere else.
    At(usize),
    /// Neither.
    Neither,
}

/// Two runs of digits, one after the other, hold a lone `2` where one holds
/// it and the other holds zeros only.
pub proof fn lemma_lone_two_concat(x: Seq<char>, y: Seq<char>, p: int)
    ensures
        lone_two_at(x + y, p) <==> (lone_two_at(x, p) && all_zero(y)) || (all_zero(x)
            && lone_two_at(y, p - x.len())),
        all_zero(x + y) <==> all_zero(x) && all_zero(y),
{
    let xy = x + y;
    if lone_two_at(xy, p) {
        if p < x.len() {
            assert forall|i: int| 0 <= i < x.len() && i != p implies x[i] == '0' by {
                assert(xy[i] == x[i]);
            }
            assert forall|i: int| 0 <= i < y.len() implies y[i] == '0' by {
                assert(xy[i + x.len()] == y[i]);
            }
            assert(xy[p] == x[p]);
        } else {
            assert forall|i: int| 0 <= i < x.len() implies x[i] == '0' by {
                assert(xy[i] == x[i]);
            }
            assert forall|i: int| 0 <= i < y.len() && i != p - x.len() implies y[i] == '0' by {
                assert(xy[i + x.len()] == y[i]);
            }
            assert(xy[p] == y[p - x.len()]);
        }
    }
    if all_zero(xy) {
        assert forall|i: int| 0 <= i < x.len() implies x[i] == '0' by {
            assert(xy[i] == x[i]);
        }
        assert forall|i: int| 0 <= i < y.len() implies y[i] == '0' by {
            assert(xy[i + x.len()] == y[i]);
        }
    }
}

/// The characters of an ASCII text, seen through its bytes.
pub open spec fn bytes_of(s: Seq<char>, bytes: Seq<u8>) -> bool {
    &&& bytes.len() == s.len()
    &&& forall|i: int|
        0 <= i < s.len() ==> '\0' <= #[trigger] s[i] <= '\u{7f}' && bytes[i] == s[i] as u8
}

/// The end of the run of digits that starts at `from`.
fn scan_digits(bytes: &[u8], from: usize, Ghost(s): Ghost<Seq<char>>) -> (end: usize)
    requires
        bytes_of(s, bytes@),
        from <= bytes.len(),
    ensures
        end == digits_end(s, from as int),
        from <= end <= bytes.len(),
{
    let mut i: usize = from;
    while i < bytes.len() && 48 <= bytes[i] && bytes[i] <= 57
        invariant
            bytes_of(s, bytes@),
            from <= i <= bytes.len(),
            digits_end(s, from as int) == digits_end(s, i as int),
        decreases bytes.len() - i,
    {
        assert(is_digit(s[i as int]));
        i += 1;
    }
    proof {
        if i < bytes.len() {
            assert(!is_digit(s[i as int]));
        }
    }
    i
}

/// Looks for a lone `2` among the digits from `lo` up to `hi`.
fn scan_lone_two(bytes: &[u8], lo: usize, hi: usize, Ghost(s): Ghost<Seq<char>>) -> (r: LoneTwo)
    requires
        bytes_of(s, bytes@),
        lo <= hi <= bytes.len(),
    ensures
        match r {
            LoneTwo::Zeros => all_zero(s.subrange(lo as int, hi as int)),
            LoneTwo::At(k) => lone_two_at(s.subrange(lo as int, hi as int), k as int),
            LoneTwo::Neither => !all_zero(s.subrange(lo as int, hi as int)) && forall|p: int|
                !lone_two_at(s.subrange(lo as int, hi as int), p),
        },
{
    let ghost ds = s.subrange(lo as int, hi as int);
    let mut found: Option<usize> = None;
    let mut i: usize = lo;
    while i < hi
        invariant
            bytes_of(s, bytes@),
            lo <= i <= hi <= bytes.len(),
            ds == s.subrange(lo as int, hi as int),
            match found {
                None => forall|j: int| 0 <= j < i - lo ==> ds[j] == '0',
                Some(k) => k < i - lo && ds[k as int] == '2' && forall|j: int|
                    0 <= j < i - lo && j != k ==> ds[j] == '0',
            },
        decreases hi - i,
    {
        let b = bytes[i];
        assert(ds[i - lo] == s[i as int]);
        if b == 48 {
        } else if b == 50 && found.is_none() {
            found = Some(i - lo);
        } else {
            proof {
                let w = i - lo;
                assert(ds[w] != '0');
                assert forall|p: int| !lone_two_at(ds, p) by {
                    if lone_two_at(ds, p) {
                        if p == w {
                            assert(found is Some);
                            assert(ds[found.unwrap() as int] == '2');
                        } else {
                            assert(ds[w] == '0');
                        }
                    }
                }
            }
            return LoneTwo::Neither;
        }
        i += 1;
    }
    match found {
        None => LoneTwo::Zeros,
        Some(k) => LoneTwo::At(k),
    }
}

/// The bound from which on [`scan_value`] no longer tells values apart.
pub open spec fn value_cap() -> nat {
    0x1_0000_0000_0000_0000
}

/// The value of the digits from `lo` up to `hi`, or the cap if it is larger.
fn scan_value(bytes: &[u8], lo: usize, hi: usize, Ghost(s): Ghost<Seq<char>>) -> (v: u128)
    requires
        bytes_of(s, bytes@),
        lo <= hi <= bytes.len(),
        forall|i: int| lo <= i < hi ==> is_digit(#[trigger] s[i]),
    ensures
        v <= value_cap(),
        v < value_cap() ==> v == digits_value(s.subrange(lo as int, hi as int)),
        v == value_cap() ==> digits_value(s.subrange(lo as int, hi as int)) >= value_cap(),
{
    let mut v: u128 = 0;
    let mut i: usize = lo;
    assert(s.subrange(lo as int, lo as int) =~= Seq::<char>::empty());
    while i < hi
        invariant
            bytes_of(s, bytes@),
            lo <= i <= hi <= bytes.len(),
            forall|j: int| lo <= j < hi ==> is_digit(#[trigger] s[j]),
            v <= value_cap(),
            v < value_cap() ==> v == digits_value(s.subrange(lo as int, i as int)),
            v == value_cap() ==> digits_value(s.subrange(lo as int, i as int)) >= value_cap(),
        decreases hi - i,
    {
        let ghost before = s.subrange(lo as int, i as int);
        let ghost now = s.subrange(lo as int, i + 1);
        assert(now.drop_last() =~= before);
        assert(now.last() == s[i as int]);
        assert(is_digit(s[i as int]));
        let d: u128 = (bytes[i] - 48) as u128;
        assert(d == digit_of(s[i as int]));
        if v < 0x1_0000_0000_0000_0000 {
            v = v * 10 + d;
            if v > 0x1_0000_0000_0000_0000 {
                v = 0x1_0000_0000_0000_0000;
            }
        }
        i += 1;
    }
    v
}

/// The spans of a text, as the scan has found them.
struct Bounds {
    whole: usize,
    whole_end: usize,
    fraction: usize,
    fraction_end: usize,
    has_exponent: bool,
    exponent_negative: bool,
    exponent: usize,
    exponent_end: usize,
}

impl Bounds {
    /// Whether these are the spans of `s`.
    spec fn are_spans_of(self, s: Seq<char>) -> bool {
        let sp = spans(s);
        &&& self.whole == sp.whole
        &&& self.whole_end == sp.whole_end
        &&& self.fraction == sp.fraction
        &&& self.fraction_end == sp.fraction_end
        &&& self.has_exponent == sp.has_exponent
        &&& self.exponent_negative == sp.exponent_negative
        &&& self.exponent == sp.exponent
        &&& self.exponent_end == sp.exponent_end
        &&& self.whole <= self.whole_end <= self.fraction <= self.fraction_end <= self.exponent
            <= self.exponent_end <= s.len()
    }
}

/// Finds the spans of the text.
fn find_bounds(bytes: &[u8], Ghost(s): Ghost<Seq<char>>) -> (r: Bounds)
    requires
        bytes_of(s, bytes@),
    ensures
        r.are_spans_of(s),
{
    let n = bytes.len();
    let a: usize = if n > 0 && (bytes[0] == 43 || bytes[0] == 45) {
        1
    } else {
        0
    };
    let b = scan_digits(bytes, a, Ghost(s));
    let c: usize = if b < n && bytes[b] == 46 {
        b + 1
    } else {
        b
    };
    let d = scan_digits(bytes, c, Ghost(s));
    let has_exp = d < n && (bytes[d] == 101 || bytes[d] == 69);
    if !has_exp {
        let g = scan_digits(bytes, d, Ghost(s));
        return Bounds {
            whole: a,
            whole_end: b,
            fraction: c,
            fraction_end: d,
            has_exponent: false,
            exponent_negative: false,
            exponent: d,
            exponent_end: g,
        };
    }
    let exp_signed = d + 1 < n && (bytes[d + 1] == 43 || bytes[d + 1] == 45);
    let f: usize = if exp_signed {
        d + 2
    } else {
        d + 1
    };
    let g = scan_digits(bytes, f, Ghost(s));
    Bounds {
        whole: a,
        whole_end: b,
        fraction: c,
        fraction_end: d,
        has_exponent: true,
        exponent_negative: exp_signed && bytes[d + 1] == 45,
        exponent: f,
        exponent_end: g,
    }
}

/// The index of the lone `2` among the digits before and behind the point.
fn find_place(bytes: &[u8], at: &Bounds, Ghost(s): Ghost<Seq<char>>) -> (r: Option<usize>)
    requires
        bytes_of(s, bytes@),
        at.are_spans_of(s),
    ensures
        ({
            let digits = s.subrange(at.whole as int, at.whole_end as int) + s.subrange(
                at.fraction as int,
                at.fraction_end as int,
            );
            match r {
                Some(place) => forall|p: int| lone_two_at(digits, p) <==> p == place,
                None => forall|p: int| !lone_two_at(digits, p),
            }
        }),
{
    let ghost x = s.subrange(at.whole as int, at.whole_end as int);
    let ghost y = s.subrange(at.fraction as int, at.fraction_end as int);
    let whole = scan_lone_two(bytes, at.whole, at.whole_end, Ghost(s));
    let fraction = scan_lone_two(bytes, at.fraction, at.fraction_end, Ghost(s));
    proof {
        assert forall|p: int|
            lone_two_at(x + y, p) <==> (lone_two_at(x, p) && all_zero(y)) || (all_zero(x)
                && lone_two_at(y, p - x.len())) by {
            lemma_lone_two_concat(x, y, p);
        }
    }
    match (whole, fraction) {
        (LoneTwo::At(k), LoneTwo::Zeros) => {
            proof {
                assert forall|p: int| lone_two_at(x, p) implies p == k by {
                    if p != k {
                        assert(x[k as int] == '0');
                    }
                }
                assert forall|p: int| !lone_two_at(y, p) by {
                    if lone_two_at(y, p) {
                        assert(y[p] == '2');
                    }
                }
            }
            Some(k)
        },
        (LoneTwo::Zeros, LoneTwo::At(k)) => {
            proof {
                assert forall|p: int| lone_two_at(y, p) implies p == k by {
                    if p != k {
                        assert(y[k as int] == '0');
                    }
                }
                assert forall|p: int| !lone_two_at(x, p) by {
                    if lone_two_at(x, p) {
                        assert(x[p] == '2');
                    }
                }
            }
            Some((at.whole_end - at.whole) + k)
        },
        _ => {
            proof {
                assert forall|p: int| !lone_two_at(x + y, p) by {
                    if lone_two_at(x, p) {
                        assert(x[p] == '2');
                    }
                    if lone_two_at(y, p - x.len()) {
                        assert(y[p - x.len()] == '2');
                    }
                }
            }
            None
        },
    }
}

/// Whether the exponent moves the digit at `place` to the units' place.
fn exponent_fits(bytes: &[u8], at: &Bounds, place: usize, Ghost(s): Ghost<Seq<char>>) -> (r: bool)
    requires
        bytes_of(s, bytes@),
        at.are_spans_of(s),
        is_numeral(s),
        place < (at.whole_end - at.whole) + (at.fraction_end - at.fraction),
    ensures
        ({
            let parts = numeral_parts(s).unwrap();
            r == ((parts.digits.len() - 1 - place) + parts.exponent == parts.fraction_len)
        }),
{
    proof {
        lemma_digits_end(s, at.exponent as int);
    }
    let magnitude = scan_value(bytes, at.exponent, at.exponent_end, Ghost(s));
    if magnitude >= 0x1_0000_0000_0000_0000 {
        return false;
    }
    let digits: usize = (at.whole_end - at.whole) + (at.fraction_end - at.fraction);
    let behind: i128 = (digits - 1 - place) as i128;
    let exponent: i128 = if at.exponent_negative {
        -(magnitude as i128)
    } else {
        magnitude as i128
    };
    behind + exponent == (at.fraction_end - at.fraction) as i128
}

/// Whether `s` is a numeral for the number two.
pub fn is_two(s: &str) -> (r: bool)
    ensures
        r == denotes_two(s@),
{
    if !s.is_ascii() {
        proof {
            if numeral_parts(s@) is Some {
                lemma_numeral_is_ascii(s@);
            }
        }
        return false;
    }
    let bytes = s.as_bytes();
    proof {
        vstd::string::is_ascii_spec_bytes(s);
        assert(bytes_of(s@, bytes@));
    }
    let n = bytes.len();
    let at = find_bounds(bytes, Ghost(s@));
    let digits: usize = (at.whole_end - at.whole) + (at.fraction_end - at.fraction);
    if digits == 0 || (at.has_exponent && at.exponent_end == at.exponent) || at.exponent_end != n {
        return false;
    }
    if bytes[0] == 45 {
        return false;
    }
    match find_place(bytes, &at, Ghost(s@)) {
        None => false,
        Some(place) => {
            assert(lone_two_at(numeral_parts(s@).unwrap().digits, place as int));
            exponent_fits(bytes, &at, place, Ghost(s@))
        },
    }
}

} // verus!
