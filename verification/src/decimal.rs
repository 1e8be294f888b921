//! Exact decimal numbers and the text forms in which the venue sends them.
//!
//! Amounts arrive either as JSON numbers or as strings holding a decimal
//! literal, with or without an exponent (`140.55`, `1e-08`, `2E3`). Both are
//! read into one canonical form, so that equal amounts compare equal whatever
//! their spelling was.

use vstd::prelude::*;
use crate::text::{chars_of, text_of};

verus! {

/// Whether `c` is one of the ten decimal digits.
pub open spec fn is_digit(c: char) -> bool {
    '0' <= c && c <= '9'
}

/// The number that the digit `c` stands for.
pub open spec fn digit_value(c: char) -> u8 {
    (c as u32 - 48) as u8
}

/// The numbers that a run of digit characters stands for.
pub open spec fn digit_values(s: Seq<char>) -> Seq<u8> {
    Seq::new(s.len(), |i: int| digit_value(s[i]))
}

/// The position just behind the longest run of digits that starts at `from`.
pub open spec fn digits_end(s: Seq<char>, from: int) -> int
    decreases s.len() - from,
{
    if 0 <= from < s.len() && is_digit(s[from]) {
        digits_end(s, from + 1)
    } else {
        from
    }
}

/// The position behind an optional `+` or `-` at `from`.
pub open spec fn sign_end(s: Seq<char>, from: int) -> int {
    if 0 <= from < s.len() && (s[from] == '+' || s[from] == '-') {
        from + 1
    } else {
        from
    }
}

/// The number written by a sequence of digits, most significant first.
pub open spec fn number_of(ds: Seq<u8>) -> nat
    decreases ds.len(),
{
    if ds.len() == 0 {
        0
    } else {
        number_of(ds.drop_last()) * 10 + ds.last() as nat
    }
}

/// The position of the first non-zero digit at or behind `from`, or the
/// length of `ds` where only zeros follow.
pub open spec fn zeros_end(ds: Seq<u8>, from: int) -> int
    decreases ds.len() - from,
{
    if 0 <= from < ds.len() && ds[from] == 0 {
        zeros_end(ds, from + 1)
    } else {
        from
    }
}

/// The position at which the run of zeros that ends just before `until`
/// begins.
pub open spec fn zeros_start(ds: Seq<u8>, until: int) -> int
    decreases until,
{
    if 0 < until <= ds.len() && ds[until - 1] == 0 {
        zeros_start(ds, until - 1)
    } else {
        until
    }
}

/// Where the parts of a decimal literal lie in a text: an optional sign,
/// integer digits, an optional point with fraction digits, and an optional
/// exponent marker (`e` or `E`) with its own optional sign and digits.
pub struct Shape {
    pub int_start: int,
    pub int_end: int,
    pub frac_start: int,
    pub frac_end: int,
    pub has_exponent: bool,
    pub exp_start: int,
    pub exp_end: int,
}

/// The layout of `s` read greedily from the left.
pub open spec fn shape(s: Seq<char>) -> Shape {
    let int_start = sign_end(s, 0);
    let int_end = digits_end(s, int_start);
    let frac_start = if int_end < s.len() && s[int_end] == '.' {
        int_end + 1
    } else {
        int_end
    };
    let frac_end = digits_end(s, frac_start);
    let has_exponent = frac_end < s.len() && (s[frac_end] == 'e' || s[frac_end] == 'E');
    let exp_start = if has_exponent {
        sign_end(s, frac_end + 1)
    } else {
        frac_end
    };
    let exp_end = if has_exponent {
        digits_end(s, exp_start)
    } else {
        frac_end
    };
    Shape { int_start, int_end, frac_start, frac_end, has_exponent, exp_start, exp_end }
}

/// Whether `s` is a decimal literal: at least one digit before or behind the
/// point, at least one exponent digit where there is an exponent marker, and
/// nothing behind the last part.
pub open spec fn is_decimal_text(s: Seq<char>) -> bool {
    let sh = shape(s);
    &&& (sh.int_end - sh.int_start) + (sh.frac_end - sh.frac_start) > 0
    &&& sh.has_exponent ==> sh.exp_end > sh.exp_start
    &&& sh.exp_end == s.len()
}

/// All digits of the literal `s`, integer part first, then the fraction.
pub open spec fn written_digits(s: Seq<char>) -> Seq<u8> {
    let sh = shape(s);
    digit_values(s.subrange(sh.int_start, sh.int_end)) + digit_values(
        s.subrange(sh.frac_start, sh.frac_end),
    )
}

/// The exponent that the literal `s` spells out, zero where it has none.
pub open spec fn written_exponent(s: Seq<char>) -> int {
    let sh = shape(s);
    let magnitude = number_of(digit_values(s.subrange(sh.exp_start, sh.exp_end))) as int;
    if !sh.has_exponent {
        0
    } else if s[sh.frac_end + 1] == '-' {
        -magnitude
    } else {
        magnitude
    }
}

/// Mathematical model of a decimal number:
/// `(-1)^negative * number_of(digits) * 10^exponent`.
pub struct DecimalModel {
    pub negative: bool,
    pub digits: Seq<u8>,
    pub exponent: int,
}

impl DecimalModel {
    /// The canonical form is unique for each value and sign: every digit is
    /// at most nine, the first and the last digit are not zero, and zero is
    /// written with no digit and exponent zero.
    pub open spec fn canonical(self) -> bool {
        &&& forall|i: int| 0 <= i < self.digits.len() ==> #[trigger] self.digits[i] <= 9
        &&& self.digits.len() > 0 ==> self.digits.first() != 0 && self.digits.last() != 0
        &&& self.digits.len() == 0 ==> self.exponent == 0
    }

    /// The digits read as one natural number.
    pub open spec fn coefficient(self) -> nat {
        number_of(self.digits)
    }
}

/// The canonical form of the number `(-1)^negative * number_of(all) *
/// 10^exponent`: leading and trailing zeros are dropped, and the exponent grows
/// by one for each trailing zero. `None` where the resulting exponent lies
/// outside the range of `i64`.
pub open spec fn normalized(negative: bool, all: Seq<u8>, exponent: int) -> Option<DecimalModel> {
    let first = zeros_end(all, 0);
    let last = zeros_start(all, all.len() as int);
    let scaled = exponent + (all.len() - last);
    if first == all.len() {
        Some(DecimalModel { negative, digits: Seq::empty(), exponent: 0 })
    } else if i64::MIN <= scaled <= i64::MAX {
        Some(DecimalModel { negative, digits: all.subrange(first, last), exponent: scaled })
    } else {
        None
    }
}

/// The canonical decimal that the literal `s` denotes. `None` where `s` is no
/// decimal literal, or where the exponent of its canonical form lies outside
/// the range of `i64`.
pub open spec fn decimal_of_text(s: Seq<char>) -> Option<DecimalModel> {
    let sh = shape(s);
    if is_decimal_text(s) {
        normalized(
            s.len() > 0 && s[0] == '-',
            written_digits(s),
            written_exponent(s) - (sh.frac_end - sh.frac_start),
        )
    } else {
        None
    }
}

/// The character that writes the digit `d`; a question mark for what is no
/// digit.
pub open spec fn digit_char(d: u8) -> char {
    if d <= 9 {
        (d + 48) as char
    } else {
        '?'
    }
}

/// The characters that write a sequence of digits.
pub open spec fn digit_chars(ds: Seq<u8>) -> Seq<char> {
    Seq::new(ds.len(), |i: int| digit_char(ds[i]))
}

/// The digits that write a natural number, without leading zeros.
pub open spec fn nat_text(n: nat) -> Seq<char>
    decreases n,
{
    if n < 10 {
        seq![digit_char(n as u8)]
    } else {
        nat_text(n / 10).push(digit_char((n % 10) as u8))
    }
}

/// The characters that write an integer: a minus sign where it is negative,
/// then the digits.
pub open spec fn int_text(n: int) -> Seq<char> {
    if n < 0 {
        seq!['-'] + nat_text((-n) as nat)
    } else {
        nat_text(n as nat)
    }
}

impl DecimalModel {
    /// The number as a literal: a minus sign where it is negative, the
    /// digits (`0` where there is none), `E`, and the exponent.
    pub open spec fn text(self) -> Seq<char> {
        let sign = if self.negative {
            seq!['-']
        } else {
            Seq::<char>::empty()
        };
        let digits = if self.digits.len() == 0 {
            seq!['0']
        } else {
            digit_chars(self.digits)
        };
        sign + digits + seq!['E'] + int_text(self.exponent)
    }
}

/// An exact decimal number, `(-1)^negative * digits * 10^exponent`, with the
/// digits held most significant first.
#[derive(Clone, Debug, PartialEq, Eq)]
pub struct Decimal {
    pub negative: bool,
    pub digits: Vec<u8>,
    pub exponent: i64,
}

impl View for Decimal {
    type V = DecimalModel;

    open spec fn view(&self) -> DecimalModel {
        DecimalModel {
            negative: self.negative,
            digits: self.digits@,
            exponent: self.exponent as int,
        }
    }
}

/// Taking digits off the end of a number does not make it larger.
pub proof fn lemma_number_of_prefix(ds: Seq<u8>, k: int)
    requires
        0 <= k <= ds.len(),
    ensures
        number_of(ds.take(k)) <= number_of(ds),
    decreases ds.len(),
{
    if k < ds.len() {
        lemma_number_of_prefix(ds.drop_last(), k);
        assert(ds.drop_last().take(k) == ds.take(k));
    } else {
        assert(ds.take(k) == ds);
    }
}

/// The digits of a run are digits, and the run ends inside the text.
pub proof fn lemma_digits_end(s: Seq<char>, from: int)
    requires
        0 <= from <= s.len(),
    ensures
        from <= digits_end(s, from) <= s.len(),
        forall|i: int| from <= i < digits_end(s, from) ==> is_digit(#[trigger] s[i]),
        digits_end(s, from) < s.len() ==> !is_digit(s[digits_end(s, from)]),
    decreases s.len() - from,
{
    if from < s.len() && is_digit(s[from]) {
        lemma_digits_end(s, from + 1);
    }
}

/// Two texts whose characters are digits at the same places have their runs
/// of digits at the same places.
pub proof fn lemma_digits_end_alike(s: Seq<char>, t: Seq<char>, from: int)
    requires
        s.len() == t.len(),
        forall|i: int| 0 <= i < s.len() ==> is_digit(#[trigger] s[i]) == is_digit(t[i]),
    ensures
        digits_end(s, from) == digits_end(t, from),
    decreases s.len() - from,
{
    if 0 <= from < s.len() && is_digit(s[from]) {
        lemma_digits_end_alike(s, t, from + 1);
    }
}

/// A run of zeros ends inside the digits, at a digit that is not zero where
/// it ends before the last.
pub proof fn lemma_zeros_end(ds: Seq<u8>, from: int)
    requires
        0 <= from <= ds.len(),
    ensures
        from <= zeros_end(ds, from) <= ds.len(),
        zeros_end(ds, from) < ds.len() ==> ds[zeros_end(ds, from)] != 0,
    decreases ds.len() - from,
{
    if from < ds.len() && ds[from] == 0 {
        lemma_zeros_end(ds, from + 1);
    }
}

/// A run of zeros that ends before `until` begins behind every digit before
/// `until` that is not zero, and just behind one where it does not begin at
/// the front.
pub proof fn lemma_zeros_start(ds: Seq<u8>, until: int, k: int)
    requires
        0 <= k < until <= ds.len(),
        ds[k] != 0,
    ensures
        k < zeros_start(ds, until) <= until,
        ds[zeros_start(ds, until) - 1] != 0,
    decreases until,
{
    if ds[until - 1] == 0 {
        lemma_zeros_start(ds, until - 1, k);
    }
}

/// What `normalized` gives is in canonical form.
pub proof fn lemma_normalized_is_canonical(negative: bool, all: Seq<u8>, exponent: int)
    requires
        forall|i: int| 0 <= i < all.len() ==> #[trigger] all[i] <= 9,
    ensures
        normalized(negative, all, exponent) matches Some(d) ==> d.canonical(),
{
    let first = zeros_end(all, 0);
    lemma_zeros_end(all, 0);
    if first < all.len() {
        lemma_zeros_start(all, all.len() as int, first);
    }
}

/// What a decimal literal denotes is in canonical form.
pub proof fn lemma_decimal_of_text_is_canonical(s: Seq<char>)
    ensures
        decimal_of_text(s) matches Some(d) ==> d.canonical(),
{
    let sh = shape(s);
    if is_decimal_text(s) {
        let all = written_digits(s);
        lemma_digits_end(s, sh.int_start);
        if sh.frac_start <= s.len() {
            lemma_digits_end(s, sh.frac_start);
        }
        assert forall|i: int| 0 <= i < all.len() implies #[trigger] all[i] <= 9 by {
            let n = sh.int_end - sh.int_start;
            if i < n {
                assert(is_digit(s[sh.int_start + i]));
            } else {
                assert(is_digit(s[sh.frac_start + (i - n)]));
            }
        }
        lemma_normalized_is_canonical(
            s.len() > 0 && s[0] == '-',
            all,
            written_exponent(s) - (sh.frac_end - sh.frac_start),
        );
    }
}

/// A run of digits that is followed by the end of the text, or by a
/// character that is no digit, ends there.
pub proof fn lemma_digits_end_of_run(s: Seq<char>, from: int, end: int)
    requires
        0 <= from <= end <= s.len(),
        forall|i: int| from <= i < end ==> is_digit(#[trigger] s[i]),
        end < s.len() ==> !is_digit(s[end]),
    ensures
        digits_end(s, from) == end,
    decreases end - from,
{
    if from < end {
        lemma_digits_end_of_run(s, from + 1, end);
    }
}

/// The text of a natural number is made of digits, and they write it.
pub proof fn lemma_nat_text(n: nat)
    ensures
        nat_text(n).len() >= 1,
        forall|i: int| 0 <= i < nat_text(n).len() ==> is_digit(#[trigger] nat_text(n)[i]),
        number_of(digit_values(nat_text(n))) == n,
    decreases n,
{
    if n >= 10 {
        lemma_nat_text(n / 10);
        let front = nat_text(n / 10);
        let c = digit_char((n % 10) as u8);
        assert(digit_values(front.push(c)).drop_last() == digit_values(front));
        assert(digit_values(front.push(c)).last() == n % 10);
    } else {
        let ds = digit_values(nat_text(n));
        assert(ds.drop_last() == Seq::<u8>::empty());
        assert(ds.last() == n);
        assert(number_of(ds.drop_last()) == 0);
    }
}

/// What is written by `to_text` is read back by `parse`: the text of a
/// canonical decimal denotes that decimal and no other.
pub proof fn lemma_text_round_trip(d: DecimalModel)
    requires
        d.canonical(),
        i64::MIN <= d.exponent <= i64::MAX,
    ensures
        decimal_of_text(d.text()) == Some(d),
{
    let s = d.text();
    let sign: Seq<char> = if d.negative {
        seq!['-']
    } else {
        Seq::<char>::empty()
    };
    let digits: Seq<char> = if d.digits.len() == 0 {
        seq!['0']
    } else {
        digit_chars(d.digits)
    };
    let magnitude: nat = if d.exponent < 0 {
        (-d.exponent) as nat
    } else {
        d.exponent as nat
    };
    let power = int_text(d.exponent);
    let a = sign.len() as int;
    let b = a + digits.len();
    let c = if d.exponent < 0 {
        b + 2
    } else {
        b + 1
    };
    lemma_nat_text(magnitude);
    assert(s == sign + digits + seq!['E'] + power);
    assert(s.len() == b + 1 + power.len());
    assert forall|i: int| a <= i < b implies is_digit(#[trigger] s[i]) by {
        assert(s[i] == digits[i - a]);
    }
    assert(s[b] == 'E');
    assert forall|i: int| c <= i < s.len() implies is_digit(#[trigger] s[i]) by {
        assert(s[i] == nat_text(magnitude)[i - c]);
    }
    if d.exponent < 0 {
        assert(s[b + 1] == '-');
    } else {
        assert(s[b + 1] == nat_text(magnitude)[0]);
    }
    if d.negative {
        assert(s[0] == '-');
    } else {
        assert(s[0] == digits[0]);
    }
    lemma_digits_end_of_run(s, a, b);
    lemma_digits_end_of_run(s, b, b);
    lemma_digits_end_of_run(s, c, s.len() as int);
    let sh = shape(s);
    assert(sh.int_start == a);
    assert(sh.int_end == b);
    assert(sh.frac_start == b && sh.frac_end == b);
    assert(sh.has_exponent);
    assert(sh.exp_start == c);
    assert(sh.exp_end == s.len());
    assert(is_decimal_text(s));
    assert(s.subrange(a, b) =~= digits);
    assert(s.subrange(b, b) =~= Seq::<char>::empty());
    assert(s.subrange(c, s.len() as int) =~= nat_text(magnitude));
    let all = written_digits(s);
    assert(all =~= digit_values(digits));
    assert(written_exponent(s) == d.exponent);
    assert((s.len() > 0 && s[0] == '-') == d.negative);
    assert(decimal_of_text(s) == normalized(d.negative, all, d.exponent));
    if d.digits.len() == 0 {
        assert(all =~= seq![0u8]);
        assert(zeros_end(all, 1) == 1);
        assert(zeros_end(all, 0) == 1);
        assert(d.digits =~= Seq::<u8>::empty());
        assert(normalized(d.negative, all, d.exponent) == Some(d));
    } else {
        assert(all =~= d.digits) by {
            assert forall|i: int| 0 <= i < d.digits.len() implies all[i] == d.digits[i] by {
                assert(d.digits[i] <= 9);
            }
        }
        assert(all.first() != 0 && all.last() != 0);
        assert(zeros_end(all, 0) == 0);
        assert(zeros_start(all, all.len() as int) == all.len());
        assert(all.subrange(0, all.len() as int) =~= all);
        assert(normalized(d.negative, all, d.exponent) == Some(d));
    }
}

/// Whether `c` marks the exponent of a decimal literal.
pub open spec fn is_marker(c: char) -> bool {
    c == 'e' || c == 'E'
}

/// Whether two texts are the same but for the case of their exponent
/// markers.
pub open spec fn same_but_marker(s: Seq<char>, t: Seq<char>) -> bool {
    &&& s.len() == t.len()
    &&& forall|i: int|
        0 <= i < s.len() ==> #[trigger] s[i] == t[i] || (is_marker(s[i]) && is_marker(t[i]))
}

/// The case of the exponent marker decides nothing: `1e-08` and `1E-08`
/// denote the same decimal.
pub proof fn lemma_marker_case(s: Seq<char>, t: Seq<char>)
    requires
        same_but_marker(s, t),
    ensures
        decimal_of_text(s) == decimal_of_text(t),
{
    assert forall|i: int| 0 <= i < s.len() implies is_digit(#[trigger] s[i]) == is_digit(t[i]) by {
        assert(s[i] == t[i] || (is_marker(s[i]) && is_marker(t[i])));
    }
    let a = shape(s);
    let b = shape(t);
    assert(a.int_start == b.int_start) by {
        if s.len() > 0 {
            assert(s[0] == t[0] || (is_marker(s[0]) && is_marker(t[0])));
        }
    }
    lemma_digits_end_alike(s, t, a.int_start);
    lemma_digits_end(s, a.int_start);
    assert(a.frac_start == b.frac_start) by {
        if a.int_end < s.len() {
            assert(s[a.int_end] == t[a.int_end] || (is_marker(s[a.int_end]) && is_marker(
                t[a.int_end],
            )));
        }
    }
    lemma_digits_end_alike(s, t, a.frac_start);
    if a.frac_start <= s.len() {
        lemma_digits_end(s, a.frac_start);
    }
    assert(a.has_exponent == b.has_exponent) by {
        if a.frac_end < s.len() {
            assert(s[a.frac_end] == t[a.frac_end] || (is_marker(s[a.frac_end]) && is_marker(
                t[a.frac_end],
            )));
        }
    }
    if a.has_exponent {
        let after = a.frac_end + 1;
        if after < s.len() {
            assert(s[after] == t[after] || (is_marker(s[after]) && is_marker(t[after])));
        }
        lemma_digits_end_alike(s, t, a.exp_start);
        if a.exp_start <= s.len() {
            lemma_digits_end(s, a.exp_start);
        }
    }
    assert(a == b);
    if is_decimal_text(s) {
        assert(s.subrange(a.int_start, a.int_end) =~= t.subrange(a.int_start, a.int_end)) by {
            assert forall|i: int| a.int_start <= i < a.int_end implies s[i] == t[i] by {
                assert(is_digit(s[i]));
                assert(s[i] == t[i] || (is_marker(s[i]) && is_marker(t[i])));
            }
        }
        assert(s.subrange(a.frac_start, a.frac_end) =~= t.subrange(a.frac_start, a.frac_end)) by {
            assert forall|i: int| a.frac_start <= i < a.frac_end implies s[i] == t[i] by {
                assert(is_digit(s[i]));
                assert(s[i] == t[i] || (is_marker(s[i]) && is_marker(t[i])));
            }
        }
        assert(s.subrange(a.exp_start, a.exp_end) =~= t.subrange(a.exp_start, a.exp_end)) by {
            assert forall|i: int| a.exp_start <= i < a.exp_end implies s[i] == t[i] by {
                assert(is_digit(s[i]));
                assert(s[i] == t[i] || (is_marker(s[i]) && is_marker(t[i])));
            }
        }
        assert(s[0] == t[0] || (is_marker(s[0]) && is_marker(t[0])));
    }
}

/// A run of zeros that ends before `until` begins at or before `until`.
pub proof fn lemma_zeros_start_bounds(ds: Seq<u8>, until: int)
    requires
        0 <= until,
    ensures
        0 <= zeros_start(ds, until) <= until,
    decreases until,
{
    if 0 < until <= ds.len() && ds[until - 1] == 0 {
        lemma_zeros_start_bounds(ds, until - 1);
    }
}

/// Appends to `digits` the values of the digits of `s` that start at `from`,
/// and returns the position behind them.
fn scan_digits(s: &Vec<char>, from: usize, digits: &mut Vec<u8>) -> (end: usize)
    requires
        from <= s.len(),
    ensures
        end == digits_end(s@, from as int),
        from <= end <= s.len(),
        final(digits)@ == old(digits)@ + digit_values(s@.subrange(from as int, end as int)),
        forall|i: int|
            old(digits)@.len() <= i < final(digits)@.len() ==> #[trigger] final(digits)@[i] <= 9,
{
    let mut i: usize = from;
    while i < s.len() && '0' <= s[i] && s[i] <= '9'
        invariant
            from <= i <= s.len(),
            digits_end(s@, from as int) == digits_end(s@, i as int),
            digits@ == old(digits)@ + digit_values(s@.subrange(from as int, i as int)),
            forall|j: int| old(digits)@.len() <= j < digits@.len() ==> #[trigger] digits@[j] <= 9,
        decreases s.len() - i,
    {
        let d: u8 = (s[i] as u32 - 48) as u8;
        digits.push(d);
        assert(s@.subrange(from as int, i + 1) == s@.subrange(from as int, i as int).push(
            s@[i as int],
        ));
        assert(digit_values(s@.subrange(from as int, i + 1)) == digit_values(
            s@.subrange(from as int, i as int),
        ).push(d));
        i += 1;
    }
    i
}

/// The largest exponent magnitude that is read exactly; a literal that
/// spells out more than this cannot have an exponent in the range of `i64`.
pub const EXPONENT_READ_LIMIT: u128 = 1_000_000_000_000_000_000_000_000_000_000;

/// The number written by `ds`, where it does not exceed
/// `EXPONENT_READ_LIMIT`.
fn bounded_number(ds: &Vec<u8>) -> (r: Option<u128>)
    requires
        forall|i: int| 0 <= i < ds@.len() ==> #[trigger] ds@[i] <= 9,
    ensures
        match r {
            Some(n) => n == number_of(ds@) && n <= EXPONENT_READ_LIMIT,
            None => number_of(ds@) > EXPONENT_READ_LIMIT,
        },
{
    let mut acc: u128 = 0;
    let mut i: usize = 0;
    while i < ds.len()
        invariant
            i <= ds.len(),
            acc == number_of(ds@.take(i as int)),
            acc <= EXPONENT_READ_LIMIT,
            forall|j: int| 0 <= j < ds@.len() ==> #[trigger] ds@[j] <= 9,
        decreases ds.len() - i,
    {
        let next: u128 = acc * 10 + ds[i] as u128;
        assert(ds@.take(i + 1).drop_last() == ds@.take(i as int));
        assert(next == number_of(ds@.take(i + 1)));
        if next > EXPONENT_READ_LIMIT {
            proof {
                lemma_number_of_prefix(ds@, i + 1);
            }
            return None;
        }
        acc = next;
        i += 1;
    }
    assert(ds@.take(ds.len() as int) == ds@);
    Some(acc)
}

/// The parts of a decimal literal as they were written.
struct Literal {
    negative: bool,
    digits: Vec<u8>,
    fraction_len: usize,
    exponent_negative: bool,
    exponent_digits: Vec<u8>,
}

/// Splits a decimal literal into its parts; `None` where `s` is none.
fn read_literal(s: &Vec<char>) -> (r: Option<Literal>)
    ensures
        r.is_some() == is_decimal_text(s@),
        match r {
            Some(lit) => {
                let sh = shape(s@);
                &&& lit.negative == (s@.len() > 0 && s@[0] == '-')
                &&& lit.digits@ == written_digits(s@)
                &&& lit.fraction_len == sh.frac_end - sh.frac_start
                &&& lit.exponent_negative == (sh.has_exponent && s@[sh.frac_end + 1] == '-')
                &&& lit.exponent_digits@ == digit_values(s@.subrange(sh.exp_start, sh.exp_end))
                &&& forall|i: int| 0 <= i < lit.digits@.len() ==> #[trigger] lit.digits@[i] <= 9
                &&& forall|i: int|
                    0 <= i < lit.exponent_digits@.len() ==> #[trigger] lit.exponent_digits@[i] <= 9
            },
            None => true,
        },
{
    let n = s.len();
    let negative = n > 0 && s[0] == '-';
    let int_start: usize = if n > 0 && (s[0] == '+' || s[0] == '-') {
        1
    } else {
        0
    };
    let mut digits: Vec<u8> = Vec::new();
    let int_end = scan_digits(s, int_start, &mut digits);
    let frac_start: usize = if int_end < n && s[int_end] == '.' {
        int_end + 1
    } else {
        int_end
    };
    let frac_end = scan_digits(s, frac_start, &mut digits);
    if (int_end - int_start) + (frac_end - frac_start) == 0 {
        return None;
    }
    let has_exponent = frac_end < n && (s[frac_end] == 'e' || s[frac_end] == 'E');
    let mut exponent_digits: Vec<u8> = Vec::new();
    let mut exponent_negative = false;
    let mut exp_end = frac_end;
    if has_exponent {
        let after_marker = frac_end + 1;
        exponent_negative = after_marker < n && s[after_marker] == '-';
        let exp_start: usize = if after_marker < n && (s[after_marker] == '+' || s[after_marker]
            == '-') {
            after_marker + 1
        } else {
            after_marker
        };
        exp_end = scan_digits(s, exp_start, &mut exponent_digits);
        if exp_end == exp_start {
            return None;
        }
    }
    if exp_end != n {
        return None;
    }
    assert(s@.subrange(frac_end as int, frac_end as int) == Seq::<char>::empty());
    Some(
        Literal {
            negative,
            digits,
            fraction_len: frac_end - frac_start,
            exponent_negative,
            exponent_digits,
        },
    )
}

/// Brings a number into canonical form.
fn normalize(negative: bool, all: &Vec<u8>, exponent: i128) -> (r: Option<Decimal>)
    requires
        forall|i: int| 0 <= i < all@.len() ==> #[trigger] all@[i] <= 9,
        -2 * EXPONENT_READ_LIMIT <= exponent <= 2 * EXPONENT_READ_LIMIT,
    ensures
        match r {
            Some(d) => normalized(negative, all@, exponent as int) == Some(d@) && d.is_canonical(),
            None => normalized(negative, all@, exponent as int).is_none(),
        },
{
    let mut first: usize = 0;
    while first < all.len() && all[first] == 0
        invariant
            first <= all.len(),
            zeros_end(all@, 0) == zeros_end(all@, first as int),
        decreases all.len() - first,
    {
        first += 1;
    }
    if first == all.len() {
        return Some(Decimal::zero(negative));
    }
    let mut last: usize = all.len();
    while last > 0 && all[last - 1] == 0
        invariant
            first < last <= all.len(),
            all@[first as int] != 0,
            zeros_start(all@, all@.len() as int) == zeros_start(all@, last as int),
        decreases last,
    {
        last -= 1;
    }
    let scaled: i128 = exponent + (all.len() - last) as i128;
    if scaled < i64::MIN as i128 || scaled > i64::MAX as i128 {
        return None;
    }
    let mut digits: Vec<u8> = Vec::new();
    let mut i: usize = first;
    while i < last
        invariant
            first <= i <= last <= all.len(),
            digits@ == all@.subrange(first as int, i as int),
        decreases last - i,
    {
        digits.push(all[i]);
        assert(all@.subrange(first as int, i + 1) == all@.subrange(first as int, i as int).push(
            all@[i as int],
        ));
        i += 1;
    }
    Some(Decimal { negative, digits, exponent: scaled as i64 })
}

impl Decimal {
    /// Whether this value is in canonical form.
    pub open spec fn is_canonical(&self) -> bool {
        self@.canonical()
    }

    /// Zero, with the given sign.
    pub fn zero(negative: bool) -> (d: Decimal)
        ensures
            d@ == (DecimalModel { negative, digits: Seq::empty(), exponent: 0 }),
            d.is_canonical(),
    {
        Decimal { negative, digits: Vec::new(), exponent: 0 }
    }

    /// Whether this value is zero.
    pub fn is_zero(&self) -> (b: bool)
        ensures
            b == (self@.digits.len() == 0),
    {
        self.digits.len() == 0
    }

    /// The number as a literal that every reader of decimal literals takes,
    /// floating-point readers among them: a minus sign where it is negative,
    /// the digits, `E`, and the exponent.
    pub fn to_text(&self) -> (out: String)
        ensures
            out@ == self@.text(),
    {
        let mut chars: Vec<char> = Vec::new();
        if self.negative {
            chars.push('-');
        }
        let ghost sign = chars@;
        if self.digits.len() == 0 {
            chars.push('0');
        } else {
            let mut i: usize = 0;
            while i < self.digits.len()
                invariant
                    i <= self.digits.len(),
                    chars@ == sign + digit_chars(self.digits@.take(i as int)),
                decreases self.digits.len() - i,
            {
                let d = self.digits[i];
                let c = if d <= 9 {
                    (d + 48) as char
                } else {
                    '?'
                };
                chars.push(c);
                assert(digit_chars(self.digits@.take(i + 1)) == digit_chars(
                    self.digits@.take(i as int),
                ).push(c));
                i += 1;
            }
            assert(self.digits@.take(self.digits.len() as int) == self.digits@);
        }
        chars.push('E');
        if self.exponent < 0 {
            chars.push('-');
        }
        let ghost head = chars@;
        let magnitude: u64 = if self.exponent < 0 {
            (-(self.exponent + 1)) as u64 + 1
        } else {
            self.exponent as u64
        };
        let mut rest: u64 = magnitude;
        let mut low: Vec<char> = Vec::new();
        while rest >= 10
            invariant
                nat_text(magnitude as nat) == nat_text(rest as nat) + low@.reverse(),
            decreases rest,
        {
            let c = ((rest % 10) as u8 + 48) as char;
            let ghost before = low@;
            low.push(c);
            assert(low@.reverse() == seq![c] + before.reverse());
            assert(nat_text(rest as nat) == nat_text((rest / 10) as nat).push(c));
            rest = rest / 10;
        }
        chars.push((rest as u8 + 48) as char);
        let mut k: usize = low.len();
        while k > 0
            invariant
                k <= low.len(),
                chars@ == head + nat_text(rest as nat) + low@.reverse().take(low.len() - k),
            decreases k,
        {
            k -= 1;
            chars.push(low[k]);
            assert(low@.reverse().take(low.len() - k) == low@.reverse().take(
                low.len() - k - 1,
            ).push(low@[k as int]));
        }
        assert(low@.reverse().take(low.len() as int) == low@.reverse());
        assert(chars@ == self@.text());
        text_of(&chars)
    }

    /// Reads a decimal literal. The exponent marker may be `e` or `E`; the
    /// result does not depend on which, nor on leading or trailing zeros.
    pub fn parse(text: &str) -> (r: Option<Decimal>)
        ensures
            match r {
                Some(d) => decimal_of_text(text@) == Some(d@) && d.is_canonical(),
                None => decimal_of_text(text@).is_none(),
            },
    {
        let s = chars_of(text);
        let lit = match read_literal(&s) {
            Some(lit) => lit,
            None => {
                return None;
            },
        };
        // An exponent beyond the limit is out of range wherever a digit is
        // not zero, so the limit's successor stands for it.
        let magnitude: u128 = match bounded_number(&lit.exponent_digits) {
            Some(m) => m,
            None => EXPONENT_READ_LIMIT + 1,
        };
        let written: i128 = if lit.exponent_negative {
            -(magnitude as i128)
        } else {
            magnitude as i128
        };
        let digit_count = lit.digits.len();
        proof {
            lemma_zeros_start_bounds(lit.digits@, digit_count as int);
            let exact = written_exponent(s@) - lit.fraction_len;
            let read = written - lit.fraction_len;
            let spelled = number_of(lit.exponent_digits@) as int;
            assert(written_exponent(s@) == if lit.exponent_negative {
                -spelled
            } else {
                spelled
            });
            let dropped = lit.digits@.len() - zeros_start(lit.digits@, lit.digits@.len() as int);
            assert(0 <= dropped <= digit_count);
            if spelled > EXPONENT_READ_LIMIT {
                assert(magnitude == EXPONENT_READ_LIMIT + 1);
                if lit.exponent_negative {
                    assert(exact + dropped < i64::MIN);
                    assert(read + dropped < i64::MIN);
                } else {
                    assert(exact + dropped > i64::MAX);
                    assert(read + dropped > i64::MAX);
                }
            } else {
                assert(exact == read);
            }
            assert(normalized(lit.negative, lit.digits@, exact) == normalized(
                lit.negative,
                lit.digits@,
                read,
            ));
        }
        normalize(lit.negative, &lit.digits, written - lit.fraction_len as i128)
    }
}

} // verus!
