//! Fixed-point numbers.
//!
//! Prices, areas, room counts and coordinates are held as a whole number of
//! millionths, so they can be compared and printed exactly.

use vstd::prelude::*;
use crate::text::chars_of;
use crate::text::text_of;

verus! {

/// How many millionths make one unit.
pub const MICROS_PER_UNIT: u64 = 1_000_000;

/// The number of fraction digits a [`Decimal`] keeps.
pub const FRACTION_DIGITS: usize = 6;

/// The largest number of whole units whose millionths fit an `i64`.
pub const MAX_UNITS: u64 = 9_223_372_036_854;

/// A number with six decimal places, stored as millionths.
#[derive(Clone, Copy, Debug, PartialEq, Eq, Structural)]
pub struct Decimal {
    pub micros: i64,
}

/// Whether `c` is one of `0` to `9`.
pub open spec fn is_digit(c: char) -> bool {
    '0' <= c && c <= '9'
}

/// The value of the digit `c`.
pub open spec fn digit_value(c: char) -> nat {
    (c as u32 - '0' as u32) as nat
}

/// The character for a digit value below ten.
pub open spec fn digit_char(d: nat) -> char {
    if d == 0 {
        '0'
    } else if d == 1 {
        '1'
    } else if d == 2 {
        '2'
    } else if d == 3 {
        '3'
    } else if d == 4 {
        '4'
    } else if d == 5 {
        '5'
    } else if d == 6 {
        '6'
    } else if d == 7 {
        '7'
    } else if d == 8 {
        '8'
    } else {
        '9'
    }
}

/// Whether every character of `s` is a digit.
pub open spec fn all_digits(s: Seq<char>) -> bool {
    forall|i: int| 0 <= i < s.len() ==> is_digit(#[trigger] s[i])
}

/// The number written by the digits `s`, most significant first.
pub open spec fn digits_value(s: Seq<char>) -> nat
    decreases s.len(),
{
    if s.len() == 0 {
        0
    } else {
        digits_value(s.drop_last()) * 10 + digit_value(s.last())
    }
}

/// The length of the longest prefix of `s` that holds only digits.
pub open spec fn digit_run(s: Seq<char>) -> nat
    decreases s.len(),
{
    if s.len() == 0 || !is_digit(s[0]) {
        0
    } else {
        1 + digit_run(s.skip(1))
    }
}

/// The first six fraction digits of `frac`, with zeros where it is shorter.
pub open spec fn six_digits(frac: Seq<char>) -> Seq<char> {
    Seq::new(
        6,
        |i: int|
            if i < frac.len() {
                frac[i]
            } else {
                '0'
            },
    )
}

/// The millionths written by the fraction digits `frac`: the first six
/// digits count, missing ones are zero and further ones are cut off.
pub open spec fn fraction_micros(frac: Seq<char>) -> nat {
    digits_value(six_digits(frac))
}

/// The sign, whole digits and fraction digits of a decimal literal.
pub struct Literal {
    pub negative: bool,
    pub whole: Seq<char>,
    pub fraction: Seq<char>,
}

/// Splits `s` as a decimal literal: an optional `-`, one or more digits and
/// optionally a `.` followed by one or more digits. `None` for any other
/// text.
pub open spec fn literal_of(s: Seq<char>) -> Option<Literal> {
    let negative = s.len() > 0 && s[0] == '-';
    let body = if negative {
        s.skip(1)
    } else {
        s
    };
    let run = digit_run(body) as int;
    let rest = body.skip(run);
    if run == 0 {
        None
    } else if rest.len() == 0 {
        Some(Literal { negative, whole: body.take(run), fraction: Seq::empty() })
    } else if rest[0] == '.' && rest.len() > 1 && all_digits(rest.skip(1)) {
        Some(Literal { negative, whole: body.take(run), fraction: rest.skip(1) })
    } else {
        None
    }
}

/// The millionths a literal stands for, cut off at the largest `i64`.
pub open spec fn literal_micros(l: Literal) -> int {
    let exact = digits_value(l.whole) * 1_000_000 + fraction_micros(l.fraction);
    let capped = if exact > i64::MAX {
        i64::MAX as int
    } else {
        exact as int
    };
    if l.negative {
        -capped
    } else {
        capped
    }
}

/// The number that the text `s` writes, if it is a decimal literal.
pub open spec fn parsed(s: Seq<char>) -> Option<Decimal> {
    match literal_of(s) {
        Some(l) => Some(Decimal { micros: literal_micros(l) as i64 }),
        None => None,
    }
}

/// The decimal digits of `n`, most significant first, without leading zeros.
pub open spec fn decimal_digits(n: nat) -> Seq<char>
    decreases n,
{
    if n < 10 {
        seq![digit_char(n)]
    } else {
        decimal_digits(n / 10).push(digit_char(n % 10))
    }
}

/// The last `width` decimal digits of `n`, with leading zeros.
pub open spec fn padded_digits(n: nat, width: nat) -> Seq<char>
    decreases width,
{
    if width == 0 {
        Seq::empty()
    } else {
        padded_digits(n / 10, (width - 1) as nat).push(digit_char(n % 10))
    }
}

/// The digits after the point for `frac` out of `10^width`, without
/// trailing zeros.
pub open spec fn fraction_digits(frac: nat, width: nat) -> Seq<char>
    decreases width,
{
    if width == 0 {
        Seq::empty()
    } else if frac % 10 == 0 {
        fraction_digits(frac / 10, (width - 1) as nat)
    } else {
        padded_digits(frac, width)
    }
}

/// The absolute value of `micros`.
pub open spec fn magnitude(micros: int) -> nat {
    if micros < 0 {
        (-micros) as nat
    } else {
        micros as nat
    }
}

/// How a number of millionths is written: the whole part, and the fraction
/// after a point only where it is not zero.
pub open spec fn written(micros: int) -> Seq<char> {
    let m = magnitude(micros);
    let sign = if micros < 0 {
        seq!['-']
    } else {
        Seq::empty()
    };
    let whole = decimal_digits(m / 1_000_000);
    if m % 1_000_000 == 0 {
        sign + whole
    } else {
        sign + whole + seq!['.'] + fraction_digits(m % 1_000_000, 6)
    }
}

/// The whole units of a number of millionths, rounded towards zero and kept
/// within the range of an `i32`.
pub open spec fn whole_units(micros: int) -> int {
    let units = (magnitude(micros) / 1_000_000) as int;
    if micros < 0 {
        if units > 2_147_483_648 {
            -2_147_483_648
        } else {
            -units
        }
    } else {
        if units > 2_147_483_647 {
            2_147_483_647
        } else {
            units
        }
    }
}

} // verus!

verus! {

/// Adding a digit at the end multiplies the value by ten and adds the digit.
pub proof fn lemma_digits_push(s: Seq<char>, c: char)
    ensures
        digits_value(s.push(c)) == digits_value(s) * 10 + digit_value(c),
{
    assert(s.push(c).drop_last() =~= s);
    assert(s.push(c).last() == c);
}

/// A run of `k` digits that ends at the end of `s` or before a character
/// that is no digit is the digit run of `s`.
pub proof fn lemma_digit_run(s: Seq<char>, k: nat)
    requires
        k <= s.len(),
        forall|j: int| 0 <= j < k ==> is_digit(#[trigger] s[j]),
        k == s.len() || !is_digit(s[k as int]),
    ensures
        digit_run(s) == k,
    decreases k,
{
    if k > 0 {
        let t = s.skip(1);
        assert forall|j: int| 0 <= j < k - 1 implies is_digit(#[trigger] t[j]) by {
            assert(t[j] == s[j + 1]);
        }
        lemma_digit_run(t, (k - 1) as nat);
    }
}

/// The digit that `c` writes, if it is one.
fn digit_of(c: char) -> (r: Option<u64>)
    ensures
        r is Some <==> is_digit(c),
        r matches Some(d) ==> d == digit_value(c) && d < 10,
{
    let v: u32 = c as u32;
    if 48 <= v && v <= 57 {
        Some((v - 48) as u64)
    } else {
        None
    }
}

/// The character that writes the digit `d`.
fn char_of_digit(d: u64) -> (c: char)
    requires
        d < 10,
    ensures
        c == digit_char(d as nat),
{
    if d == 0 {
        '0'
    } else if d == 1 {
        '1'
    } else if d == 2 {
        '2'
    } else if d == 3 {
        '3'
    } else if d == 4 {
        '4'
    } else if d == 5 {
        '5'
    } else if d == 6 {
        '6'
    } else if d == 7 {
        '7'
    } else if d == 8 {
        '8'
    } else {
        '9'
    }
}

/// `n`, but no more than `cap`.
pub open spec fn at_most(n: nat, cap: nat) -> nat {
    if n > cap {
        cap
    } else {
        n
    }
}

/// Reads the digits of `chars` from `start` on. Returns where the run of
/// digits ends and its value, which is cut off above `MAX_UNITS + 1`.
fn read_whole(chars: &Vec<char>, start: usize) -> (r: (usize, u64))
    requires
        start <= chars.len(),
    ensures
        start <= r.0 <= chars.len(),
        r.0 - start == digit_run(chars@.skip(start as int)),
        r.1 == at_most(
            digits_value(chars@.subrange(start as int, r.0 as int)),
            (MAX_UNITS + 1) as nat,
        ),
{
    let n = chars.len();
    let mut i: usize = start;
    let mut units: u64 = 0;
    let mut more = true;
    assert(chars@.subrange(start as int, start as int) =~= Seq::<char>::empty());
    while more && i < n
        invariant
            n == chars.len(),
            start <= i <= n,
            forall|j: int| start <= j < i ==> is_digit(#[trigger] chars@[j]),
            !more ==> i < n && !is_digit(chars@[i as int]),
            units == at_most(
                digits_value(chars@.subrange(start as int, i as int)),
                (MAX_UNITS + 1) as nat,
            ),
        decreases (n - i) + if more { 1int } else { 0int },
    {
        match digit_of(chars[i]) {
            Some(d) => {
                proof {
                    let before = chars@.subrange(start as int, i as int);
                    assert(chars@.subrange(start as int, i + 1) =~= before.push(chars@[i as int]));
                    lemma_digits_push(before, chars@[i as int]);
                }
                units = if units > MAX_UNITS {
                    MAX_UNITS + 1
                } else if units * 10 + d > MAX_UNITS {
                    MAX_UNITS + 1
                } else {
                    units * 10 + d
                };
                i += 1;
            },
            None => {
                more = false;
            },
        }
    }
    proof {
        let body = chars@.skip(start as int);
        assert forall|j: int| 0 <= j < i - start implies is_digit(#[trigger] body[j]) by {
            assert(body[j] == chars@[j + start]);
        }
        if i < n {
            assert(body[i - start] == chars@[i as int]);
        }
        lemma_digit_run(body, (i - start) as nat);
    }
    (i, units)
}

} // verus!

verus! {

/// Reads the fraction digits of `chars` from `start` to the end. `None`
/// where a character there is no digit.
fn read_fraction(chars: &Vec<char>, start: usize) -> (r: Option<u64>)
    requires
        start <= chars.len(),
    ensures
        r is Some <==> all_digits(chars@.skip(start as int)),
        r matches Some(v) ==> v == fraction_micros(chars@.skip(start as int)) && v < 1_000_000,
{
    let n = chars.len();
    let ghost frac = chars@.skip(start as int);
    let mut j: usize = start;
    while j < n
        invariant
            n == chars.len(),
            start <= j <= n,
            frac == chars@.skip(start as int),
            forall|k: int| 0 <= k < j - start ==> is_digit(#[trigger] frac[k]),
        decreases n - j,
    {
        if digit_of(chars[j]).is_none() {
            assert(frac[j - start] == chars@[j as int]);
            return None;
        }
        assert(frac[j - start] == chars@[j as int]);
        j += 1;
    }
    let mut value: u64 = 0;
    let mut bound: u64 = 1;
    let mut p: usize = 0;
    assert(six_digits(frac).take(0) =~= Seq::<char>::empty());
    while p < 6
        invariant
            n == chars.len(),
            start <= n,
            frac == chars@.skip(start as int),
            all_digits(frac),
            p <= 6,
            value == digits_value(six_digits(frac).take(p as int)),
            value < bound,
            (p == 0 && bound == 1) || (p == 1 && bound == 10) || (p == 2 && bound == 100) || (p == 3
                && bound == 1_000) || (p == 4 && bound == 10_000) || (p == 5 && bound == 100_000)
                || (p == 6 && bound == 1_000_000),
        decreases 6 - p,
    {
        let d: u64 = if p < n - start {
            assert(frac[p as int] == chars@[start + p]);
            match digit_of(chars[start + p]) {
                Some(d) => d,
                None => 0,
            }
        } else {
            0
        };
        proof {
            let six = six_digits(frac);
            assert(six.take(p + 1) =~= six.take(p as int).push(six[p as int]));
            lemma_digits_push(six.take(p as int), six[p as int]);
            assert(d == digit_value(six[p as int]));
        }
        value = value * 10 + d;
        bound = bound * 10;
        p += 1;
    }
    assert(six_digits(frac).take(6) =~= six_digits(frac));
    Some(value)
}

impl Decimal {
    /// The whole number `units`.
    pub fn from_units(units: i32) -> (r: Decimal)
        ensures
            r.micros == units * 1_000_000,
    {
        Decimal { micros: (units as i64) * 1_000_000 }
    }

    /// Reads a decimal literal: an optional `-`, digits, and optionally a
    /// point followed by digits. Digits after the sixth fraction digit are
    /// dropped, and a number too large for the type becomes the largest one.
    pub fn parse(text: &str) -> (r: Option<Decimal>)
        ensures
            r == parsed(text@),
    {
        let chars = chars_of(text);
        let n = chars.len();
        let negative = n > 0 && chars[0] == '-';
        let start: usize = if negative {
            1
        } else {
            0
        };
        let ghost body = chars@.skip(start as int);
        let (end, units) = read_whole(&chars, start);
        let ghost rest = body.skip(end - start);
        proof {
            assert(chars@.skip(0) =~= chars@);
            assert(body.take(end - start) =~= chars@.subrange(start as int, end as int));
            assert(rest =~= chars@.skip(end as int));
            if end < n {
                assert(rest[0] == chars@[end as int]);
            }
        }
        if end == start {
            return None;
        }
        let fraction: u64 = if end == n {
            proof {
                lemma_zero_fraction();
            }
            0
        } else if chars[end] == '.' && end + 1 < n {
            assert(rest.skip(1) =~= chars@.skip(end + 1));
            match read_fraction(&chars, end + 1) {
                Some(v) => v,
                None => {
                    return None;
                },
            }
        } else {
            return None;
        };
        let total: u64 = units * 1_000_000 + fraction;
        let capped: i64 = if total > 9_223_372_036_854_775_807 {
            9_223_372_036_854_775_807
        } else {
            total as i64
        };
        let micros: i64 = if negative {
            -capped
        } else {
            capped
        };
        Some(Decimal { micros })
    }
}

/// A literal without fraction digits has no millionths after the point.
proof fn lemma_zero_fraction()
    ensures
        fraction_micros(Seq::<char>::empty()) == 0,
{
    let six = six_digits(Seq::<char>::empty());
    assert(six.len() == 6);
    assert forall|k: nat| k <= 6 implies digits_value(#[trigger] six.take(k as int)) == 0 by {
        lemma_zero_prefix(six, k);
    }
    assert(six.take(6) =~= six);
}

/// A prefix of zeros has the value zero.
proof fn lemma_zero_prefix(s: Seq<char>, k: nat)
    requires
        k <= s.len(),
        forall|i: int| 0 <= i < s.len() ==> s[i] == '0',
    ensures
        digits_value(s.take(k as int)) == 0,
    decreases k,
{
    if k > 0 {
        lemma_zero_prefix(s, (k - 1) as nat);
        assert(s.take(k as int).drop_last() =~= s.take(k - 1));
    }
}

} // verus!

verus! {

/// The decimal digits of `n`.
fn digits_of(n: u64) -> (out: Vec<char>)
    ensures
        out@ == decimal_digits(n as nat),
    decreases n,
{
    if n < 10 {
        let mut out: Vec<char> = Vec::new();
        out.push(char_of_digit(n));
        assert(out@ =~= seq![digit_char(n as nat)]);
        out
    } else {
        let mut out = digits_of(n / 10);
        out.push(char_of_digit(n % 10));
        out
    }
}

/// The last `width` decimal digits of `n`.
fn padded_of(n: u64, width: usize) -> (out: Vec<char>)
    ensures
        out@ == padded_digits(n as nat, width as nat),
    decreases width,
{
    if width == 0 {
        Vec::new()
    } else {
        let mut out = padded_of(n / 10, width - 1);
        out.push(char_of_digit(n % 10));
        out
    }
}

/// The digits after the point for `frac`, without trailing zeros.
fn fraction_of(frac: u64, width: usize) -> (out: Vec<char>)
    ensures
        out@ == fraction_digits(frac as nat, width as nat),
    decreases width,
{
    if width == 0 {
        Vec::new()
    } else if frac % 10 == 0 {
        fraction_of(frac / 10, width - 1)
    } else {
        padded_of(frac, width)
    }
}

/// Appends `more` to `out`.
pub fn extend_chars(out: &mut Vec<char>, more: &Vec<char>)
    ensures
        final(out)@ == old(out)@ + more@,
{
    let mut i: usize = 0;
    while i < more.len()
        invariant
            i <= more.len(),
            out@ == old(out)@ + more@.take(i as int),
        decreases more.len() - i,
    {
        out.push(more[i]);
        assert(more@.take(i + 1) =~= more@.take(i as int).push(more@[i as int]));
        assert(out@ =~= old(out)@ + more@.take(i + 1));
        i += 1;
    }
    assert(more@.take(more@.len() as int) =~= more@);
}

impl Decimal {
    /// The size of the number without its sign, in millionths.
    fn magnitude(&self) -> (m: u64)
        ensures
            m == magnitude(self.micros as int),
    {
        if self.micros < 0 {
            ((-(self.micros + 1)) as u64) + 1
        } else {
            self.micros as u64
        }
    }

    /// The whole units, rounded towards zero and kept within an `i32`.
    pub fn units(&self) -> (r: i32)
        ensures
            r == whole_units(self.micros as int),
    {
        let units: u64 = self.magnitude() / MICROS_PER_UNIT;
        if self.micros < 0 {
            if units > 2_147_483_648 {
                -2_147_483_648
            } else {
                (-(units as i64)) as i32
            }
        } else {
            if units > 2_147_483_647 {
                2_147_483_647
            } else {
                units as i32
            }
        }
    }

    /// The number as text: its whole part, then a point and the fraction
    /// digits where there are any.
    pub fn to_text(&self) -> (out: String)
        ensures
            out@ == written(self.micros as int),
    {
        let m = self.magnitude();
        let mut chars: Vec<char> = Vec::new();
        if self.micros < 0 {
            chars.push('-');
        }
        let ghost sign = chars@;
        assert(sign =~= if self.micros < 0 {
            seq!['-']
        } else {
            Seq::<char>::empty()
        });
        let whole = digits_of(m / MICROS_PER_UNIT);
        extend_chars(&mut chars, &whole);
        if m % MICROS_PER_UNIT != 0 {
            chars.push('.');
            let fraction = fraction_of(m % MICROS_PER_UNIT, FRACTION_DIGITS);
            extend_chars(&mut chars, &fraction);
            assert(chars@ =~= sign + whole@ + seq!['.'] + fraction@);
        }
        text_of(&chars)
    }
}

} // verus!
