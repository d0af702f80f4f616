//! Decimal numbers for CSS values.
//!
//! A `Decimal` is a sign, a natural number of decimal digits and a scale: the
//! digits with the decimal point put `scale` places from the right. Every
//! number that has a finite decimal numeral can be written this way, and it
//! is rendered digit for digit as it was given.
use crate::text::{
    append_decimal, append_fixed_width, decimal_text, digit_char, drop_digits, fixed_width_text,
    lemma_drop_digits_divides, without_digits, Render,
};
use vstd::arithmetic::div_mod::lemma_basic_div_specific_divisor;
use vstd::arithmetic::power::{lemma_pow0, pow};
use vstd::prelude::*;

verus! {

/// A decimal number: `digits / 10^scale`, negated where `negative` is set.
#[derive(Debug, Clone, Copy, PartialEq, Eq, Structural)]
pub struct Decimal {
    pub negative: bool,
    pub digits: u128,
    pub scale: u8,
}

/// Whether `c` is one of the ten decimal digits.
pub open spec fn is_digit(c: char) -> bool {
    0x30 <= c as u32 <= 0x39
}

/// The number that the digit `c` stands for.
pub open spec fn digit_value(c: char) -> nat {
    (c as u32 - 0x30) as nat
}

/// The number that a string of digits stands for, read as a decimal numeral.
pub open spec fn digits_value(s: Seq<char>) -> nat
    decreases s.len(),
{
    if s.len() == 0 {
        0
    } else {
        digits_value(s.drop_last()) * 10 + digit_value(s.last())
    }
}

/// A numeral without its minus sign, where it has one.
pub open spec fn unsigned_part(t: Seq<char>) -> Seq<char> {
    if t.len() > 0 && t[0] == '-' {
        t.skip(1)
    } else {
        t
    }
}

/// The place of the first decimal point in `b`, or the length of `b` where
/// it has none.
pub open spec fn point_index(b: Seq<char>) -> nat
    decreases b.len(),
{
    if b.len() == 0 || b[0] == '.' {
        0
    } else {
        1 + point_index(b.drop_first())
    }
}

/// The characters of `b` other than its first decimal point.
pub open spec fn without_point(b: Seq<char>) -> Seq<char> {
    let p = point_index(b) as int;
    if p < b.len() {
        b.take(p) + b.skip(p + 1)
    } else {
        b
    }
}

/// Whether the numeral `t` begins with a minus sign.
pub open spec fn numeral_negative(t: Seq<char>) -> bool {
    t.len() > 0 && t[0] == '-'
}

/// The number of characters that follow the first decimal point of the
/// numeral `t`; zero where it has no point.
pub open spec fn numeral_scale(t: Seq<char>) -> nat {
    let b = unsigned_part(t);
    let p = point_index(b);
    if p < b.len() {
        (b.len() - p - 1) as nat
    } else {
        0
    }
}

/// The number that the digits of the numeral `t` stand for, the sign and the
/// decimal point left out.
pub open spec fn numeral_digits(t: Seq<char>) -> nat {
    digits_value(without_point(unsigned_part(t)))
}

/// A digit's character stands for that digit.
pub proof fn lemma_digit_char(d: nat)
    requires
        d < 10,
    ensures
        is_digit(digit_char(d)),
        digit_value(digit_char(d)) == d,
        digit_char(d) != '.',
        digit_char(d) != '-',
{
}

/// The numeral of `n` is a non-empty string of digits that stands for `n`.
pub proof fn lemma_decimal_text_value(n: nat)
    ensures
        decimal_text(n).len() >= 1,
        forall|i: int| 0 <= i < decimal_text(n).len() ==> is_digit(#[trigger] decimal_text(n)[i]),
        digits_value(decimal_text(n)) == n,
    decreases n,
{
    let t = decimal_text(n);
    lemma_digit_char(n % 10);
    if n < 10 {
        assert(t.drop_last() =~= Seq::<char>::empty());
        assert(digits_value(t.drop_last()) == 0);
    } else {
        lemma_decimal_text_value(n / 10);
        assert(t.drop_last() =~= decimal_text(n / 10));
    }
}

/// A fixed-width numeral has exactly `width` characters, all of them digits.
pub proof fn lemma_fixed_width_text_digits(n: nat, width: nat)
    ensures
        fixed_width_text(n, width).len() == width,
        forall|i: int|
            0 <= i < width ==> is_digit(#[trigger] fixed_width_text(n, width)[i]),
    decreases width,
{
    if width > 0 {
        lemma_fixed_width_text_digits(n / 10, (width - 1) as nat);
        lemma_digit_char(n % 10);
    }
}

/// The numeral of the whole part followed by the fixed-width numeral of the
/// last `places` digits stands for the number itself.
pub proof fn lemma_split_value(n: nat, places: nat)
    ensures
        digits_value(decimal_text(drop_digits(n, places)) + fixed_width_text(n, places)) == n,
    decreases places,
{
    let whole = decimal_text(drop_digits(n, places));
    let all = whole + fixed_width_text(n, places);
    if places == 0 {
        assert(all =~= decimal_text(n));
        lemma_decimal_text_value(n);
    } else {
        let rest = (places - 1) as nat;
        lemma_split_value(n / 10, rest);
        lemma_digit_char(n % 10);
        assert(all.drop_last() =~= decimal_text(drop_digits(n / 10, rest)) + fixed_width_text(
            n / 10,
            rest,
        ));
        assert(all.last() == digit_char(n % 10));
    }
}

/// A string that begins with `k` characters other than the decimal point,
/// and then ends or has a point, has its first point at `k`.
pub proof fn lemma_point_index_found(b: Seq<char>, k: int)
    requires
        0 <= k <= b.len(),
        forall|i: int| 0 <= i < k ==> #[trigger] b[i] != '.',
        k < b.len() ==> b[k] == '.',
    ensures
        point_index(b) == k,
    decreases b.len(),
{
    if k > 0 {
        let rest = b.drop_first();
        assert(b[0] != '.');
        assert forall|i: int| 0 <= i < k - 1 implies #[trigger] rest[i] != '.' by {
            assert(rest[i] == b[i + 1]);
        }
        if k - 1 < rest.len() {
            assert(rest[k - 1] == b[k]);
        }
        lemma_point_index_found(rest, k - 1);
    }
}

/// The first decimal point lies within the string or at its end, and no
/// point stands before it.
pub proof fn lemma_point_index(b: Seq<char>)
    ensures
        point_index(b) <= b.len(),
        forall|i: int| 0 <= i < point_index(b) ==> #[trigger] b[i] != '.',
        point_index(b) < b.len() ==> b[point_index(b) as int] == '.',
    decreases b.len(),
{
    if !(b.len() == 0 || b[0] == '.') {
        let rest = b.drop_first();
        lemma_point_index(rest);
        assert forall|i: int| 0 <= i < point_index(b) implies #[trigger] b[i] != '.' by {
            if i > 0 {
                assert(b[i] == rest[i - 1]);
            }
        }
        if point_index(b) < b.len() {
            assert(b[point_index(b) as int] == rest[point_index(rest) as int]);
        }
    }
}

/// A string of digits stands for no less than any of its prefixes does.
pub proof fn lemma_digits_value_grows(s: Seq<char>, k: int)
    requires
        0 <= k <= s.len(),
    ensures
        digits_value(s.take(k)) <= digits_value(s),
    decreases s.len() - k,
{
    if k == s.len() {
        assert(s.take(k) =~= s);
    } else {
        lemma_digits_value_grows(s.drop_last(), k);
        assert(s.drop_last().take(k) =~= s.take(k));
    }
}

/// What has been read of the unsigned numeral `b` once its first `at`
/// characters are taken in: whether the decimal point is among them, how many
/// digits follow the point, and the number that the digits stand for.
pub open spec fn read_to(b: Seq<char>, at: int, seen_point: bool, scale: nat, digits: nat) -> bool {
    let p = point_index(b) as int;
    &&& 0 <= at <= b.len()
    &&& seen_point == (p < at)
    &&& if seen_point {
        scale == at - p - 1 && digits == digits_value(without_point(b).take(at - 1))
    } else {
        scale == 0 && digits == digits_value(b.take(at))
    }
}

/// Before anything is read there is no point, no scale and no digit.
pub proof fn lemma_read_start(b: Seq<char>)
    ensures
        read_to(b, 0, false, 0, 0),
{
    assert(b.take(0) =~= Seq::<char>::empty());
}

/// Reading the first decimal point changes neither the digits nor the scale.
pub proof fn lemma_read_point(b: Seq<char>, at: int, digits: nat)
    requires
        read_to(b, at, false, 0, digits),
        at < b.len(),
        b[at] == '.',
    ensures
        read_to(b, at + 1, true, 0, digits),
{
    lemma_point_index(b);
    assert(point_index(b) == at);
    assert(without_point(b).take(at) =~= b.take(at));
}

/// Reading a digit puts it after the digits read so far, and lengthens the
/// scale by one where the point has been read. The number read never exceeds
/// the number that all the digits stand for.
pub proof fn lemma_read_digit(b: Seq<char>, at: int, seen_point: bool, scale: nat, digits: nat)
    requires
        read_to(b, at, seen_point, scale, digits),
        at < b.len(),
        is_digit(b[at]),
    ensures
        read_to(
            b,
            at + 1,
            seen_point,
            if seen_point {
                scale + 1
            } else {
                scale
            },
            digits * 10 + digit_value(b[at]),
        ),
        digits * 10 + digit_value(b[at]) <= digits_value(without_point(b)),
{
    lemma_point_index(b);
    let p = point_index(b) as int;
    let shown = without_point(b);
    assert(b[at] != '.');
    assert(p != at);
    let place = if seen_point {
        at - 1
    } else {
        at
    };
    assert(place < shown.len());
    assert(shown[place] == b[at]);
    assert(shown.take(place + 1).drop_last() =~= shown.take(place));
    assert(shown.take(place + 1).last() == b[at]);
    if !seen_point {
        assert(shown.take(place) =~= b.take(at));
        assert(shown.take(place + 1) =~= b.take(at + 1));
    }
    assert(digits_value(shown.take(place + 1)) == digits * 10 + digit_value(b[at]));
    lemma_digits_value_grows(shown, place + 1);
}

/// Once every character is read, the scale and the digits are those of the
/// numeral.
pub proof fn lemma_read_end(b: Seq<char>, seen_point: bool, scale: nat, digits: nat)
    requires
        read_to(b, b.len() as int, seen_point, scale, digits),
    ensures
        scale == if point_index(b) < b.len() {
            (b.len() - point_index(b) - 1) as nat
        } else {
            0
        },
        digits == digits_value(without_point(b)),
{
    lemma_point_index(b);
    let shown = without_point(b);
    assert(b.take(b.len() as int) =~= b);
    assert(shown.take(shown.len() as int) =~= shown);
}

/// No decimal is written with a character that is neither a digit nor the
/// first decimal point after the sign.
pub proof fn lemma_no_decimal_with_stray_character(t: Seq<char>, at: int, seen_point: bool)
    requires
        0 <= at < unsigned_part(t).len(),
        seen_point == (point_index(unsigned_part(t)) < at),
        !is_digit(unsigned_part(t)[at]),
        seen_point || unsigned_part(t)[at] != '.',
    ensures
        forall|d: Decimal| d.text() != t,
{
    let b = unsigned_part(t);
    lemma_point_index(b);
    assert forall|d: Decimal| d.text() != t by {
        if d.text() == t {
            d.lemma_text_read_back();
            assert(at != point_index(b));
            assert(is_digit(b[at]));
        }
    }
}

/// No decimal is written with digits that stand for a number beyond the
/// largest that a decimal holds, nor with more than 255 digits after the
/// point.
pub proof fn lemma_no_decimal_that_large(
    t: Seq<char>,
    at: int,
    seen_point: bool,
    scale: nat,
    digits: nat,
)
    requires
        read_to(unsigned_part(t), at, seen_point, scale, digits),
        at < unsigned_part(t).len(),
        is_digit(unsigned_part(t)[at]),
        digits * 10 + digit_value(unsigned_part(t)[at]) > u128::MAX || (seen_point && scale
            >= 255),
    ensures
        forall|d: Decimal| d.text() != t,
{
    let b = unsigned_part(t);
    lemma_point_index(b);
    lemma_read_digit(b, at, seen_point, scale, digits);
    assert forall|d: Decimal| d.text() != t by {
        if d.text() == t {
            d.lemma_text_read_back();
            if seen_point && scale >= 255 {
                assert(numeral_scale(t) >= 256);
            } else {
                assert(numeral_digits(t) > u128::MAX);
            }
        }
    }
}

impl Decimal {
    /// The whole part of the magnitude: `digits / 10^scale`, rounded down.
    pub open spec fn whole(self) -> nat {
        drop_digits(self.digits as nat, self.scale as nat)
    }

    /// Whether the number is zero or below.
    pub open spec fn at_most_zero(self) -> bool {
        self.negative || self.digits == 0
    }

    /// Whether the number is one or above.
    pub open spec fn at_least_one(self) -> bool {
        !self.negative && self.whole() >= 1
    }

    /// The number brought into the range from zero to one: zero for a number
    /// at or below zero, one for a number at or above one, and the number as
    /// it is in between.
    pub open spec fn clamped(self) -> Decimal {
        if self.at_most_zero() {
            Decimal { negative: false, digits: 0, scale: 0 }
        } else if self.at_least_one() {
            Decimal { negative: false, digits: 1, scale: 0 }
        } else {
            self
        }
    }

    /// The number `digits / 10^scale`, negated where `negative` is set.
    pub fn new(negative: bool, digits: u128, scale: u8) -> (d: Decimal)
        ensures
            d == (Decimal { negative, digits, scale }),
    {
        Decimal { negative, digits, scale }
    }

    /// A clamped number lies in the range from zero to one: it is not
    /// negative, and its digits do not exceed ten to the power of its scale.
    /// A number in that range other than minus zero is left as it is written,
    /// except that zero and one lose their fraction digits.
    pub proof fn lemma_clamped_in_range(self)
        ensures
            !self.clamped().negative,
            self.clamped().digits <= pow(10, self.clamped().scale as nat),
            self.clamped().clamped() == self.clamped(),
            !self.negative && 0 < self.digits < pow(10, self.scale as nat) ==> self.clamped()
                == self,
    {
        lemma_pow0(10);
        lemma_drop_digits_divides(self.digits as nat, self.scale as nat);
        let p = pow(10, self.scale as nat);
        assert(self.whole() == self.digits as int / p);
        if self.digits < p {
            lemma_basic_div_specific_divisor(p);
            assert(self.whole() == 0);
        } else {
            assert(self.digits as int / p >= 1) by (nonlinear_arith)
                requires
                    self.digits >= p,
                    p > 0,
            ;
        }
        let c = self.clamped();
        if !self.at_most_zero() && !self.at_least_one() {
            assert(c == self);
            assert(c.whole() == 0);
        } else if !self.at_most_zero() {
            assert(c.whole() == 1);
        }
    }

    /// The number brought into the range from zero to one.
    pub fn clamp_to_unit(self) -> (d: Decimal)
        ensures
            d == self.clamped(),
            !d.negative,
            d.digits <= pow(10, d.scale as nat),
    {
        proof {
            self.lemma_clamped_in_range();
        }
        if self.negative || self.digits == 0 {
            Decimal { negative: false, digits: 0, scale: 0 }
        } else if without_digits(self.digits, self.scale) >= 1 {
            Decimal { negative: false, digits: 1, scale: 0 }
        } else {
            self
        }
    }

    /// The numeral of a decimal is made of an optional minus sign, digits, and
    /// after them at most one decimal point with digits; the sign, the scale
    /// and the digits can be read back from it.
    pub proof fn lemma_text_read_back(self)
        ensures
            numeral_negative(self.text()) == self.negative,
            numeral_scale(self.text()) == self.scale,
            numeral_digits(self.text()) == self.digits,
            forall|i: int|
                0 <= i < unsigned_part(self.text()).len() && i != point_index(
                    unsigned_part(self.text()),
                ) ==> is_digit(#[trigger] unsigned_part(self.text())[i]),
    {
        let t = self.text();
        let whole = decimal_text(self.whole());
        let places = fixed_width_text(self.digits as nat, self.scale as nat);
        let w = whole.len() as int;
        lemma_decimal_text_value(self.whole());
        lemma_fixed_width_text_digits(self.digits as nat, self.scale as nat);
        lemma_split_value(self.digits as nat, self.scale as nat);
        let body = if self.scale == 0 {
            whole
        } else {
            whole + seq!['.'] + places
        };
        assert(is_digit(whole[0]));
        if self.negative {
            assert(t =~= seq!['-'] + body);
            assert(t[0] == '-');
            assert(t.skip(1) =~= body);
        } else {
            assert(t =~= body);
            assert(t[0] == whole[0]);
        }
        assert(unsigned_part(t) == body);
        assert forall|i: int| 0 <= i < w implies #[trigger] body[i] != '.' by {
            assert(body[i] == whole[i]);
            assert(is_digit(whole[i]));
        }
        lemma_point_index_found(body, w);
        if self.scale == 0 {
            assert(without_point(body) == body);
            assert(whole + places =~= whole);
        } else {
            assert(body.take(w) + body.skip(w + 1) =~= whole + places);
        }
        assert forall|i: int| 0 <= i < body.len() && i != point_index(body) implies is_digit(
            #[trigger] body[i],
        ) by {
            if i < w {
                assert(body[i] == whole[i]);
            } else {
                assert(body[i] == places[i - w - 1]);
            }
        }
    }

    /// Two decimals that are written alike are the same decimal.
    pub proof fn lemma_text_is_injective(self, other: Decimal)
        requires
            self.text() == other.text(),
        ensures
            self == other,
    {
        self.lemma_text_read_back();
        other.lemma_text_read_back();
    }

    /// Reads a numeral: the one decimal that is written as `s`, where there
    /// is one, and `None` where no decimal is written so.
    pub fn parse(s: &str) -> (r: Option<Decimal>)
        ensures
            match r {
                Some(d) => d.text() == s@ && forall|e: Decimal| e.text() == s@ ==> e == d,
                None => forall|d: Decimal| d.text() != s@,
            },
    {
        let n = s.unicode_len();
        let negative = n > 0 && s.get_char(0) == '-';
        let start: usize = if negative {
            1
        } else {
            0
        };
        let ghost body = unsigned_part(s@);
        assert(body =~= s@.skip(start as int));
        let mut digits: u128 = 0;
        let mut scale: u8 = 0;
        let mut seen_point = false;
        let mut k: usize = start;
        proof {
            lemma_read_start(body);
        }
        while k < n
            invariant
                n == s@.len(),
                start <= k <= n,
                body == s@.skip(start as int),
                body == unsigned_part(s@),
                negative == numeral_negative(s@),
                read_to(body, k - start, seen_point, scale as nat, digits as nat),
            decreases n - k,
        {
            let c = s.get_char(k);
            let ghost at = k - start;
            assert(body[at] == c);
            if c == '.' && !seen_point {
                proof {
                    lemma_read_point(body, at, digits as nat);
                }
                seen_point = true;
            } else {
                let u: u32 = c as u32;
                if u < 0x30 || u > 0x39 {
                    proof {
                        lemma_no_decimal_with_stray_character(s@, at, seen_point);
                    }
                    return None;
                }
                let value: u128 = (u - 0x30) as u128;
                proof {
                    lemma_read_digit(body, at, seen_point, scale as nat, digits as nat);
                }
                if digits > (u128::MAX - value) / 10 || (seen_point && scale == 255) {
                    proof {
                        lemma_no_decimal_that_large(
                            s@,
                            at,
                            seen_point,
                            scale as nat,
                            digits as nat,
                        );
                    }
                    return None;
                }
                digits = digits * 10 + value;
                if seen_point {
                    scale = scale + 1;
                }
            }
            k += 1;
        }
        let candidate = Decimal { negative, digits, scale };
        proof {
            lemma_read_end(body, seen_point, scale as nat, digits as nat);
        }
        let written = candidate.render();
        let given = String::from_str(s);
        if written == given {
            proof {
                assert forall|e: Decimal| e.text() == s@ implies e == candidate by {
                    candidate.lemma_text_is_injective(e);
                }
            }
            Some(candidate)
        } else {
            proof {
                assert forall|d: Decimal| d.text() != s@ by {
                    if d.text() == s@ {
                        d.lemma_text_read_back();
                        assert(d == candidate);
                    }
                }
            }
            None
        }
    }
}

impl Render for Decimal {
    /// The sign, the numeral of the whole part and, where the scale is not
    /// zero, a point and exactly `scale` digits.
    open spec fn text(&self) -> Seq<char> {
        let sign = if self.negative {
            seq!['-']
        } else {
            Seq::empty()
        };
        let fraction = if self.scale == 0 {
            Seq::empty()
        } else {
            seq!['.'] + fixed_width_text(self.digits as nat, self.scale as nat)
        };
        sign + decimal_text(self.whole()) + fraction
    }

    fn render(&self) -> (out: String) {
        let mut out = String::new();
        if self.negative {
            out.append("-");
        }
        append_decimal(&mut out, without_digits(self.digits, self.scale));
        if self.scale > 0 {
            out.append(".");
            append_fixed_width(&mut out, self.digits, self.scale);
        }
        proof {
            reveal_strlit("-");
            reveal_strlit(".");
            assert(out@ =~= self.text());
        }
        out
    }
}

} // verus!
