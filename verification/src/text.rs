//! Text rendering: the `Render` trait and the character-level helpers that the
//! value types share (decimal digits, whitespace trimming).
use vstd::arithmetic::div_mod::lemma_div_denominator;
use vstd::arithmetic::power::{lemma_pow0, lemma_pow_positive, pow};
use vstd::prelude::*;

verus! {

/// A value with a canonical CSS text.
///
/// `text` is the mathematical definition of that text; `render` computes it.
/// The text is a function of the value alone, so rendering the same value
/// twice gives the same characters.
pub trait Render {
    spec fn text(&self) -> Seq<char>;

    fn render(&self) -> (out: String)
        ensures
            out@ == self.text(),
    ;
}

impl Render for &str {
    open spec fn text(&self) -> Seq<char> {
        (*self)@
    }

    fn render(&self) -> (out: String) {
        String::from_str(*self)
    }
}

impl Render for String {
    open spec fn text(&self) -> Seq<char> {
        self@
    }

    fn render(&self) -> (out: String) {
        self.clone()
    }
}

/// The character that writes the decimal digit `d`.
pub open spec fn digit_char(d: nat) -> char {
    if d == 0 {
        '0'
    } else if d == 1 {
        '1'
    } else if d == 2 {
        '2'
    } else if d == 3 {
        '3'
    } else if d == 4 {
        '4'
    } else if d == 5 {
        '5'
    } else if d == 6 {
        '6'
    } else if d == 7 {
        '7'
    } else if d == 8 {
        '8'
    } else {
        '9'
    }
}

/// The decimal numeral of `n`, without sign and without leading zeros.
pub open spec fn decimal_text(n: nat) -> Seq<char>
    decreases n,
{
    if n < 10 {
        seq![digit_char(n)]
    } else {
        decimal_text(n / 10).push(digit_char(n % 10))
    }
}

/// The decimal numeral of an integer: a minus sign for negative values, then
/// the numeral of its magnitude.
pub open spec fn integer_text(v: int) -> Seq<char> {
    if v < 0 {
        seq!['-'] + decimal_text((-v) as nat)
    } else {
        decimal_text(v as nat)
    }
}

/// The last `width` decimal digits of `n`, written with exactly `width`
/// characters (zero-padded on the left).
pub open spec fn fixed_width_text(n: nat, width: nat) -> Seq<char>
    decreases width,
{
    if width == 0 {
        Seq::empty()
    } else {
        fixed_width_text(n / 10, (width - 1) as nat).push(digit_char(n % 10))
    }
}

/// `n` with its last `places` decimal digits removed, that is `n / 10^places`.
pub open spec fn drop_digits(n: nat, places: nat) -> nat
    decreases places,
{
    if places == 0 {
        n
    } else {
        drop_digits(n / 10, (places - 1) as nat)
    }
}

/// Removing `places` decimal digits divides by the matching power of ten.
pub proof fn lemma_drop_digits_divides(n: nat, places: nat)
    ensures
        pow(10, places) > 0,
        drop_digits(n, places) == n as int / pow(10, places),
    decreases places,
{
    lemma_pow_positive(10, places);
    if places == 0 {
        lemma_pow0(10);
    } else {
        let rest = (places - 1) as nat;
        lemma_drop_digits_divides(n / 10, rest);
        lemma_pow_positive(10, rest);
        assert(pow(10, places) == 10 * pow(10, rest)) by {
            reveal(pow);
        }
        lemma_div_denominator(n as int, 10, pow(10, rest));
    }
}

/// The one-character string of a decimal digit.
fn digit_str(d: u8) -> (s: &'static str)
    requires
        d < 10,
    ensures
        s@ == seq![digit_char(d as nat)],
{
    proof {
        reveal_strlit("0");
        reveal_strlit("1");
        reveal_strlit("2");
        reveal_strlit("3");
        reveal_strlit("4");
        reveal_strlit("5");
        reveal_strlit("6");
        reveal_strlit("7");
        reveal_strlit("8");
        reveal_strlit("9");
    }
    let s = if d == 0 {
        "0"
    } else if d == 1 {
        "1"
    } else if d == 2 {
        "2"
    } else if d == 3 {
        "3"
    } else if d == 4 {
        "4"
    } else if d == 5 {
        "5"
    } else if d == 6 {
        "6"
    } else if d == 7 {
        "7"
    } else if d == 8 {
        "8"
    } else {
        "9"
    };
    assert(s@ =~= seq![digit_char(d as nat)]);
    s
}

/// Appends the decimal numeral of `n` to `out`.
pub fn append_decimal(out: &mut String, n: u128)
    ensures
        final(out)@ == old(out)@ + decimal_text(n as nat),
    decreases n,
{
    if n >= 10 {
        append_decimal(out, n / 10);
    }
    let d: u8 = (n % 10) as u8;
    out.append(digit_str(d));
    assert(out@ =~= old(out)@ + decimal_text(n as nat));
}

/// Appends the last `width` decimal digits of `n` to `out`, zero-padded.
pub fn append_fixed_width(out: &mut String, n: u128, width: u8)
    ensures
        final(out)@ == old(out)@ + fixed_width_text(n as nat, width as nat),
    decreases width,
{
    if width > 0 {
        append_fixed_width(out, n / 10, width - 1);
        let d: u8 = (n % 10) as u8;
        out.append(digit_str(d));
    }
    assert(out@ =~= old(out)@ + fixed_width_text(n as nat, width as nat));
}

/// Removes the last `places` decimal digits of `n`: divides it by ten to the
/// power of `places`, rounding down.
pub fn without_digits(n: u128, places: u8) -> (r: u128)
    ensures
        r == drop_digits(n as nat, places as nat),
        r == n as int / pow(10, places as nat),
    decreases places,
{
    proof {
        lemma_drop_digits_divides(n as nat, places as nat);
    }
    if places == 0 {
        n
    } else {
        without_digits(n / 10, places - 1)
    }
}

/// The decimal numeral of an unsigned integer.
pub fn decimal_string(n: u128) -> (out: String)
    ensures
        out@ == decimal_text(n as nat),
{
    let mut out = String::new();
    append_decimal(&mut out, n);
    assert(out@ =~= decimal_text(n as nat));
    out
}

/// The decimal numeral of a signed integer.
pub fn integer_string(v: i64) -> (out: String)
    ensures
        out@ == integer_text(v as int),
{
    let mut out = String::new();
    if v < 0 {
        out.append("-");
        let magnitude: u128 = (-(v as i128)) as u128;
        append_decimal(&mut out, magnitude);
        proof {
            reveal_strlit("-");
        }
        assert(out@ =~= integer_text(v as int));
    } else {
        append_decimal(&mut out, v as u128);
        assert(out@ =~= integer_text(v as int));
    }
    out
}

/// Whether `c` is white space (the Unicode property `White_Space`).
pub open spec fn is_space(c: char) -> bool {
    let u = c as u32;
    ||| 0x09 <= u <= 0x0D
    ||| u == 0x20
    ||| u == 0x85
    ||| u == 0xA0
    ||| u == 0x1680
    ||| 0x2000 <= u <= 0x200A
    ||| u == 0x2028
    ||| u == 0x2029
    ||| u == 0x202F
    ||| u == 0x205F
    ||| u == 0x3000
}

/// The number of white-space characters at the start of `s`.
pub open spec fn leading_spaces(s: Seq<char>) -> nat
    decreases s.len(),
{
    if s.len() > 0 && is_space(s[0]) {
        1 + leading_spaces(s.drop_first())
    } else {
        0
    }
}

/// The number of white-space characters at the end of `s`.
pub open spec fn trailing_spaces(s: Seq<char>) -> nat
    decreases s.len(),
{
    if s.len() > 0 && is_space(s.last()) {
        1 + trailing_spaces(s.drop_last())
    } else {
        0
    }
}

/// `s` without its leading and trailing white space.
pub open spec fn trimmed(s: Seq<char>) -> Seq<char> {
    let front = s.skip(leading_spaces(s) as int);
    front.take(front.len() - trailing_spaces(front))
}

/// Whether `s` neither starts nor ends with white space.
pub open spec fn is_trimmed(s: Seq<char>) -> bool {
    s.len() > 0 ==> !is_space(s[0]) && !is_space(s.last())
}

/// The leading white space of `s` is a prefix of `s`, made of white space
/// only, and is followed by a character that is not white space.
pub proof fn lemma_leading_spaces(s: Seq<char>)
    ensures
        leading_spaces(s) <= s.len(),
        forall|i: int| 0 <= i < leading_spaces(s) ==> is_space(#[trigger] s[i]),
        leading_spaces(s) < s.len() ==> !is_space(s[leading_spaces(s) as int]),
    decreases s.len(),
{
    if s.len() > 0 && is_space(s[0]) {
        let rest = s.drop_first();
        lemma_leading_spaces(rest);
        assert forall|i: int| 0 <= i < leading_spaces(s) implies is_space(#[trigger] s[i]) by {
            if i > 0 {
                assert(s[i] == rest[i - 1]);
            }
        }
        if leading_spaces(s) < s.len() {
            assert(s[leading_spaces(s) as int] == rest[leading_spaces(rest) as int]);
        }
    }
}

/// The trailing white space of `s` is a suffix of `s`, made of white space
/// only, and is preceded by a character that is not white space.
pub proof fn lemma_trailing_spaces(s: Seq<char>)
    ensures
        trailing_spaces(s) <= s.len(),
        forall|i: int| s.len() - trailing_spaces(s) <= i < s.len() ==> is_space(#[trigger] s[i]),
        trailing_spaces(s) < s.len() ==> !is_space(s[s.len() - trailing_spaces(s) - 1]),
    decreases s.len(),
{
    if s.len() > 0 && is_space(s.last()) {
        let rest = s.drop_last();
        lemma_trailing_spaces(rest);
        assert forall|i: int| s.len() - trailing_spaces(s) <= i < s.len() implies is_space(
            #[trigger] s[i],
        ) by {
            if i < s.len() - 1 {
                assert(s[i] == rest[i]);
            }
        }
        if trailing_spaces(s) < s.len() {
            assert(s[s.len() - trailing_spaces(s) - 1] == rest[rest.len() - trailing_spaces(rest)
                - 1]);
        }
    }
}

/// A count of leading white space is determined by the first character that
/// is not white space.
pub proof fn lemma_leading_spaces_found(s: Seq<char>, k: int)
    requires
        0 <= k <= s.len(),
        forall|i: int| 0 <= i < k ==> is_space(#[trigger] s[i]),
        k < s.len() ==> !is_space(s[k]),
    ensures
        leading_spaces(s) == k,
    decreases s.len(),
{
    if k > 0 {
        let rest = s.drop_first();
        assert(is_space(s[0]));
        assert forall|i: int| 0 <= i < k - 1 implies is_space(#[trigger] rest[i]) by {
            assert(rest[i] == s[i + 1]);
        }
        if k - 1 < rest.len() {
            assert(rest[k - 1] == s[k]);
        }
        lemma_leading_spaces_found(rest, k - 1);
    }
}

/// A count of trailing white space is determined by the last character that
/// is not white space.
pub proof fn lemma_trailing_spaces_found(s: Seq<char>, k: int)
    requires
        0 <= k <= s.len(),
        forall|i: int| s.len() - k <= i < s.len() ==> is_space(#[trigger] s[i]),
        k < s.len() ==> !is_space(s[s.len() - k - 1]),
    ensures
        trailing_spaces(s) == k,
    decreases s.len(),
{
    if k > 0 {
        let rest = s.drop_last();
        assert(is_space(s[s.len() - 1]));
        assert forall|i: int| rest.len() - (k - 1) <= i < rest.len() implies is_space(
            #[trigger] rest[i],
        ) by {
            assert(rest[i] == s[i]);
        }
        if k - 1 < rest.len() {
            assert(rest[rest.len() - (k - 1) - 1] == s[s.len() - k - 1]);
        }
        lemma_trailing_spaces_found(rest, k - 1);
    }
}

/// Trimming leaves no white space at either end.
pub proof fn lemma_trimmed_is_trimmed(s: Seq<char>)
    ensures
        is_trimmed(trimmed(s)),
{
    let front = s.skip(leading_spaces(s) as int);
    lemma_leading_spaces(s);
    lemma_trailing_spaces(front);
    let t = trimmed(s);
    if t.len() > 0 {
        assert(t[0] == front[0]);
        assert(front[0] == s[leading_spaces(s) as int]);
        assert(t.last() == front[front.len() - trailing_spaces(front) - 1]);
    }
}

/// Trimming changes nothing in a text that has no white space at its ends.
pub proof fn lemma_trimmed_fixpoint(s: Seq<char>)
    requires
        is_trimmed(s),
    ensures
        trimmed(s) == s,
{
    lemma_leading_spaces_found(s, 0);
    assert(s.skip(0) =~= s);
    lemma_trailing_spaces_found(s, 0);
    assert(s.take(s.len() as int) =~= s);
}

/// Whether `c` is white space.
pub fn char_is_space(c: char) -> (b: bool)
    ensures
        b == is_space(c),
{
    let u: u32 = c as u32;
    (0x09 <= u && u <= 0x0D) || u == 0x20 || u == 0x85 || u == 0xA0 || u == 0x1680 || (0x2000 <= u
        && u <= 0x200A) || u == 0x2028 || u == 0x2029 || u == 0x202F || u == 0x205F || u == 0x3000
}

/// `s` without its leading and trailing white space.
pub fn trim(s: &str) -> (t: &str)
    ensures
        t@ == trimmed(s@),
{
    let n = s.unicode_len();
    let mut start: usize = 0;
    while start < n && char_is_space(s.get_char(start))
        invariant
            n == s@.len(),
            start <= n,
            forall|i: int| 0 <= i < start ==> is_space(#[trigger] s@[i]),
        decreases n - start,
    {
        start += 1;
    }
    proof {
        lemma_leading_spaces_found(s@, start as int);
    }
    let ghost front = s@.skip(start as int);
    let mut end: usize = n;
    while end > start && char_is_space(s.get_char(end - 1))
        invariant
            n == s@.len(),
            start <= end <= n,
            forall|i: int| end <= i < n ==> is_space(#[trigger] s@[i]),
        decreases end,
    {
        end -= 1;
    }
    proof {
        assert forall|i: int| front.len() - (n - end) <= i < front.len() implies is_space(
            #[trigger] front[i],
        ) by {
            assert(front[i] == s@[i + start]);
        }
        if n - end < front.len() {
            assert(front[front.len() - (n - end) - 1] == s@[end - 1]);
        }
        lemma_trailing_spaces_found(front, (n - end) as int);
        assert(s@.subrange(start as int, end as int) =~= front.take(front.len() - (n - end)));
    }
    s.substring_char(start, end)
}

} // verus!
