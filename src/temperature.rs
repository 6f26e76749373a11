use vstd::prelude::*;
use vstd::string::*;
use crate::style::{Segment, Style, Tint};

verus! {

/// The five ranges that a Celsius temperature is shown in.
#[derive(Clone, Copy, Debug, PartialEq, Eq, Structural)]
pub enum TempBand {
    /// Below 0.
    BelowZero,
    /// From 0 up to, not including, 10.
    Cold,
    /// From 10 up to, not including, 20.
    Mild,
    /// From 20 up to, not including, 30.
    Warm,
    /// 30 and above.
    Hot,
}

pub open spec fn is_digit(c: char) -> bool {
    '0' <= c && c <= '9'
}

/// The number written by the decimal digits `d`.
pub open spec fn digits_value(d: Seq<char>) -> int
    decreases d.len(),
{
    if d.len() == 0 {
        0
    } else {
        10 * digits_value(d.drop_last()) + (d.last() as int - '0' as int)
    }
}

/// The length of the run of digits that `m` starts with.
pub open spec fn first_non_digit(m: Seq<char>) -> int
    decreases m.len(),
{
    if m.len() == 0 || !is_digit(m[0]) {
        0
    } else {
        1 + first_non_digit(m.drop_first())
    }
}

/// A decimal text without its minus sign.
pub open spec fn magnitude(s: Seq<char>) -> Seq<char> {
    if s.len() > 0 && s[0] == '-' {
        s.drop_first()
    } else {
        s
    }
}

/// Whether `s` writes a number below zero: a minus sign followed by something other
/// than zeros and a decimal point (`-0` and `-0.0` are zero).
pub open spec fn below_zero(s: Seq<char>) -> bool {
    s.len() > 0 && s[0] == '-' && exists|i: int| 1 <= i < s.len() && s[i] != '0' && s[i] != '.'
}

/// Whether `m` is made of digits and decimal points only.
pub open spec fn all_decimal(m: Seq<char>) -> bool {
    forall|i: int| 0 <= i < m.len() ==> is_digit(m[i]) || m[i] == '.'
}

/// The whole part of the magnitude `m`.
pub open spec fn whole_value(m: Seq<char>) -> int {
    digits_value(m.take(first_non_digit(m)))
}

/// The band of the temperature written by `s` in the decimal form that Rust prints a
/// float in (`-3.5`, `22`, `NaN`, `inf`). Each band holds its lower bound, so 0, 10,
/// 20 and 30 open the band above them. A text that is no finite number (`NaN`, `inf`)
/// falls in the highest band unless it is negative (`-inf`), as a float comparison
/// would place it.
pub open spec fn band_of(s: Seq<char>) -> TempBand {
    let m = magnitude(s);
    if below_zero(s) {
        TempBand::BelowZero
    } else if !all_decimal(m) {
        TempBand::Hot
    } else if whole_value(m) < 10 {
        TempBand::Cold
    } else if whole_value(m) < 20 {
        TempBand::Mild
    } else if whole_value(m) < 30 {
        TempBand::Warm
    } else {
        TempBand::Hot
    }
}

pub open spec fn band_tint(b: TempBand) -> Tint {
    match b {
        TempBand::BelowZero => Tint::Cyan,
        TempBand::Cold => Tint::Blue,
        TempBand::Mild => Tint::BrightGreen,
        TempBand::Warm => Tint::Yellow,
        TempBand::Hot => Tint::Red,
    }
}

pub open spec fn band_emoji(b: TempBand) -> Seq<char> {
    match b {
        TempBand::BelowZero => "🫢"@,
        TempBand::Cold => "🥶"@,
        TempBand::Mild => "😊"@,
        TempBand::Warm => "🌞"@,
        TempBand::Hot => "🔥"@,
    }
}

/// The temperature line's value: the number, `°C`, and the band's emoji, in the
/// band's colour.
pub open spec fn temperature_view(s: Seq<char>) -> (Seq<char>, Style) {
    (s + "°C "@ + band_emoji(band_of(s)), Style::Colored(band_tint(band_of(s))))
}

proof fn lemma_first_non_digit(m: Seq<char>, r: int)
    requires
        0 <= r <= m.len(),
        forall|i: int| 0 <= i < r ==> is_digit(m[i]),
        r == m.len() || !is_digit(m[r]),
    ensures
        first_non_digit(m) == r,
    decreases r,
{
    if r > 0 {
        assert(is_digit(m[0]));
        lemma_first_non_digit(m.drop_first(), r - 1);
    }
}

/// Whether the decimal text `s` has a character other than zeros and a decimal point.
pub open spec fn not_zero(s: Seq<char>) -> bool {
    exists|i: int| 0 <= i < s.len() && #[trigger] s[i] != '0' && s[i] != '.'
}

/// The band that a whole part alone selects: the lowest band whose upper bound lies
/// above it.
pub open spec fn band_of_whole(v: int) -> TempBand {
    if v < 10 {
        TempBand::Cold
    } else if v < 20 {
        TempBand::Mild
    } else if v < 30 {
        TempBand::Warm
    } else {
        TempBand::Hot
    }
}

/// A number written as the digits `w`, followed, when `with_fraction` holds, by a
/// decimal point and the digits `f`, lies in exactly the band that its whole part
/// selects, each bound opening the band above it. The same number with a minus sign
/// lies below zero when any of its digits is not zero, and is zero otherwise.
pub proof fn lemma_band_by_whole_part(w: Seq<char>, f: Seq<char>, with_fraction: bool)
    requires
        forall|i: int| 0 <= i < w.len() ==> is_digit(#[trigger] w[i]),
        forall|i: int| 0 <= i < f.len() ==> is_digit(#[trigger] f[i]),
    ensures
        ({
            let s = if with_fraction { w + seq!['.'] + f } else { w };
            &&& band_of(s) == band_of_whole(digits_value(w))
            &&& band_of(seq!['-'] + s) == if not_zero(s) {
                TempBand::BelowZero
            } else {
                band_of(s)
            }
        }),
{
    let s = if with_fraction { w + seq!['.'] + f } else { w };
    let n = seq!['-'] + s;
    assert forall|i: int| 0 <= i < s.len() implies is_digit(s[i]) || s[i] == '.' by {
        if i < w.len() {
            assert(s[i] == w[i]);
        } else if i > w.len() {
            assert(s[i] == f[i - w.len() - 1]);
        }
    }
    assert(s.len() > 0 ==> s[0] != '-');
    assert(magnitude(s) == s);
    assert(!below_zero(s));
    lemma_first_non_digit(s, w.len() as int);
    assert(s.take(w.len() as int) =~= w);
    assert(n.drop_first() =~= s);
    assert(magnitude(n) == s);
    assert(all_decimal(s));
    assert(band_of(s) == band_of_whole(digits_value(w)));
    if not_zero(s) {
        let i = choose|i: int| 0 <= i < s.len() && #[trigger] s[i] != '0' && s[i] != '.';
        assert(n[i + 1] == s[i]);
        assert(below_zero(n));
    } else {
        assert forall|i: int| 1 <= i < n.len() implies !(n[i] != '0' && n[i] != '.') by {
            assert(n[i] == s[i - 1]);
        }
        assert(!below_zero(n));
        assert(band_of(n) == band_of(s));
    }
}

/// The colour of a band.
pub fn tint_of_band(b: TempBand) -> (r: Tint)
    ensures
        r == band_tint(b),
{
    match b {
        TempBand::BelowZero => Tint::Cyan,
        TempBand::Cold => Tint::Blue,
        TempBand::Mild => Tint::BrightGreen,
        TempBand::Warm => Tint::Yellow,
        TempBand::Hot => Tint::Red,
    }
}

/// The emoji of a band.
pub fn emoji_of_band(b: TempBand) -> (r: &'static str)
    ensures
        r@ == band_emoji(b),
{
    match b {
        TempBand::BelowZero => "🫢",
        TempBand::Cold => "🥶",
        TempBand::Mild => "😊",
        TempBand::Warm => "🌞",
        TempBand::Hot => "🔥",
    }
}

/// The band of the temperature written by `t`.
pub fn temp_band(t: &str) -> (r: TempBand)
    ensures
        r == band_of(t@),
{
    let n = t.unicode_len();
    let negative = n > 0 && t.get_char(0) == '-';
    if negative {
        let mut k: usize = 1;
        while k < n
            invariant
                n == t@.len(),
                1 <= k <= n,
                t@[0] == '-',
                forall|i: int| 1 <= i < k ==> t@[i] == '0' || t@[i] == '.',
            decreases n - k,
        {
            let c = t.get_char(k);
            if c != '0' && c != '.' {
                assert(below_zero(t@));
                return TempBand::BelowZero;
            }
            k = k + 1;
        }
    }
    assert(!below_zero(t@));
    let start: usize = if negative { 1 } else { 0 };
    let ghost m = magnitude(t@);
    assert(m =~= t@.subrange(start as int, n as int));
    let mut k: usize = start;
    let mut whole: u32 = 0;
    let mut in_whole = true;
    let mut run: usize = 0;
    while k < n
        invariant
            n == t@.len(),
            start <= k <= n,
            m == magnitude(t@),
            !below_zero(t@),
            m =~= t@.subrange(start as int, n as int),
            run <= k - start,
            forall|i: int| 0 <= i < run ==> is_digit(m[i]),
            in_whole ==> run == k - start,
            !in_whole ==> run < m.len() && !is_digit(m[run as int]),
            whole as int == if digits_value(m.take(run as int)) < 30 {
                digits_value(m.take(run as int))
            } else {
                30
            },
            forall|i: int| 0 <= i < k - start ==> is_digit(m[i]) || m[i] == '.',
        decreases n - k,
    {
        let c = t.get_char(k);
        if !('0' <= c && c <= '9') && c != '.' {
            assert(m[k - start] == c);
            assert(!all_decimal(m));
            return TempBand::Hot;
        }
        if in_whole {
            if '0' <= c && c <= '9' {
                let ghost prev = digits_value(m.take(run as int));
                assert(m.take(run + 1).drop_last() =~= m.take(run as int));
                let d = (c as u32) - ('0' as u32);
                let next = 10 * whole + d;
                whole = if next < 30 { next } else { 30 };
                run = run + 1;
            } else {
                in_whole = false;
            }
        }
        k = k + 1;
    }
    assert(all_decimal(m));
    proof {
        lemma_first_non_digit(m, run as int);
    }
    if whole < 10 {
        TempBand::Cold
    } else if whole < 20 {
        TempBand::Mild
    } else if whole < 30 {
        TempBand::Warm
    } else {
        TempBand::Hot
    }
}

/// The temperature line's value for the temperature written by `t`.
pub fn temperature_segment(t: &str) -> (r: Segment)
    ensures
        r@ == temperature_view(t@),
{
    let b = temp_band(t);
    let mut text = String::from_str(t);
    text.append("°C ");
    text.append(emoji_of_band(b));
    Segment { text, style: Style::Colored(tint_of_band(b)) }
}

} // verus!
