//! Short texts for how long ago, or how far ahead, an instant lies.

use vstd::prelude::*;
use vstd::string::StringExecFns;

verus! {

/// Seconds in a minute.
pub const MINUTE: i64 = 60;

/// Seconds in an hour.
pub const HOUR: i64 = 3600;

/// Seconds in a day.
pub const DAY: i64 = 86400;

/// The quotient of the magnitudes of `a` and `b`, rounded to the nearest
/// whole number with halves away from zero.
pub open spec fn rounded_magnitude(a: int, b: int) -> int
    recommends
        b != 0,
{
    let n = if a < 0 { -a } else { a };
    let d = if b < 0 { -b } else { b };
    (2 * n + d) / (2 * d)
}

/// `a / b` rounded to the nearest whole number, halves away from zero.
pub open spec fn rounded_quotient(a: int, b: int) -> int
    recommends
        b != 0,
{
    if (a < 0) == (b < 0) {
        rounded_magnitude(a, b)
    } else {
        -rounded_magnitude(a, b)
    }
}

/// Divides `a` by `b` and rounds to the nearest whole number, halves away
/// from zero.
pub fn rounding_div(a: i64, b: i64) -> (q: i64)
    requires
        b != 0,
        rounded_quotient(a as int, b as int) <= i64::MAX,
    ensures
        q == rounded_quotient(a as int, b as int),
{
    let n: i128 = if a < 0 { -(a as i128) } else { a as i128 };
    let d: i128 = if b < 0 { -(b as i128) } else { b as i128 };
    let magnitude: i128 = (2 * n + d) / (2 * d);
    assert(0 <= magnitude <= n) by (nonlinear_arith)
        requires
            magnitude == (2 * n + d) / (2 * d),
            d >= 1,
            n >= 0,
    ;
    if (a < 0) == (b < 0) {
        magnitude as i64
    } else {
        (-magnitude) as i64
    }
}

/// The unit that an offset is shown in.
#[derive(Clone, Copy, Debug, PartialEq, Eq, Structural)]
pub enum Unit {
    Minutes,
    Hours,
    Days,
}

/// An offset from now, ready to be written: a sign, a count and a unit.
#[derive(Clone, Copy, Debug, PartialEq, Eq, Structural)]
pub struct Offset {
    /// Whether the instant lies in the past.
    pub past: bool,
    pub count: i64,
    pub unit: Unit,
}

/// How the span of `now - time` seconds is shown.
///
/// More than a day is shown in days, more than half a day as one day, more
/// than an hour in hours and everything else in minutes; each count is
/// rounded to the nearest whole number, halves up.
pub open spec fn offset_of(now: int, time: int) -> Offset {
    let past = now - time > 0;
    let span = if now - time < 0 { time - now } else { now - time };
    if span > 24 * 3600 {
        Offset { past, count: rounded_quotient(span, 86400) as i64, unit: Unit::Days }
    } else if span > 12 * 3600 {
        Offset { past, count: 1, unit: Unit::Days }
    } else if span > 3600 {
        Offset { past, count: rounded_quotient(span, 3600) as i64, unit: Unit::Hours }
    } else {
        Offset { past, count: rounded_quotient(span, 60) as i64, unit: Unit::Minutes }
    }
}

/// Measures how far `time` lies from `now`.
pub fn offset(now: i64, time: i64) -> (o: Offset)
    requires
        i64::MIN < now - time <= i64::MAX,
    ensures
        o == offset_of(now as int, time as int),
        0 <= o.count,
        o.unit == Unit::Minutes ==> o.count <= 60,
        o.unit == Unit::Hours ==> 1 <= o.count <= 12,
        o.unit == Unit::Days ==> 1 <= o.count,
{
    let eta: i64 = now - time;
    let past = eta > 0;
    let span: i64 = if eta < 0 { -eta } else { eta };
    if span > 24 * HOUR {
        Offset { past, count: rounding_div(span, 24 * HOUR), unit: Unit::Days }
    } else if span > 12 * HOUR {
        Offset { past, count: 1, unit: Unit::Days }
    } else if span > HOUR {
        Offset { past, count: rounding_div(span, HOUR), unit: Unit::Hours }
    } else {
        Offset { past, count: rounding_div(span, MINUTE), unit: Unit::Minutes }
    }
}

/// The character of a decimal digit.
pub open spec fn digit(d: int) -> char
    recommends
        0 <= d < 10,
{
    if d == 0 {
        '0'
    } else if d == 1 {
        '1'
    } else if d == 2 {
        '2'
    } else if d == 3 {
        '3'
    } else if d == 4 {
        '4'
    } else if d == 5 {
        '5'
    } else if d == 6 {
        '6'
    } else if d == 7 {
        '7'
    } else if d == 8 {
        '8'
    } else {
        '9'
    }
}

/// The decimal digits of `n`, most significant first, without leading
/// zeros.
pub open spec fn decimal(n: nat) -> Seq<char>
    decreases n,
{
    if n < 10 {
        seq![digit(n as int)]
    } else {
        decimal(n / 10).push(digit((n % 10) as int))
    }
}

/// `text` behind as many spaces as bring it to `width` characters; a text
/// that is wide enough stays as it is.
pub open spec fn right_aligned(text: Seq<char>, width: nat) -> Seq<char>
    decreases width - text.len(),
{
    if text.len() >= width {
        text
    } else {
        right_aligned(seq![' '] + text, width)
    }
}

/// The letter that stands for a unit.
pub open spec fn unit_letter(unit: Unit) -> char {
    match unit {
        Unit::Minutes => 'm',
        Unit::Hours => 'h',
        Unit::Days => 'd',
    }
}

/// The text of an offset: `+` for the past and `-` otherwise, the count
/// right-aligned in two columns, and the unit's letter.
pub open spec fn offset_text(o: Offset) -> Seq<char>
    recommends
        o.count >= 0,
{
    seq![if o.past { '+' } else { '-' }] + right_aligned(decimal(o.count as nat), 2).push(
        unit_letter(o.unit),
    )
}

/// A number has at least one digit, and from ten on at least two.
pub proof fn lemma_decimal_len(n: nat)
    ensures
        decimal(n).len() >= 1,
        n >= 10 ==> decimal(n).len() >= 2,
        n < 10 ==> decimal(n).len() == 1,
    decreases n,
{
    if n >= 10 {
        lemma_decimal_len(n / 10);
    }
}

fn digit_text(d: u64) -> (text: &'static str)
    requires
        d < 10,
    ensures
        text@ == seq![digit(d as int)],
{
    proof {
        reveal_strlit("0");
        reveal_strlit("1");
        reveal_strlit("2");
        reveal_strlit("3");
        reveal_strlit("4");
        reveal_strlit("5");
        reveal_strlit("6");
        reveal_strlit("7");
        reveal_strlit("8");
        reveal_strlit("9");
    }
    let text = match d {
        0 => "0",
        1 => "1",
        2 => "2",
        3 => "3",
        4 => "4",
        5 => "5",
        6 => "6",
        7 => "7",
        8 => "8",
        _ => "9",
    };
    assert(text@ =~= seq![digit(d as int)]);
    text
}

/// Appends the decimal digits of `n` to `out`.
pub fn write_decimal(n: u64, out: &mut String)
    ensures
        final(out)@ == old(out)@ + decimal(n as nat),
    decreases n,
{
    if n >= 10 {
        write_decimal(n / 10, out);
    }
    let ghost before = out@;
    out.append(digit_text(n % 10));
    assert(out@ =~= old(out)@ + decimal(n as nat));
}

impl Offset {
    /// Writes the offset out.
    pub fn text(&self) -> (text: String)
        requires
            self.count >= 0,
        ensures
            text@ == offset_text(*self),
    {
        proof {
            reveal_strlit("+");
            reveal_strlit("-");
            reveal_strlit(" ");
            reveal_strlit("m");
            reveal_strlit("h");
            reveal_strlit("d");
            reveal_with_fuel(right_aligned, 3);
            lemma_decimal_len(self.count as nat);
        }
        let mut text = String::from_str(if self.past { "+" } else { "-" });
        let mut digits = String::new();
        write_decimal(self.count as u64, &mut digits);
        assert(digits@ =~= decimal(self.count as nat));
        if self.count < 10 {
            text.append(" ");
            assert(right_aligned(digits@, 2) =~= seq![' '] + digits@);
        }
        text.append(digits.as_str());
        text.append(
            match self.unit {
                Unit::Minutes => "m",
                Unit::Hours => "h",
                Unit::Days => "d",
            },
        );
        assert(text@ =~= offset_text(*self));
        text
    }
}

/// Describes how far `time` lies from `now`, both in seconds since the
/// epoch: `"+ 5m"` for five minutes ago, `"-12h"` for twelve hours ahead.
pub fn eta(now: i64, time: i64) -> (text: String)
    requires
        i64::MIN < now - time <= i64::MAX,
    ensures
        text@ == offset_text(offset_of(now as int, time as int)),
{
    offset(now, time).text()
}

} // verus!
