//! Elapsed time and its `HH:MM:SS` rendering.
//!
//! The rendering never wraps: hours are an unbounded field that is padded to
//! two digits and grows beyond them when a recording runs for days.

use vstd::prelude::*;
use vstd::string::*;

verus! {

/// A span of time measured from the start of a recording, in milliseconds.
#[derive(Clone, Copy, Debug, PartialEq, Eq, Structural)]
pub struct Elapsed {
    pub millis: u64,
}

impl Elapsed {
    /// The whole seconds in the span; fractions of a second are dropped.
    pub open spec fn secs(self) -> nat {
        (self.millis / 1000) as nat
    }

    /// The span of `millis` milliseconds.
    pub fn from_millis(millis: u64) -> (e: Elapsed)
        ensures
            e.millis == millis,
    {
        Elapsed { millis }
    }

    /// The span of `secs` whole seconds, or the longest span there is when
    /// that many seconds do not fit.
    pub fn from_secs(secs: u64) -> (e: Elapsed)
        ensures
            e.millis == if secs * 1000 <= u64::MAX { secs * 1000 } else { u64::MAX as int },
            secs * 1000 <= u64::MAX ==> e.secs() == secs,
    {
        match secs.checked_mul(1000) {
            Some(millis) => Elapsed { millis },
            None => Elapsed { millis: u64::MAX },
        }
    }

    /// The whole seconds in the span.
    pub fn whole_seconds(&self) -> (s: u64)
        ensures
            s == self.secs(),
    {
        self.millis / 1000
    }
}

/// The character that stands for the decimal digit `d`.
pub open spec fn digit_char(d: nat) -> char
    recommends
        d < 10,
{
    if d == 0 {
        '0'
    } else if d == 1 {
        '1'
    } else if d == 2 {
        '2'
    } else if d == 3 {
        '3'
    } else if d == 4 {
        '4'
    } else if d == 5 {
        '5'
    } else if d == 6 {
        '6'
    } else if d == 7 {
        '7'
    } else if d == 8 {
        '8'
    } else {
        '9'
    }
}

/// The digit that `c` stands for; 0 for any character that is no digit.
pub open spec fn digit_value(c: char) -> nat {
    if c == '1' {
        1
    } else if c == '2' {
        2
    } else if c == '3' {
        3
    } else if c == '4' {
        4
    } else if c == '5' {
        5
    } else if c == '6' {
        6
    } else if c == '7' {
        7
    } else if c == '8' {
        8
    } else if c == '9' {
        9
    } else {
        0
    }
}

/// Whether `c` is one of the ten decimal digits.
pub open spec fn is_digit(c: char) -> bool {
    c == digit_char(digit_value(c))
}

/// Whether `s` holds decimal digits only.
pub open spec fn all_digits(s: Seq<char>) -> bool {
    forall|i: int| 0 <= i < s.len() ==> is_digit(#[trigger] s[i])
}

/// The number that a string of decimal digits denotes.
pub open spec fn digits_value(s: Seq<char>) -> nat
    decreases s.len(),
{
    if s.len() == 0 {
        0
    } else {
        digits_value(s.drop_last()) * 10 + digit_value(s.last())
    }
}

/// `n` in decimal, without leading zeros.
pub open spec fn decimal(n: nat) -> Seq<char>
    decreases n,
{
    if n < 10 {
        seq![digit_char(n)]
    } else {
        decimal(n / 10).push(digit_char(n % 10))
    }
}

/// `n` in decimal, padded with a zero to two digits.
pub open spec fn two_digits(n: nat) -> Seq<char> {
    if n < 10 {
        seq!['0', digit_char(n)]
    } else {
        decimal(n)
    }
}

/// `secs` seconds as hours, minutes and seconds, each of two digits at
/// least, with a colon between them.
pub open spec fn clock_text(secs: nat) -> Seq<char> {
    two_digits(secs / 3600) + seq![':'] + two_digits(secs % 3600 / 60) + seq![':'] + two_digits(
        secs % 60,
    )
}

/// The hours of a clock text: all that stands before the last six characters.
pub open spec fn hours_field(t: Seq<char>) -> Seq<char> {
    t.subrange(0, t.len() - 6)
}

/// The minutes of a clock text: the two characters between its colons.
pub open spec fn minutes_field(t: Seq<char>) -> Seq<char> {
    t.subrange(t.len() - 5, t.len() - 3)
}

/// The seconds of a clock text: its last two characters.
pub open spec fn seconds_field(t: Seq<char>) -> Seq<char> {
    t.subrange(t.len() - 2, t.len() as int)
}

/// The shape `HH:MM:SS`: three fields of digits with a colon between them,
/// minutes and seconds of two digits and below 60, hours of two digits or
/// more and without a leading zero once they take more than two.
pub open spec fn is_clock_text(t: Seq<char>) -> bool {
    &&& t.len() >= 8
    &&& t[t.len() - 6] == ':'
    &&& t[t.len() - 3] == ':'
    &&& all_digits(hours_field(t))
    &&& all_digits(minutes_field(t))
    &&& all_digits(seconds_field(t))
    &&& hours_field(t).len() > 2 ==> t[0] != '0'
    &&& digits_value(minutes_field(t)) < 60
    &&& digits_value(seconds_field(t)) < 60
}

/// The seconds that a clock text stands for.
pub open spec fn clock_value(t: Seq<char>) -> nat {
    digits_value(hours_field(t)) * 3600 + digits_value(minutes_field(t)) * 60 + digits_value(
        seconds_field(t),
    )
}

/// Decimal notation holds digits only, denotes the number that was written,
/// and begins with a zero for zero alone.
pub proof fn lemma_decimal(n: nat)
    ensures
        decimal(n).len() >= 1,
        n < 10 <==> decimal(n).len() == 1,
        n < 100 <==> decimal(n).len() <= 2,
        all_digits(decimal(n)),
        digits_value(decimal(n)) == n,
        n > 0 ==> decimal(n)[0] != '0',
    decreases n,
{
    let d = decimal(n);
    if n < 10 {
        assert(d.drop_last() =~= Seq::<char>::empty());
        assert(digits_value(d.drop_last()) == 0);
    } else {
        lemma_decimal(n / 10);
        assert(d.drop_last() =~= decimal(n / 10));
        assert(d.last() == digit_char(n % 10));
        assert(d[0] == decimal(n / 10)[0]);
        assert forall|i: int| 0 <= i < d.len() implies is_digit(#[trigger] d[i]) by {
            if i < d.len() - 1 {
                assert(d[i] == decimal(n / 10)[i]);
            }
        }
    }
}

/// Two-digit notation is decimal notation with `00` to `09` for the numbers
/// below ten.
pub proof fn lemma_two_digits(n: nat)
    ensures
        two_digits(n).len() >= 2,
        n < 100 <==> two_digits(n).len() == 2,
        all_digits(two_digits(n)),
        digits_value(two_digits(n)) == n,
        two_digits(n).len() > 2 ==> two_digits(n)[0] != '0',
{
    let t = two_digits(n);
    lemma_decimal(n);
    if n < 10 {
        assert(t.drop_last() =~= seq!['0']);
        assert(t.drop_last().drop_last() =~= Seq::<char>::empty());
        reveal_with_fuel(digits_value, 3);
    }
}

/// For every number of seconds the rendering has the shape `HH:MM:SS`, and
/// its fields hold the hours, the minutes below 60 and the seconds below 60
/// that add up to that number.
pub proof fn lemma_clock_text_reads_back(secs: nat)
    ensures
        is_clock_text(clock_text(secs)),
        digits_value(hours_field(clock_text(secs))) == secs / 3600,
        digits_value(minutes_field(clock_text(secs))) == secs % 3600 / 60,
        digits_value(seconds_field(clock_text(secs))) == secs % 60,
        clock_value(clock_text(secs)) == secs,
{
    let h = two_digits(secs / 3600);
    let m = two_digits(secs % 3600 / 60);
    let s = two_digits(secs % 60);
    let t = clock_text(secs);
    lemma_two_digits(secs / 3600);
    lemma_two_digits(secs % 3600 / 60);
    lemma_two_digits(secs % 60);
    assert(t.len() == h.len() + 6);
    assert(hours_field(t) =~= h);
    assert(minutes_field(t) =~= m);
    assert(seconds_field(t) =~= s);
    assert(t[0] == h[0]);
}

/// Two numbers of seconds with the same rendering are the same number.
pub proof fn lemma_clock_text_is_injective(a: nat, b: nat)
    requires
        clock_text(a) == clock_text(b),
    ensures
        a == b,
{
    lemma_clock_text_reads_back(a);
    lemma_clock_text_reads_back(b);
}

/// The one-character string of a decimal digit.
fn digit_str(d: u64) -> (s: &'static str)
    requires
        d < 10,
    ensures
        s@ == seq![digit_char(d as nat)],
{
    proof {
        reveal_strlit("0");
        reveal_strlit("1");
        reveal_strlit("2");
        reveal_strlit("3");
        reveal_strlit("4");
        reveal_strlit("5");
        reveal_strlit("6");
        reveal_strlit("7");
        reveal_strlit("8");
        reveal_strlit("9");
    }
    if d == 0 {
        "0"
    } else if d == 1 {
        "1"
    } else if d == 2 {
        "2"
    } else if d == 3 {
        "3"
    } else if d == 4 {
        "4"
    } else if d == 5 {
        "5"
    } else if d == 6 {
        "6"
    } else if d == 7 {
        "7"
    } else if d == 8 {
        "8"
    } else {
        "9"
    }
}

/// Appends `n` in decimal to `out`.
pub fn push_decimal(out: &mut String, n: u64)
    ensures
        final(out)@ == old(out)@ + decimal(n as nat),
    decreases n,
{
    if n >= 10 {
        push_decimal(out, n / 10);
    }
    out.append(digit_str(n % 10));
}

/// Appends `n` to `out` in two digits at least.
pub fn push_two_digits(out: &mut String, n: u64)
    ensures
        final(out)@ == old(out)@ + two_digits(n as nat),
{
    if n < 10 {
        proof {
            reveal_strlit("0");
        }
        out.append("0");
    }
    push_decimal(out, n);
}

/// Appends the `HH:MM:SS` rendering of `secs` seconds to `out`.
pub fn push_clock(out: &mut String, secs: u64)
    ensures
        final(out)@ == old(out)@ + clock_text(secs as nat),
{
    proof {
        reveal_strlit(":");
    }
    push_two_digits(out, secs / 3600);
    out.append(":");
    push_two_digits(out, secs % 3600 / 60);
    out.append(":");
    push_two_digits(out, secs % 60);
}

/// Renders `secs` seconds as `HH:MM:SS`.
pub fn format_clock(secs: u64) -> (text: String)
    ensures
        text@ == clock_text(secs as nat),
{
    let mut text = String::new();
    push_clock(&mut text, secs);
    text
}

/// Renders a span as `HH:MM:SS`, dropping the fraction of a second.
pub fn format_elapsed(elapsed: Elapsed) -> (text: String)
    ensures
        text@ == clock_text(elapsed.secs()),
{
    format_clock(elapsed.whole_seconds())
}

} // verus!
