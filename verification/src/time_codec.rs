//! Renders a count of game ticks as `HH:MM:SS.mmm`.

use vstd::prelude::*;
use vstd::string::*;

verus! {

pub const TICKS_PER_SECOND: u64 = 20;

pub const TICKS_PER_MINUTE: u64 = 1200;

pub const TICKS_PER_HOUR: u64 = 72000;

/// One tick lasts a twentieth of a second.
pub const MILLIS_PER_TICK: u64 = 50;

/// The character for a single decimal digit.
pub open spec fn digit_char(d: nat) -> char
    recommends
        d < 10,
{
    seq!['0', '1', '2', '3', '4', '5', '6', '7', '8', '9'][d as int]
}

/// `n` written in base ten, without leading zeros (`0` is "0").
pub open spec fn decimal(n: nat) -> Seq<char>
    decreases n,
{
    if n < 10 {
        seq![digit_char(n)]
    } else {
        decimal(n / 10).push(digit_char(n % 10))
    }
}

/// `count` zeros.
pub open spec fn zeros(count: nat) -> Seq<char> {
    Seq::new(count, |i: int| '0')
}

/// `n` in base ten, filled up with zeros on the left to at least `width`
/// characters. A number with more digits than `width` is not cut.
pub open spec fn zero_padded(n: nat, width: nat) -> Seq<char> {
    if decimal(n).len() >= width {
        decimal(n)
    } else {
        zeros((width - decimal(n).len()) as nat) + decimal(n)
    }
}

pub open spec fn hours_of(ticks: nat) -> nat {
    ticks / (TICKS_PER_HOUR as nat)
}

pub open spec fn minutes_of(ticks: nat) -> nat {
    ticks / (TICKS_PER_MINUTE as nat) % 60
}

pub open spec fn seconds_of(ticks: nat) -> nat {
    ticks / (TICKS_PER_SECOND as nat) % 60
}

/// The ticks left over within the second, at fifty milliseconds each.
pub open spec fn millis_of(ticks: nat) -> nat {
    ticks % (TICKS_PER_SECOND as nat) * (MILLIS_PER_TICK as nat)
}

/// The text that stands for `ticks`: hours, minutes and seconds in two
/// digits, milliseconds in three.
pub open spec fn clock_text(ticks: nat) -> Seq<char> {
    zero_padded(hours_of(ticks), 2) + seq![':'] + zero_padded(minutes_of(ticks), 2) + seq![':']
        + zero_padded(seconds_of(ticks), 2) + seq!['.'] + zero_padded(millis_of(ticks), 3)
}

fn digit_text(d: u64) -> (text: &'static str)
    requires
        d < 10,
    ensures
        text@ == seq![digit_char(d as nat)],
{
    proof {
        reveal_strlit("0");
        reveal_strlit("1");
        reveal_strlit("2");
        reveal_strlit("3");
        reveal_strlit("4");
        reveal_strlit("5");
        reveal_strlit("6");
        reveal_strlit("7");
        reveal_strlit("8");
        reveal_strlit("9");
    }
    let text = if d == 0 {
        "0"
    } else if d == 1 {
        "1"
    } else if d == 2 {
        "2"
    } else if d == 3 {
        "3"
    } else if d == 4 {
        "4"
    } else if d == 5 {
        "5"
    } else if d == 6 {
        "6"
    } else if d == 7 {
        "7"
    } else if d == 8 {
        "8"
    } else {
        "9"
    };
    assert(text@ =~= seq![digit_char(d as nat)]);
    text
}

fn push_decimal(out: &mut String, n: u64)
    ensures
        final(out)@ == old(out)@ + decimal(n as nat),
    decreases n,
{
    if n >= 10 {
        push_decimal(out, n / 10);
    }
    out.append(digit_text(n % 10));
    assert(out@ =~= old(out)@ + decimal(n as nat));
}

/// Writes `n` in base ten.
pub fn decimal_text(n: u64) -> (text: String)
    ensures
        text@ == decimal(n as nat),
{
    let mut text = String::new();
    push_decimal(&mut text, n);
    assert(text@ =~= decimal(n as nat));
    text
}

/// Writes `n` in base ten, with zeros in front up to `width` characters.
pub fn zero_padded_text(n: u64, width: usize) -> (text: String)
    ensures
        text@ == zero_padded(n as nat, width as nat),
{
    let digits = decimal_text(n);
    let len = digits.as_str().unicode_len();
    let mut text = String::new();
    let mut filled = len;
    while filled < width
        invariant
            len == decimal(n as nat).len(),
            len <= filled,
            filled <= width || filled == len,
            text@ == zeros((filled - len) as nat),
        decreases width - filled,
    {
        proof {
            reveal_strlit("0");
        }
        text.append("0");
        filled = filled + 1;
        assert(text@ =~= zeros((filled - len) as nat));
    }
    text.append(digits.as_str());
    assert(text@ =~= zero_padded(n as nat, width as nat));
    text
}

/// Renders a tick count as hours, minutes, seconds and milliseconds.
///
/// Twenty ticks make a second. Every count has a text: hours beyond 99 take
/// as many digits as they need.
pub fn format_time(time: u64) -> (text: String)
    ensures
        text@ == clock_text(time as nat),
{
    let hours = zero_padded_text(time / TICKS_PER_HOUR, 2);
    let minutes = zero_padded_text(time / TICKS_PER_MINUTE % 60, 2);
    let seconds = zero_padded_text(time / TICKS_PER_SECOND % 60, 2);
    let millis = zero_padded_text(time % TICKS_PER_SECOND * MILLIS_PER_TICK, 3);
    let mut text = hours;
    proof {
        reveal_strlit(":");
        reveal_strlit(".");
    }
    text.append(":");
    text.append(minutes.as_str());
    text.append(":");
    text.append(seconds.as_str());
    text.append(".");
    text.append(millis.as_str());
    assert(text@ =~= clock_text(time as nat));
    text
}

/// A number below ten has one digit, one below a hundred has two, one below
/// a thousand has three.
pub proof fn decimal_len_small(n: nat)
    ensures
        n < 10 ==> decimal(n).len() == 1,
        10 <= n < 100 ==> decimal(n).len() == 2,
        100 <= n < 1000 ==> decimal(n).len() == 3,
        decimal(n).len() >= 1,
    decreases n,
{
    if n >= 10 {
        decimal_len_small(n / 10);
    }
}

/// Minutes and seconds stay below sixty, milliseconds below a thousand and
/// on a multiple of fifty.
pub proof fn clock_fields_in_range(ticks: nat)
    ensures
        minutes_of(ticks) < 60,
        seconds_of(ticks) < 60,
        millis_of(ticks) < 1000,
        millis_of(ticks) % 50 == 0,
        hours_of(ticks) * 72000 + minutes_of(ticks) * 1200 + seconds_of(ticks) * 20 + millis_of(
            ticks,
        ) / 50 == ticks,
{
}

/// The shape of the text: the hours, in two digits or more, then `:MM:SS.mmm`.
/// Up to a hundred hours the text is twelve characters long.
pub proof fn clock_text_shape(ticks: nat)
    ensures
        ({
            let h = zero_padded(hours_of(ticks), 2).len() as int;
            let text = clock_text(ticks);
            &&& h >= 2
            &&& text.len() == h + 10
            &&& text[h] == ':'
            &&& text[h + 3] == ':'
            &&& text[h + 6] == '.'
            &&& text.subrange(0, h) == zero_padded(hours_of(ticks), 2)
            &&& text.subrange(h + 1, h + 3) == zero_padded(minutes_of(ticks), 2)
            &&& text.subrange(h + 4, h + 6) == zero_padded(seconds_of(ticks), 2)
            &&& text.subrange(h + 7, h + 10) == zero_padded(millis_of(ticks), 3)
        }),
        ticks < 100 * TICKS_PER_HOUR ==> clock_text(ticks).len() == 12,
{
    clock_fields_in_range(ticks);
    decimal_len_small(hours_of(ticks));
    decimal_len_small(minutes_of(ticks));
    decimal_len_small(seconds_of(ticks));
    decimal_len_small(millis_of(ticks));
    let h = zero_padded(hours_of(ticks), 2).len() as int;
    let text = clock_text(ticks);
    assert(zero_padded(minutes_of(ticks), 2).len() == 2);
    assert(zero_padded(seconds_of(ticks), 2).len() == 2);
    assert(zero_padded(millis_of(ticks), 3).len() == 3);
    assert(text.subrange(0, h) =~= zero_padded(hours_of(ticks), 2));
    assert(text.subrange(h + 1, h + 3) =~= zero_padded(minutes_of(ticks), 2));
    assert(text.subrange(h + 4, h + 6) =~= zero_padded(seconds_of(ticks), 2));
    assert(text.subrange(h + 7, h + 10) =~= zero_padded(millis_of(ticks), 3));
}

} // verus!
