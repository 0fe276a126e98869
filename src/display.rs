//! Rendering of remaining times as `[-]MM:SS` and of the two-column status
//! line of a 16x2 character display.
use vstd::prelude::*;

verus! {

/// Text of the display's first row.
pub const DISPLAY_HEADER: &'static str = "Red         Blue";

/// Linear cursor position at which the display's second row begins.
pub const SECOND_ROW_POS: u8 = 40;

/// Width of each of the two columns of the status line.
pub const COLUMN_WIDTH: usize = 8;

/// The character of a decimal digit.
pub open spec fn digit_char(d: nat) -> char {
    if d == 0 {
        '0'
    } else if d == 1 {
        '1'
    } else if d == 2 {
        '2'
    } else if d == 3 {
        '3'
    } else if d == 4 {
        '4'
    } else if d == 5 {
        '5'
    } else if d == 6 {
        '6'
    } else if d == 7 {
        '7'
    } else if d == 8 {
        '8'
    } else {
        '9'
    }
}

/// Decimal digits of `n`, most significant first, without leading zeros.
pub open spec fn decimal(n: nat) -> Seq<char>
    decreases n,
{
    let prefix = if n < 10 {
        Seq::<char>::empty()
    } else {
        decimal(n / 10)
    };
    prefix.push(digit_char(n % 10))
}

/// `n` in decimal, padded with zeros to at least two digits.
pub open spec fn two_digits(n: nat) -> Seq<char> {
    let pad = if n < 10 {
        seq!['0']
    } else {
        Seq::<char>::empty()
    };
    pad + decimal(n)
}

pub open spec fn abs(x: int) -> nat {
    if x < 0 {
        (-x) as nat
    } else {
        x as nat
    }
}

/// `ms` milliseconds as `[-]MM:SS`: the sign only when negative, whole
/// minutes of the magnitude, and its whole seconds modulo 60.
pub open spec fn time_text(ms: int) -> Seq<char> {
    let a = abs(ms);
    let sign = if ms < 0 {
        seq!['-']
    } else {
        Seq::<char>::empty()
    };
    sign + two_digits(a / 60000) + seq![':'] + two_digits((a / 1000) % 60)
}

pub open spec fn spaces(n: nat) -> Seq<char> {
    Seq::new(n, |i: int| ' ')
}

/// `s` left-justified in a field of `w` characters.
pub open spec fn pad_right(s: Seq<char>, w: nat) -> Seq<char> {
    if s.len() < w {
        s + spaces((w - s.len()) as nat)
    } else {
        s
    }
}

/// `s` right-justified in a field of `w` characters.
pub open spec fn pad_left(s: Seq<char>, w: nat) -> Seq<char> {
    if s.len() < w {
        spaces((w - s.len()) as nat) + s
    } else {
        s
    }
}

/// The display's second row: Red's time left-justified and Blue's time
/// right-justified, each in a column of eight characters.
pub open spec fn status_text(red_ms: int, blue_ms: int) -> Seq<char> {
    pad_right(time_text(red_ms), COLUMN_WIDTH as nat) + pad_left(
        time_text(blue_ms),
        COLUMN_WIDTH as nat,
    )
}

/// Relies on `String`'s `FromIterator<&char>`: the string holds the given
/// characters in order.
#[verifier::external_body]
fn text_of(chars: &Vec<char>) -> (r: String)
    ensures
        r@ == chars@,
{
    chars.iter().collect()
}

fn digit(d: u64) -> (c: char)
    requires
        d < 10,
    ensures
        c == digit_char(d as nat),
{
    if d == 0 {
        '0'
    } else if d == 1 {
        '1'
    } else if d == 2 {
        '2'
    } else if d == 3 {
        '3'
    } else if d == 4 {
        '4'
    } else if d == 5 {
        '5'
    } else if d == 6 {
        '6'
    } else if d == 7 {
        '7'
    } else if d == 8 {
        '8'
    } else {
        '9'
    }
}

fn push_decimal(out: &mut Vec<char>, n: u64)
    ensures
        final(out)@ == old(out)@ + decimal(n as nat),
    decreases n,
{
    if n >= 10 {
        push_decimal(out, n / 10);
    }
    out.push(digit(n % 10));
    proof {
        let prefix = if n < 10 {
            Seq::<char>::empty()
        } else {
            decimal((n / 10) as nat)
        };
        assert(decimal(n as nat) == prefix.push(digit_char((n % 10) as nat)));
        assert(final(out)@ =~= old(out)@ + decimal(n as nat));
    }
}

fn push_two_digits(out: &mut Vec<char>, n: u64)
    ensures
        final(out)@ == old(out)@ + two_digits(n as nat),
{
    let ghost start = out@;
    if n < 10 {
        out.push('0');
    }
    push_decimal(out, n);
    assert(out@ =~= start + two_digits(n as nat));
}

/// Magnitude of `x`, without overflow at `i64::MIN`.
fn magnitude(x: i64) -> (r: u64)
    ensures
        r == abs(x as int),
{
    if x < 0 {
        ((-(x + 1)) as u64) + 1
    } else {
        x as u64
    }
}

fn push_time(out: &mut Vec<char>, ms: i64)
    ensures
        final(out)@ == old(out)@ + time_text(ms as int),
{
    let ghost start = out@;
    let a = magnitude(ms);
    if ms < 0 {
        out.push('-');
    }
    push_two_digits(out, a / 60000);
    out.push(':');
    push_two_digits(out, (a / 1000) % 60);
    assert(out@ =~= start + time_text(ms as int));
}

/// Formats a remaining time in milliseconds as `[-]MM:SS`.
pub fn format_time(ms: i64) -> (r: String)
    ensures
        r@ == time_text(ms as int),
{
    let mut chars: Vec<char> = Vec::new();
    push_time(&mut chars, ms);
    assert(chars@ =~= time_text(ms as int));
    text_of(&chars)
}

fn push_spaces(out: &mut Vec<char>, n: usize)
    ensures
        final(out)@ == old(out)@ + spaces(n as nat),
{
    let ghost start = out@;
    let mut i: usize = 0;
    while i < n
        invariant
            i <= n,
            out@ == start + spaces(i as nat),
        decreases n - i,
    {
        out.push(' ');
        i = i + 1;
        assert(out@ =~= start + spaces(i as nat));
    }
}

fn push_all(out: &mut Vec<char>, s: &Vec<char>)
    ensures
        final(out)@ == old(out)@ + s@,
{
    let ghost start = out@;
    let mut i: usize = 0;
    while i < s.len()
        invariant
            i <= s@.len(),
            out@ == start + s@.take(i as int),
        decreases s@.len() - i,
    {
        out.push(s[i]);
        i = i + 1;
        assert(out@ =~= start + s@.take(i as int));
    }
    assert(s@.take(s@.len() as int) =~= s@);
}

/// The display's second row for the given remaining times of Red and Blue.
pub fn status_line(red_ms: i64, blue_ms: i64) -> (r: String)
    ensures
        r@ == status_text(red_ms as int, blue_ms as int),
{
    let mut line: Vec<char> = Vec::new();
    push_time(&mut line, red_ms);
    if line.len() < COLUMN_WIDTH {
        let n = COLUMN_WIDTH - line.len();
        push_spaces(&mut line, n);
    }
    assert(line@ =~= pad_right(time_text(red_ms as int), COLUMN_WIDTH as nat));
    let ghost left = line@;
    let mut blue: Vec<char> = Vec::new();
    push_time(&mut blue, blue_ms);
    assert(blue@ =~= time_text(blue_ms as int));
    if blue.len() < COLUMN_WIDTH {
        let n = COLUMN_WIDTH - blue.len();
        push_spaces(&mut line, n);
    }
    push_all(&mut line, &blue);
    assert(line@ =~= status_text(red_ms as int, blue_ms as int));
    text_of(&line)
}

} // verus!
