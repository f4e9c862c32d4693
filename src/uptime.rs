//! The `h:mm:ss.sss` uptime stamp put in front of log lines.

use vstd::prelude::*;

verus! {

/// The decimal digit for `d`, for `0 <= d < 10`.
pub open spec fn digit_of(d: int) -> char {
    if d == 0 {
        '0'
    } else if d == 1 {
        '1'
    } else if d == 2 {
        '2'
    } else if d == 3 {
        '3'
    } else if d == 4 {
        '4'
    } else if d == 5 {
        '5'
    } else if d == 6 {
        '6'
    } else if d == 7 {
        '7'
    } else if d == 8 {
        '8'
    } else {
        '9'
    }
}

/// `n` written in decimal, without leading zeros.
pub open spec fn decimal(n: nat) -> Seq<char>
    decreases n,
{
    if n < 10 {
        seq![digit_of(n as int)]
    } else {
        decimal(n / 10).push(digit_of((n % 10) as int))
    }
}

/// The last `width` decimal digits of `n`, zero-padded on the left.
pub open spec fn padded(n: nat, width: nat) -> Seq<char>
    decreases width,
{
    if width == 0 {
        seq![]
    } else {
        padded(n / 10, (width - 1) as nat).push(digit_of((n % 10) as int))
    }
}

/// Milliseconds into the current minute, with the sub-second part rounded
/// to the nearest millisecond (so it may reach 60 000).
pub open spec fn minute_millis(secs: nat, subsec_nanos: nat) -> nat {
    (secs % 60) * 1000 + (subsec_nanos + 500_000) / 1_000_000
}

/// The stamp for an uptime of `secs` seconds and `subsec_nanos` nanoseconds:
/// hours, then minutes in two digits, then seconds in two digits with three
/// decimals.
pub open spec fn uptime_text(secs: nat, subsec_nanos: nat) -> Seq<char> {
    let ms = minute_millis(secs, subsec_nanos);
    decimal(secs / 3600) + seq![':'] + padded((secs / 60) % 60, 2) + seq![':']
        + padded(ms / 1000, 2) + seq!['.'] + padded(ms % 1000, 3)
}

fn digit(d: u64) -> (c: char)
    requires
        d < 10,
    ensures
        c == digit_of(d as int),
{
    if d == 0 {
        '0'
    } else if d == 1 {
        '1'
    } else if d == 2 {
        '2'
    } else if d == 3 {
        '3'
    } else if d == 4 {
        '4'
    } else if d == 5 {
        '5'
    } else if d == 6 {
        '6'
    } else if d == 7 {
        '7'
    } else if d == 8 {
        '8'
    } else {
        '9'
    }
}

fn push_decimal(out: &mut Vec<char>, n: u64)
    ensures
        final(out)@ == old(out)@ + decimal(n as nat),
    decreases n,
{
    if n >= 10 {
        push_decimal(out, n / 10);
    }
    out.push(digit(n % 10));
    proof {
        if n >= 10 {
            assert(decimal(n as nat) == decimal((n / 10) as nat).push(digit_of((n % 10) as int)));
        }
    }
    assert(final(out)@ =~= old(out)@ + decimal(n as nat));
}

fn push_padded(out: &mut Vec<char>, n: u64, width: u64)
    ensures
        final(out)@ == old(out)@ + padded(n as nat, width as nat),
    decreases width,
{
    if width > 0 {
        push_padded(out, n / 10, width - 1);
        out.push(digit(n % 10));
    }
    assert(final(out)@ =~= old(out)@ + padded(n as nat, width as nat));
}

/// Relies on String's FromIterator over chars: the string holds exactly the
/// given characters, in order.
#[verifier::external_body]
fn string_of_chars(chars: &Vec<char>) -> (r: String)
    ensures
        r@ == chars@,
{
    String::from_iter(chars.iter())
}

/// The uptime stamp for a duration given as whole seconds and nanoseconds.
pub fn format_uptime(secs: u64, subsec_nanos: u32) -> (r: String)
    requires
        subsec_nanos < 1_000_000_000,
    ensures
        r@ == uptime_text(secs as nat, subsec_nanos as nat),
{
    let ms: u64 = (secs % 60) * 1000 + (subsec_nanos as u64 + 500_000) / 1_000_000;
    let mut out: Vec<char> = Vec::new();
    push_decimal(&mut out, secs / 3600);
    out.push(':');
    push_padded(&mut out, (secs / 60) % 60, 2);
    out.push(':');
    push_padded(&mut out, ms / 1000, 2);
    out.push('.');
    push_padded(&mut out, ms % 1000, 3);
    assert(out@ =~= uptime_text(secs as nat, subsec_nanos as nat));
    string_of_chars(&out)
}

/// The stamp for the time elapsed since `start`.
pub fn get_uptime_string(start: &std::time::Instant) -> (r: String)
    ensures
        exists|secs: u64, nanos: u32|
            nanos < 1_000_000_000 && r@ == #[trigger] uptime_text(secs as nat, nanos as nat),
{
    let elapsed = start.elapsed();
    let secs = elapsed.as_secs();
    let nanos = elapsed.subsec_nanos();
    format_uptime(secs, nanos)
}

} // verus!
