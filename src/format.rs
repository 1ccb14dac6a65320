use vstd::prelude::*;

verus! {

/// The character of a decimal digit.
pub open spec fn digit_char(d: nat) -> char {
    if d == 0 { '0' }
    else if d == 1 { '1' }
    else if d == 2 { '2' }
    else if d == 3 { '3' }
    else if d == 4 { '4' }
    else if d == 5 { '5' }
    else if d == 6 { '6' }
    else if d == 7 { '7' }
    else if d == 8 { '8' }
    else { '9' }
}

/// The decimal notation of `n`, without leading zeros.
pub open spec fn decimal(n: nat) -> Seq<char>
    decreases n,
{
    if n < 10 {
        seq![digit_char(n)]
    } else {
        decimal(n / 10) + seq![digit_char(n % 10)]
    }
}

/// The decimal notation of `n`, padded with a leading zero below ten.
pub open spec fn two_digits(n: nat) -> Seq<char> {
    if n < 10 {
        seq!['0'] + decimal(n)
    } else {
        decimal(n)
    }
}

/// `h:m:s`, each part with at least two digits.
pub open spec fn clock_text(h: nat, m: nat, s: nat) -> Seq<char> {
    two_digits(h) + seq![':'] + two_digits(m) + seq![':'] + two_digits(s)
}

/// A duration of `t` seconds the way the statistics show it: bare seconds
/// below a minute, `MM:SS` below an hour, `HH:MM:SS` beyond.
pub open spec fn duration_text(t: nat) -> Seq<char> {
    if t < 60 {
        decimal(t)
    } else if t < 3600 {
        two_digits(t / 60) + seq![':'] + two_digits(t % 60)
    } else {
        clock_text(t / 3600, (t % 3600) / 60, t % 60)
    }
}

fn digit_str(d: u32) -> (r: &'static str)
    requires
        d < 10,
    ensures
        r@ == seq![digit_char(d as nat)],
{
    proof {
        reveal_strlit("0");
        reveal_strlit("1");
        reveal_strlit("2");
        reveal_strlit("3");
        reveal_strlit("4");
        reveal_strlit("5");
        reveal_strlit("6");
        reveal_strlit("7");
        reveal_strlit("8");
        reveal_strlit("9");
    }
    if d == 0 {
        "0"
    } else if d == 1 {
        "1"
    } else if d == 2 {
        "2"
    } else if d == 3 {
        "3"
    } else if d == 4 {
        "4"
    } else if d == 5 {
        "5"
    } else if d == 6 {
        "6"
    } else if d == 7 {
        "7"
    } else if d == 8 {
        "8"
    } else {
        "9"
    }
}

/// Appends the decimal notation of `n`.
pub fn push_decimal(out: &mut String, n: u32)
    ensures
        final(out)@ == old(out)@ + decimal(n as nat),
    decreases n,
{
    if n >= 10 {
        push_decimal(out, n / 10);
    }
    out.append(digit_str(n % 10));
    assert(final(out)@ == old(out)@ + decimal(n as nat));
}

/// Appends `n` with at least two digits.
pub fn push_two_digits(out: &mut String, n: u32)
    ensures
        final(out)@ == old(out)@ + two_digits(n as nat),
{
    if n < 10 {
        out.append("0");
        proof {
            reveal_strlit("0");
        }
    }
    push_decimal(out, n);
}

fn push_colon(out: &mut String)
    ensures
        final(out)@ == old(out)@ + seq![':'],
{
    out.append(":");
    proof {
        reveal_strlit(":");
    }
}

/// `h:m:s`, each part with at least two digits.
pub fn clock_string(h: u32, m: u32, s: u32) -> (r: String)
    ensures
        r@ == clock_text(h as nat, m as nat, s as nat),
{
    let mut out = String::new();
    push_two_digits(&mut out, h);
    push_colon(&mut out);
    push_two_digits(&mut out, m);
    push_colon(&mut out);
    push_two_digits(&mut out, s);
    out
}

/// Shows a duration of `t` seconds: `SS`, `MM:SS` or `HH:MM:SS` by its size.
pub fn second_to_formatted(t: u32) -> (r: String)
    ensures
        r@ == duration_text(t as nat),
{
    let (hour, minute, second) = (t / 3600, (t % 3600) / 60, t % 60);
    if t < 60 {
        let mut out = String::new();
        push_decimal(&mut out, second);
        out
    } else if t < 3600 {
        let mut out = String::new();
        push_two_digits(&mut out, minute);
        push_colon(&mut out);
        push_two_digits(&mut out, second);
        proof {
            assert(t % 3600 == t);
        }
        out
    } else {
        clock_string(hour, minute, second)
    }
}

/// The unit that goes with `duration_text(t)`.
pub open spec fn unit_text(t: nat) -> Seq<char> {
    if t < 60 {
        "second"@
    } else if t < 3600 {
        "minute"@
    } else {
        "hour"@
    }
}

/// The unit word shown beside a duration of `t` seconds.
pub fn unit_label(t: u32) -> (r: &'static str)
    ensures
        r@ == unit_text(t as nat),
{
    if t < 60 {
        "second"
    } else if t < 3600 {
        "minute"
    } else {
        "hour"
    }
}

} // verus!
